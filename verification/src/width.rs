//! Display widths of characters and strings, as the `unicode-width` crate
//! measures them.

use unicode_width::{UnicodeWidthChar, UnicodeWidthStr};
use vstd::prelude::*;

verus! {

/// The number of terminal columns that `unicode_width` gives the character;
/// `None` for a control character.
pub uninterp spec fn char_width(c: char) -> Option<usize>;

/// The number of terminal columns that `unicode_width` gives the string.
/// It is not in general the sum of the widths of its characters.
pub uninterp spec fn str_width(s: Seq<char>) -> usize;

/// `UnicodeWidthChar::width`: the character's displayed width in columns,
/// `None` for a control character. The crate's tables decide it; a
/// printable ASCII character is one column wide and an ASCII control
/// character has no width.
#[verifier::external_body]
pub(crate) fn width_of_char(c: char) -> (w: Option<usize>)
    ensures
        w == char_width(c),
        ' ' <= c <= '~' ==> w == Some(1usize),
        c < ' ' ==> w is None,
{
    UnicodeWidthChar::width(c)
}

/// `UnicodeWidthStr::width`: the string's displayed width in columns. The
/// crate's tables and the neighbours of each character decide it; a string
/// of printable ASCII characters is as wide as it is long.
#[verifier::external_body]
pub(crate) fn width_of_str(s: &str) -> (w: usize)
    ensures
        w == str_width(s@),
        (forall|i: int| 0 <= i < s@.len() ==> ' ' <= #[trigger] s@[i] <= '~') ==> w == s@.len(),
{
    UnicodeWidthStr::width(s)
}

} // verus!
