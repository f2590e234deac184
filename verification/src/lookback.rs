//! Looking back over the window: the earliest sample within a time span.

use crate::health::Sample;
use crate::window::RollingWindow;
use vstd::prelude::*;

verus! {

/// The earliest sample taken at or after `bound`, scanning from the oldest;
/// `None` where every sample is older.
pub open spec fn first_since(samples: Seq<Sample>, bound: int) -> Option<Sample>
    decreases samples.len(),
{
    if samples.len() == 0 {
        None
    } else if samples[0].timestamp >= bound {
        Some(samples[0])
    } else {
        first_since(samples.drop_first(), bound)
    }
}

/// `first_since` finds the sample at the least position whose timestamp
/// reaches the bound, and finds none exactly when no timestamp does.
pub proof fn lemma_first_since(samples: Seq<Sample>, bound: int)
    ensures
        match first_since(samples, bound) {
            Some(found) => exists|i: int|
                0 <= i < samples.len() && samples[i] == found && found.timestamp >= bound
                    && forall|j: int| 0 <= j < i ==> (#[trigger] samples[j]).timestamp < bound,
            None => forall|j: int|
                0 <= j < samples.len() ==> (#[trigger] samples[j]).timestamp < bound,
        },
    decreases samples.len(),
{
    if samples.len() == 0 {
    } else if samples[0].timestamp >= bound {
        assert(samples[0] == first_since(samples, bound).unwrap());
    } else {
        let rest = samples.drop_first();
        lemma_first_since(rest, bound);
        match first_since(rest, bound) {
            Some(found) => {
                let i = choose|i: int|
                    0 <= i < rest.len() && rest[i] == found && found.timestamp >= bound
                        && forall|j: int| 0 <= j < i ==> (#[trigger] rest[j]).timestamp < bound;
                assert(samples[i + 1] == found);
                assert forall|j: int| 0 <= j < i + 1 implies (#[trigger] samples[j]).timestamp
                    < bound by {
                    if j > 0 {
                        assert(samples[j] == rest[j - 1]);
                    }
                }
            },
            None => {
                assert forall|j: int| 0 <= j < samples.len() implies (
                #[trigger] samples[j]).timestamp < bound by {
                    if j > 0 {
                        assert(samples[j] == rest[j - 1]);
                    }
                }
            },
        }
    }
}

/// The earliest sample of the window no older than `span` milliseconds at
/// the instant `now`.
pub fn find_first_since(window: &RollingWindow<Sample>, now: i64, span: i64) -> (found: Option<
    Sample,
>)
    ensures
        found == first_since(window@, now - span),
{
    let n = window.len();
    let mut i: usize = 0;
    assert(window@.skip(0) =~= window@);
    while i < n
        invariant
            n == window@.len(),
            i <= n,
            first_since(window@, now - span) == first_since(window@.skip(i as int), now - span),
        decreases n - i,
    {
        let s = *window.get(i);
        assert(window@.skip(i as int)[0] == s);
        assert(window@.skip(i as int).drop_first() =~= window@.skip(i + 1));
        if s.timestamp as i128 >= now as i128 - span as i128 {
            return Some(s);
        }
        i += 1;
    }
    None
}

} // verus!
