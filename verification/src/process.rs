//! Processes that use the device: how they are told from the others, what
//! is estimated of them, and how their table is sorted.

use crate::state::SortColumn;
use crate::text::{has_run, lex_less, lowercase, str_contains, str_less, to_lowercase};
use vstd::prelude::*;
use vstd::string::StringExecFns;

verus! {

/// A process on the device. Shares are held in thousandths of a percent.
#[derive(Debug, PartialEq, Eq)]
pub struct GpuProcess {
    pub pid: u32,
    pub user: String,
    pub command: String,
    pub gpu_usage: u32,
    /// Bytes.
    pub memory_usage: u64,
    pub encoder_usage: u32,
    pub decoder_usage: u32,
    pub priority: i32,
    pub context_id: Option<u32>,
    pub container_id: Option<String>,
    pub parent_pid: Option<u32>,
}

/// A process with its texts as sequences of characters.
pub struct GpuProcessView {
    pub pid: u32,
    pub user: Seq<char>,
    pub command: Seq<char>,
    pub gpu_usage: u32,
    pub memory_usage: u64,
    pub encoder_usage: u32,
    pub decoder_usage: u32,
    pub priority: i32,
    pub context_id: Option<u32>,
    pub container_id: Option<Seq<char>>,
    pub parent_pid: Option<u32>,
}

impl View for GpuProcess {
    type V = GpuProcessView;

    open spec fn view(&self) -> GpuProcessView {
        GpuProcessView {
            pid: self.pid,
            user: self.user@,
            command: self.command@,
            gpu_usage: self.gpu_usage,
            memory_usage: self.memory_usage,
            encoder_usage: self.encoder_usage,
            decoder_usage: self.decoder_usage,
            priority: self.priority,
            context_id: self.context_id,
            container_id: match self.container_id {
                Some(c) => Some(c@),
                None => None,
            },
            parent_pid: self.parent_pid,
        }
    }
}

impl Clone for GpuProcess {
    fn clone(&self) -> (c: Self)
        ensures
            c == *self,
    {
        GpuProcess {
            pid: self.pid,
            user: self.user.clone(),
            command: self.command.clone(),
            gpu_usage: self.gpu_usage,
            memory_usage: self.memory_usage,
            encoder_usage: self.encoder_usage,
            decoder_usage: self.decoder_usage,
            priority: self.priority,
            context_id: self.context_id,
            container_id: match &self.container_id {
                Some(c) => Some(c.clone()),
                None => None,
            },
            parent_pid: self.parent_pid,
        }
    }
}

/// The views of a run of processes, in order.
pub open spec fn process_views(processes: Seq<GpuProcess>) -> Seq<GpuProcessView> {
    processes.map_values(|p: GpuProcess| p@)
}

/// What the system's process table says of one process.
#[derive(Debug, Clone, PartialEq, Eq)]
pub struct ProcessEntry {
    pub pid: u32,
    pub name: String,
    /// The path of the executable, as text.
    pub exe_path: String,
    /// The last part of that path, where it has one.
    pub exe_file_name: Option<String>,
    /// Share of one processor in use, in thousandths of a percent.
    pub cpu_usage: u32,
    /// Memory in use, in kibibytes.
    pub memory_kb: u64,
    /// The owner's name, where it is known.
    pub user_name: Option<String>,
    pub parent_pid: Option<u32>,
}

/// An entry of the process table with its texts as sequences of characters.
pub struct ProcessEntryView {
    pub pid: u32,
    pub name: Seq<char>,
    pub exe_path: Seq<char>,
    pub exe_file_name: Option<Seq<char>>,
    pub cpu_usage: u32,
    pub memory_kb: u64,
    pub user_name: Option<Seq<char>>,
    pub parent_pid: Option<u32>,
}

impl View for ProcessEntry {
    type V = ProcessEntryView;

    open spec fn view(&self) -> ProcessEntryView {
        ProcessEntryView {
            pid: self.pid,
            name: self.name@,
            exe_path: self.exe_path@,
            exe_file_name: match self.exe_file_name {
                Some(f) => Some(f@),
                None => None,
            },
            cpu_usage: self.cpu_usage,
            memory_kb: self.memory_kb,
            user_name: match self.user_name {
                Some(u) => Some(u@),
                None => None,
            },
            parent_pid: self.parent_pid,
        }
    }
}

/// The views of a run of entries, in order.
pub open spec fn entry_views(entries: Seq<ProcessEntry>) -> Seq<ProcessEntryView> {
    entries.map_values(|e: ProcessEntry| e@)
}

/// A processor share above this marks a process as a likely user of the
/// device: 15 %.
pub const BUSY_CPU: u32 = 15_000;

/// The whole, in thousandths of a percent.
pub const FULL_SHARE: u32 = 100_000;

/// At most this many processes are listed.
pub const LISTED_PROCESSES: usize = 15;

/// Parts of names of programs that are known to use the device heavily.
pub open spec fn intensive_names() -> Seq<Seq<char>> {
    seq![
        "python"@,
        "blender"@,
        "ffmpeg"@,
        "obs"@,
        "davinci"@,
        "premiere"@,
        "aftereffects"@,
        "maya"@,
        "3dsmax"@,
        "unity"@,
        "unreal"@,
        "chrome"@,
        "firefox"@,
        "discord"@,
        "steam"@,
        "game"@,
        "vlc"@,
        "mpv"@,
        "handbrake"@,
    ]
}

/// Whether a name or a path, in lower case, holds one of the known names.
pub open spec fn names_intensive(lower_name: Seq<char>, lower_path: Seq<char>) -> bool {
    exists|i: int|
        0 <= i < intensive_names().len() && (has_run(lower_name, #[trigger] intensive_names()[i])
            || has_run(lower_path, intensive_names()[i]))
}

/// Whether an entry is taken for a process that uses the device: it is
/// named like a known program, or it keeps a processor busy.
pub open spec fn uses_gpu(entry: ProcessEntryView) -> bool {
    names_intensive(lowercase(entry.name), lowercase(entry.exe_path)) || entry.cpu_usage
        > BUSY_CPU
}

/// `tenths` tenths of a processor share, rounded down and capped at the
/// whole.
pub open spec fn share_of(cpu_usage: u32, tenths: int) -> u32 {
    let share = cpu_usage * tenths / 10;
    if share > FULL_SHARE {
        FULL_SHARE
    } else {
        share as u32
    }
}

/// Kibibytes in bytes, as far as a `u64` reaches.
pub open spec fn kib_to_bytes(kib: u64) -> u64 {
    if kib * 1024 > u64::MAX {
        u64::MAX
    } else {
        (kib * 1024) as u64
    }
}

/// What is estimated of a process from its entry: seven tenths of its
/// processor share as its share of the device, four tenths as its share of
/// the encoder where it is an encoder, two tenths as its share of the
/// decoder where it is a browser.
pub open spec fn estimated(entry: ProcessEntryView) -> GpuProcessView {
    let lower = lowercase(entry.name);
    GpuProcessView {
        pid: entry.pid,
        user: match entry.user_name {
            Some(u) => u,
            None => "unknown"@,
        },
        command: match entry.exe_file_name {
            Some(f) => f,
            None => entry.name,
        },
        gpu_usage: share_of(entry.cpu_usage, 7),
        memory_usage: kib_to_bytes(entry.memory_kb),
        encoder_usage: if has_run(lower, "ffmpeg"@) || has_run(lower, "obs"@) {
            share_of(entry.cpu_usage, 4)
        } else {
            0
        },
        decoder_usage: if has_run(lower, "chrome"@) || has_run(lower, "firefox"@) {
            share_of(entry.cpu_usage, 2)
        } else {
            0
        },
        priority: 0,
        context_id: None,
        container_id: None,
        parent_pid: entry.parent_pid,
    }
}

/// The estimates for those entries that are taken to use the device, in the
/// order of the entries.
pub open spec fn estimates(entries: Seq<ProcessEntryView>) -> Seq<GpuProcessView>
    decreases entries.len(),
{
    if entries.len() == 0 {
        Seq::empty()
    } else if uses_gpu(entries.last()) {
        estimates(entries.drop_last()).push(estimated(entries.last()))
    } else {
        estimates(entries.drop_last())
    }
}

/// Whether `a` stands before `b` when the column is sorted upwards.
pub open spec fn column_less(a: GpuProcessView, b: GpuProcessView, column: SortColumn) -> bool {
    match column {
        SortColumn::Pid => a.pid < b.pid,
        SortColumn::User => lex_less(a.user, b.user),
        SortColumn::GpuUsage => a.gpu_usage < b.gpu_usage,
        SortColumn::MemoryUsage => a.memory_usage < b.memory_usage,
        SortColumn::Command => lex_less(a.command, b.command),
    }
}

/// Whether `a` must stand before `b` in a table sorted by the column,
/// upwards or downwards.
pub open spec fn must_precede(
    a: GpuProcessView,
    b: GpuProcessView,
    column: SortColumn,
    ascending: bool,
) -> bool {
    if ascending {
        column_less(a, b, column)
    } else {
        column_less(b, a, column)
    }
}

/// A sorted table with `p` put in at its front: `p` goes behind those that
/// must precede it and ahead of all others.
pub open spec fn front_inserted(
    p: GpuProcessView,
    sorted: Seq<GpuProcessView>,
    column: SortColumn,
    ascending: bool,
) -> Seq<GpuProcessView>
    decreases sorted.len(),
{
    if sorted.len() == 0 {
        seq![p]
    } else if must_precede(sorted[0], p, column, ascending) {
        seq![sorted[0]] + front_inserted(p, sorted.drop_first(), column, ascending)
    } else {
        seq![p] + sorted
    }
}

/// The table sorted by the column. Processes that the column does not tell
/// apart keep the order in which they stood.
pub open spec fn sorted_by(list: Seq<GpuProcessView>, column: SortColumn, ascending: bool) -> Seq<
    GpuProcessView,
>
    decreases list.len(),
{
    if list.len() == 0 {
        Seq::empty()
    } else {
        front_inserted(list[0], sorted_by(list.drop_first(), column, ascending), column, ascending)
    }
}

/// Whether no process of the table must precede one that stands ahead of it.
pub open spec fn in_column_order(list: Seq<GpuProcessView>, column: SortColumn, ascending: bool)
    -> bool {
    forall|i: int, j: int|
        0 <= i < j < list.len() ==> !must_precede(list[j], list[i], column, ascending)
}

/// The processes listed: the estimates for the entries that are taken to
/// use the device, the heaviest user first, fifteen at most.
pub open spec fn real_processes(entries: Seq<ProcessEntryView>) -> Seq<GpuProcessView> {
    let sorted = sorted_by(estimates(entries), SortColumn::GpuUsage, false);
    if sorted.len() > LISTED_PROCESSES {
        sorted.take(LISTED_PROCESSES as int)
    } else {
        sorted
    }
}

/// Putting a process into a table that is in the order of its column
/// leaves the table in that order, one process longer, and holding what it
/// held and the process put in.
pub proof fn lemma_front_inserted(
    p: GpuProcessView,
    sorted: Seq<GpuProcessView>,
    column: SortColumn,
    ascending: bool,
)
    requires
        in_column_order(sorted, column, ascending),
    ensures
        in_column_order(front_inserted(p, sorted, column, ascending), column, ascending),
        front_inserted(p, sorted, column, ascending).len() == sorted.len() + 1,
        front_inserted(p, sorted, column, ascending).to_multiset() == sorted.to_multiset().insert(
            p,
        ),
        forall|k: int|
            0 <= k < front_inserted(p, sorted, column, ascending).len() ==> (
            #[trigger] front_inserted(p, sorted, column, ascending)[k]) == p || sorted.contains(
                front_inserted(p, sorted, column, ascending)[k],
            ),
    decreases sorted.len(),
{
    broadcast use vstd::seq_lib::group_to_multiset_ensures;

    let out = front_inserted(p, sorted, column, ascending);
    if sorted.len() == 0 {
        assert(out =~= Seq::<GpuProcessView>::empty().push(p));
    } else if must_precede(sorted[0], p, column, ascending) {
        let rest = sorted.drop_first();
        assert forall|i: int, j: int| 0 <= i < j < rest.len() implies !must_precede(
            rest[j],
            rest[i],
            column,
            ascending,
        ) by {
            assert(rest[i] == sorted[i + 1] && rest[j] == sorted[j + 1]);
        }
        lemma_front_inserted(p, rest, column, ascending);
        let tail = front_inserted(p, rest, column, ascending);
        assert forall|i: int, j: int| 0 <= i < j < out.len() implies !must_precede(
            out[j],
            out[i],
            column,
            ascending,
        ) by {
            if i == 0 {
                let e = tail[j - 1];
                if e == p {
                    lemma_order_is_strict(sorted[0], p, column, ascending);
                } else {
                    assert(rest.contains(e));
                    let m = choose|m: int| 0 <= m < rest.len() && rest[m] == e;
                    assert(sorted[m + 1] == e);
                }
            } else {
                assert(out[i] == tail[i - 1] && out[j] == tail[j - 1]);
            }
        }
        assert(sorted =~= seq![sorted[0]] + rest);
        assert(out =~= seq![sorted[0]] + tail);
        assert(out.to_multiset() =~= sorted.to_multiset().insert(p)) by {
            vstd::seq_lib::lemma_multiset_commutative(seq![sorted[0]], tail);
            vstd::seq_lib::lemma_multiset_commutative(seq![sorted[0]], rest);
        }
        assert forall|k: int| 0 <= k < out.len() implies (#[trigger] out[k]) == p
            || sorted.contains(out[k]) by {
            if k == 0 {
                assert(sorted[0] == out[0]);
            } else {
                assert(out[k] == tail[k - 1]);
                if tail[k - 1] != p {
                    assert(rest.contains(tail[k - 1]));
                    let m = choose|m: int| 0 <= m < rest.len() && rest[m] == tail[k - 1];
                    assert(sorted[m + 1] == out[k]);
                }
            }
        }
    } else {
        assert(out =~= seq![p] + sorted);
        assert forall|i: int, j: int| 0 <= i < j < out.len() implies !must_precede(
            out[j],
            out[i],
            column,
            ascending,
        ) by {
            if i == 0 {
                let e = sorted[j - 1];
                if j - 1 > 0 && must_precede(e, p, column, ascending) {
                    lemma_order_carries(e, sorted[0], p, column, ascending);
                    assert(!must_precede(sorted[j - 1], sorted[0], column, ascending));
                }
            } else {
                assert(out[i] == sorted[i - 1] && out[j] == sorted[j - 1]);
            }
        }
        assert(out.to_multiset() =~= sorted.to_multiset().insert(p)) by {
            vstd::seq_lib::lemma_multiset_commutative(seq![p], sorted);
        }
        assert forall|k: int| 0 <= k < out.len() implies (#[trigger] out[k]) == p
            || sorted.contains(out[k]) by {
            if k > 0 {
                assert(out[k] == sorted[k - 1]);
            }
        }
    }
}

/// Of two processes at most one must precede the other.
pub proof fn lemma_order_is_strict(
    a: GpuProcessView,
    b: GpuProcessView,
    column: SortColumn,
    ascending: bool,
)
    ensures
        !(must_precede(a, b, column, ascending) && must_precede(b, a, column, ascending)),
{
    crate::text::lemma_lex_less_strict(a.user, b.user);
    crate::text::lemma_lex_less_strict(a.command, b.command);
}

/// Where `e` must precede `p` and `first` need not, `e` must precede
/// `first`.
pub proof fn lemma_order_carries(
    e: GpuProcessView,
    first: GpuProcessView,
    p: GpuProcessView,
    column: SortColumn,
    ascending: bool,
)
    requires
        must_precede(e, p, column, ascending),
        !must_precede(first, p, column, ascending),
    ensures
        must_precede(e, first, column, ascending),
{
    match column {
        SortColumn::User => {
            if ascending {
                crate::text::lemma_lex_less_total(first.user, p.user);
                if first.user != p.user {
                    crate::text::lemma_lex_less_transitive(e.user, p.user, first.user);
                }
            } else {
                crate::text::lemma_lex_less_total(p.user, first.user);
                if first.user != p.user {
                    crate::text::lemma_lex_less_transitive(first.user, p.user, e.user);
                }
            }
        },
        SortColumn::Command => {
            if ascending {
                crate::text::lemma_lex_less_total(first.command, p.command);
                if first.command != p.command {
                    crate::text::lemma_lex_less_transitive(e.command, p.command, first.command);
                }
            } else {
                crate::text::lemma_lex_less_total(p.command, first.command);
                if first.command != p.command {
                    crate::text::lemma_lex_less_transitive(first.command, p.command, e.command);
                }
            }
        },
        _ => {},
    }
}

/// A sorted table is in the order of its column, and it holds the
/// processes of the table it was made from, each as often as that one.
pub proof fn lemma_sorted_by(list: Seq<GpuProcessView>, column: SortColumn, ascending: bool)
    ensures
        in_column_order(sorted_by(list, column, ascending), column, ascending),
        sorted_by(list, column, ascending).len() == list.len(),
        sorted_by(list, column, ascending).to_multiset() == list.to_multiset(),
    decreases list.len(),
{
    broadcast use vstd::seq_lib::group_to_multiset_ensures;

    if list.len() > 0 {
        let rest = list.drop_first();
        lemma_sorted_by(rest, column, ascending);
        lemma_front_inserted(list[0], sorted_by(rest, column, ascending), column, ascending);
        assert(list =~= seq![list[0]] + rest);
        vstd::seq_lib::lemma_multiset_commutative(seq![list[0]], rest);
        assert(list.to_multiset() =~= rest.to_multiset().insert(list[0]));
    } else {
        assert(sorted_by(list, column, ascending) =~= list);
    }
}

/// The three processes shown where the system shows none that uses the
/// device.
pub open spec fn mock_processes() -> Seq<GpuProcessView> {
    seq![
        GpuProcessView {
            pid: 1234,
            user: "user1"@,
            command: "python.exe"@,
            gpu_usage: 85_200,
            memory_usage: 3_221_225_472,
            encoder_usage: 0,
            decoder_usage: 0,
            priority: 0,
            context_id: Some(1u32),
            container_id: None,
            parent_pid: Some(1000u32),
        },
        GpuProcessView {
            pid: 5678,
            user: "user2"@,
            command: "blender.exe"@,
            gpu_usage: 65_800,
            memory_usage: 1_610_612_736,
            encoder_usage: 0,
            decoder_usage: 0,
            priority: 0,
            context_id: Some(2u32),
            container_id: Some("docker-container-123"@),
            parent_pid: Some(2000u32),
        },
        GpuProcessView {
            pid: 9012,
            user: "root"@,
            command: "ffmpeg.exe"@,
            gpu_usage: 25_300,
            memory_usage: 536_870_912,
            encoder_usage: 45_000,
            decoder_usage: 0,
            priority: -10i32,
            context_id: Some(3u32),
            container_id: None,
            parent_pid: Some(1u32),
        },
    ]
}

/// The processes to show: those found, or the mock ones where none is.
pub open spec fn gpu_processes(entries: Seq<ProcessEntryView>) -> Seq<GpuProcessView> {
    if real_processes(entries).len() == 0 {
        mock_processes()
    } else {
        real_processes(entries)
    }
}

fn intensive_name(i: usize) -> (name: &'static str)
    requires
        i < 19,
    ensures
        name@ == intensive_names()[i as int],
        intensive_names().len() == 19,
{
    if i == 0 {
        "python"
    } else if i == 1 {
        "blender"
    } else if i == 2 {
        "ffmpeg"
    } else if i == 3 {
        "obs"
    } else if i == 4 {
        "davinci"
    } else if i == 5 {
        "premiere"
    } else if i == 6 {
        "aftereffects"
    } else if i == 7 {
        "maya"
    } else if i == 8 {
        "3dsmax"
    } else if i == 9 {
        "unity"
    } else if i == 10 {
        "unreal"
    } else if i == 11 {
        "chrome"
    } else if i == 12 {
        "firefox"
    } else if i == 13 {
        "discord"
    } else if i == 14 {
        "steam"
    } else if i == 15 {
        "game"
    } else if i == 16 {
        "vlc"
    } else if i == 17 {
        "mpv"
    } else {
        "handbrake"
    }
}

fn is_intensive(lower_name: &str, lower_path: &str) -> (known: bool)
    ensures
        known == names_intensive(lower_name@, lower_path@),
{
    let mut i: usize = 0;
    while i < 19
        invariant
            i <= 19,
            intensive_names().len() == 19,
            forall|j: int|
                0 <= j < i ==> !(has_run(lower_name@, #[trigger] intensive_names()[j]) || has_run(
                    lower_path@,
                    intensive_names()[j],
                )),
        decreases 19 - i,
    {
        let name = intensive_name(i);
        if str_contains(lower_name, name) || str_contains(lower_path, name) {
            return true;
        }
        i += 1;
    }
    false
}

fn share(cpu_usage: u32, tenths: u64) -> (part: u32)
    requires
        tenths <= 10,
    ensures
        part == share_of(cpu_usage, tenths as int),
{
    assert(cpu_usage * tenths <= u32::MAX * 10) by (nonlinear_arith)
        requires
            0 <= cpu_usage <= u32::MAX,
            0 <= tenths <= 10,
    ;
    let part = cpu_usage as u64 * tenths / 10;
    if part > FULL_SHARE as u64 {
        FULL_SHARE
    } else {
        part as u32
    }
}

fn precedes(a: &GpuProcess, b: &GpuProcess, column: SortColumn, ascending: bool) -> (before: bool)
    ensures
        before == must_precede(a@, b@, column, ascending),
{
    let (x, y) = if ascending {
        (a, b)
    } else {
        (b, a)
    };
    match column {
        SortColumn::Pid => x.pid < y.pid,
        SortColumn::User => str_less(x.user.as_str(), y.user.as_str()),
        SortColumn::GpuUsage => x.gpu_usage < y.gpu_usage,
        SortColumn::MemoryUsage => x.memory_usage < y.memory_usage,
        SortColumn::Command => str_less(x.command.as_str(), y.command.as_str()),
    }
}

/// Sorts the table by the column, upwards or downwards. Processes that the
/// column does not tell apart keep their order.
pub fn sort_processes(processes: &mut Vec<GpuProcess>, column: SortColumn, ascending: bool)
    ensures
        process_views(final(processes)@) == sorted_by(
            process_views(old(processes)@),
            column,
            ascending,
        ),
        in_column_order(process_views(final(processes)@), column, ascending),
        final(processes)@.len() == old(processes)@.len(),
        process_views(final(processes)@).to_multiset() == process_views(
            old(processes)@,
        ).to_multiset(),
{
    let ghost before = process_views(processes@);
    let mut sorted: Vec<GpuProcess> = Vec::new();
    assert(before.skip(before.len() as int) =~= Seq::<GpuProcessView>::empty());
    assert(process_views(sorted@) =~= Seq::<GpuProcessView>::empty());
    while processes.len() > 0
        invariant
            processes@.len() <= before.len(),
            process_views(processes@) == before.take(processes@.len() as int),
            process_views(sorted@) == sorted_by(
                before.skip(processes@.len() as int),
                column,
                ascending,
            ),
        decreases processes@.len(),
    {
        let ghost remaining = processes@.len() as int;
        let ghost views_before = process_views(processes@);
        let p = processes.pop().unwrap();
        assert(p@ == views_before[remaining - 1]);
        assert(p@ == before[remaining - 1]);
        assert(process_views(processes@) =~= before.take(remaining - 1));
        assert(before.skip(remaining - 1)[0] == p@);
        assert(before.skip(remaining - 1).drop_first() =~= before.skip(remaining));
        let ghost tail = process_views(sorted@);
        let mut k: usize = 0;
        assert(tail.take(0) + front_inserted(p@, tail.skip(0), column, ascending)
            =~= front_inserted(p@, tail, column, ascending)) by {
            assert(tail.skip(0) =~= tail);
        }
        while k < sorted.len() && precedes(&sorted[k], &p, column, ascending)
            invariant
                k <= sorted@.len(),
                tail == process_views(sorted@),
                front_inserted(p@, tail, column, ascending) == tail.take(k as int)
                    + front_inserted(p@, tail.skip(k as int), column, ascending),
            decreases sorted@.len() - k,
        {
            assert(tail.skip(k as int)[0] == sorted@[k as int]@);
            assert(tail.skip(k as int).drop_first() =~= tail.skip(k + 1));
            assert(tail.take(k + 1) =~= tail.take(k as int) + seq![tail[k as int]]);
            assert(tail.take(k as int) + (seq![tail[k as int]] + front_inserted(
                p@,
                tail.skip(k + 1),
                column,
                ascending,
            )) =~= tail.take(k + 1) + front_inserted(p@, tail.skip(k + 1), column, ascending));
            k += 1;
        }
        assert(front_inserted(p@, tail.skip(k as int), column, ascending) =~= seq![p@] + tail.skip(
            k as int,
        )) by {
            if k < sorted@.len() {
                assert(tail.skip(k as int)[0] == sorted@[k as int]@);
            }
        }
        sorted.insert(k, p);
        assert(process_views(sorted@) =~= tail.take(k as int) + (seq![p@] + tail.skip(k as int)));
    }
    assert(before.skip(0) =~= before);
    proof {
        lemma_sorted_by(before, column, ascending);
    }
    *processes = sorted;
}

impl ProcessEntry {
    /// What is estimated of the process, given its name in lower case.
    fn estimate(&self, lower_name: &str) -> (process: GpuProcess)
        requires
            lower_name@ == lowercase(self.name@),
        ensures
            process@ == estimated(self@),
    {
        let cpu = self.cpu_usage;
        let encoder_usage = if str_contains(lower_name, "ffmpeg") || str_contains(
            lower_name,
            "obs",
        ) {
            share(cpu, 4)
        } else {
            0
        };
        let decoder_usage = if str_contains(lower_name, "chrome") || str_contains(
            lower_name,
            "firefox",
        ) {
            share(cpu, 2)
        } else {
            0
        };
        GpuProcess {
            pid: self.pid,
            user: match &self.user_name {
                Some(u) => u.clone(),
                None => String::from_str("unknown"),
            },
            command: match &self.exe_file_name {
                Some(f) => f.clone(),
                None => self.name.clone(),
            },
            gpu_usage: share(cpu, 7),
            memory_usage: if self.memory_kb > u64::MAX / 1024 {
                u64::MAX
            } else {
                self.memory_kb * 1024
            },
            encoder_usage,
            decoder_usage,
            priority: 0,
            context_id: None,
            container_id: None,
            parent_pid: self.parent_pid,
        }
    }
}

/// Lists the processes that use the device.
pub struct ProcessManager;

impl ProcessManager {
    /// The processes of the table that are taken to use the device, with
    /// what is estimated of them: the heaviest user first, fifteen at most.
    pub fn get_real_processes(entries: &Vec<ProcessEntry>) -> (processes: Vec<GpuProcess>)
        ensures
            process_views(processes@) == real_processes(entry_views(entries@)),
            processes@.len() <= LISTED_PROCESSES,
            in_column_order(process_views(processes@), SortColumn::GpuUsage, false),
    {
        let mut found: Vec<GpuProcess> = Vec::new();
        let mut i: usize = 0;
        assert(entry_views(entries@).take(0) =~= Seq::<ProcessEntryView>::empty());
        assert(process_views(found@) =~= Seq::<GpuProcessView>::empty());
        while i < entries.len()
            invariant
                i <= entries@.len(),
                process_views(found@) == estimates(entry_views(entries@).take(i as int)),
            decreases entries@.len() - i,
        {
            let entry = &entries[i];
            assert(entry_views(entries@).take(i + 1).drop_last() =~= entry_views(entries@).take(
                i as int,
            ));
            assert(entry_views(entries@).take(i + 1).last() == entry@);
            let lower_name = to_lowercase(entry.name.as_str());
            let lower_path = to_lowercase(entry.exe_path.as_str());
            if is_intensive(lower_name.as_str(), lower_path.as_str()) || entry.cpu_usage
                > BUSY_CPU {
                let ghost so_far = process_views(found@);
                let process = entry.estimate(lower_name.as_str());
                found.push(process);
                assert(process_views(found@) =~= so_far.push(estimated(entry@)));
            }
            i += 1;
        }
        assert(entry_views(entries@).take(entries@.len() as int) =~= entry_views(entries@));
        sort_processes(&mut found, SortColumn::GpuUsage, false);
        let ghost sorted = process_views(found@);
        found.truncate(LISTED_PROCESSES);
        assert(process_views(found@) =~= real_processes(entry_views(entries@)));
        assert forall|a: int, b: int| 0 <= a < b < process_views(found@).len() implies !must_precede(
            process_views(found@)[b],
            process_views(found@)[a],
            SortColumn::GpuUsage,
            false,
        ) by {
            assert(process_views(found@)[a] == sorted[a]);
            assert(process_views(found@)[b] == sorted[b]);
        }
        found
    }

    /// Three processes to show where the system shows none.
    pub fn get_mock_processes() -> (processes: Vec<GpuProcess>)
        ensures
            process_views(processes@) == mock_processes(),
    {
        let mut processes: Vec<GpuProcess> = Vec::new();
        processes.push(
            GpuProcess {
                pid: 1234,
                user: String::from_str("user1"),
                command: String::from_str("python.exe"),
                gpu_usage: 85_200,
                memory_usage: 3_221_225_472,
                encoder_usage: 0,
                decoder_usage: 0,
                priority: 0,
                context_id: Some(1),
                container_id: None,
                parent_pid: Some(1000),
            },
        );
        processes.push(
            GpuProcess {
                pid: 5678,
                user: String::from_str("user2"),
                command: String::from_str("blender.exe"),
                gpu_usage: 65_800,
                memory_usage: 1_610_612_736,
                encoder_usage: 0,
                decoder_usage: 0,
                priority: 0,
                context_id: Some(2),
                container_id: Some(String::from_str("docker-container-123")),
                parent_pid: Some(2000),
            },
        );
        processes.push(
            GpuProcess {
                pid: 9012,
                user: String::from_str("root"),
                command: String::from_str("ffmpeg.exe"),
                gpu_usage: 25_300,
                memory_usage: 536_870_912,
                encoder_usage: 45_000,
                decoder_usage: 0,
                priority: -10,
                context_id: Some(3),
                container_id: None,
                parent_pid: Some(1),
            },
        );
        assert(process_views(processes@) =~= mock_processes());
        processes
    }

    /// The processes to show for a process table: those that are taken to
    /// use the device, or the mock ones where there is none.
    pub fn get_gpu_processes(entries: &Vec<ProcessEntry>) -> (processes: Vec<GpuProcess>)
        ensures
            process_views(processes@) == gpu_processes(entry_views(entries@)),
            processes@.len() > 0,
    {
        let processes = Self::get_real_processes(entries);
        if processes.len() == 0 {
            let mock = Self::get_mock_processes();
            assert(process_views(mock@).len() == 3);
            mock
        } else {
            processes
        }
    }
}

} // verus!
