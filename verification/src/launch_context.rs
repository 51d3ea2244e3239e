//! How the program was started: from a console, or (likely) by double-clicking it.
use vstd::prelude::*;

use vstd::slice::slice_subrange;

verus! {

/// What the process knows about how it was started: how many processes share its
/// console (none without a console), and the name of its parent process.
#[derive(Clone, Debug, PartialEq, Eq)]
pub struct LaunchContext {
    console_process_count: Option<u32>,
    parent_process_name: Option<String>,
}

/// The model of a launch context.
pub struct LaunchView {
    pub console_process_count: Option<u32>,
    pub parent_process_name: Option<Seq<char>>,
}

impl View for LaunchContext {
    type V = LaunchView;

    closed spec fn view(&self) -> LaunchView {
        LaunchView {
            console_process_count: self.console_process_count,
            parent_process_name: match self.parent_process_name {
                Some(name) => Some(name@),
                None => None,
            },
        }
    }
}

/// The code of a character's ASCII lowercase; other characters keep their code.
pub open spec fn ascii_lowercase(c: char) -> int {
    if 'A' <= c <= 'Z' {
        (c as int) + 32
    } else {
        c as int
    }
}

/// Equality that ignores ASCII case.
pub open spec fn eq_ignore_ascii_case_spec(a: Seq<char>, b: Seq<char>) -> bool {
    a.len() == b.len() && forall|i: int| 0 <= i < a.len() ==> ascii_lowercase(#[trigger] a[i]) == ascii_lowercase(b[i])
}

/// A console shared with no other process, or File Explorer as the parent, suggests the
/// program was started by double-clicking it.
pub open spec fn likely_explorer_launch(context: LaunchView) -> bool {
    context.console_process_count == Some(1u32) || match context.parent_process_name {
        Some(name) => eq_ignore_ascii_case_spec(name, "explorer.exe"@),
        None => false,
    }
}

fn lowercase(c: char) -> (lower: u32)
    ensures
        lower == ascii_lowercase(c),
{
    if 'A' <= c && c <= 'Z' {
        c as u32 + 32
    } else {
        c as u32
    }
}

/// Whether `a` and `b` are equal when ASCII case is ignored.
pub fn eq_ignore_ascii_case(a: &str, b: &str) -> (same: bool)
    ensures
        same == eq_ignore_ascii_case_spec(a@, b@),
{
    let a_len = a.unicode_len();
    let b_len = b.unicode_len();
    if a_len != b_len {
        return false;
    }
    let mut i: usize = 0;
    while i < a_len
        invariant
            i <= a_len,
            a_len == a@.len(),
            b_len == b@.len(),
            a_len == b_len,
            forall|k: int| 0 <= k < i ==> ascii_lowercase(#[trigger] a@[k]) == ascii_lowercase(b@[k]),
        decreases a_len - i,
    {
        if lowercase(a.get_char(i)) != lowercase(b.get_char(i)) {
            return false;
        }
        i = i + 1;
    }
    true
}

impl LaunchContext {
    /// A context from what the process found out about its console and parent.
    pub fn new(console_process_count: Option<u32>, parent_process_name: Option<String>) -> (context: Self)
        ensures
            context@ == (LaunchView {
                console_process_count,
                parent_process_name: match parent_process_name {
                    Some(name) => Some(name@),
                    None => None,
                },
            }),
    {
        LaunchContext { console_process_count, parent_process_name }
    }

    pub fn has_console(&self) -> (has: bool)
        ensures
            has == (self@.console_process_count is Some),
    {
        self.console_process_count.is_some()
    }

    /// Whether the program was likely started from File Explorer or the desktop.
    pub fn is_likely_explorer_launch(&self) -> (likely: bool)
        ensures
            likely == likely_explorer_launch(self@),
    {
        match self.console_process_count {
            Some(count) => if count == 1 {
                return true;
            },
            None => {},
        }
        match &self.parent_process_name {
            Some(name) => eq_ignore_ascii_case(name.as_str(), "explorer.exe"),
            None => false,
        }
    }
}

/// A running process: its identifier, its parent's identifier and its executable name.
#[derive(Clone, Debug, PartialEq, Eq)]
pub struct ProcessEntry {
    pub id: u32,
    pub parent_id: u32,
    pub name: String,
}

/// The first entry with identifier `id`.
pub open spec fn process_index(processes: Seq<ProcessEntry>, id: u32) -> Option<int>
    decreases processes.len(),
{
    if processes.len() == 0 {
        None
    } else {
        let prefix = process_index(processes.drop_last(), id);
        if prefix is Some {
            prefix
        } else if processes.last().id == id {
            Some(processes.len() - 1)
        } else {
            None
        }
    }
}

/// The name of the parent of process `current_id`, if both appear in the list.
pub open spec fn parent_name_spec(processes: Seq<ProcessEntry>, current_id: u32) -> Option<Seq<char>> {
    match process_index(processes, current_id) {
        Some(i) => match process_index(processes, processes[i].parent_id) {
            Some(j) => Some(processes[j].name@),
            None => None,
        },
        None => None,
    }
}

proof fn lemma_process_index_prefix(processes: Seq<ProcessEntry>, k: int, id: u32)
    requires
        0 <= k <= processes.len(),
        process_index(processes.take(k), id) is Some,
    ensures
        process_index(processes, id) == process_index(processes.take(k), id),
    decreases processes.len(),
{
    if k == processes.len() {
        assert(processes.take(k) =~= processes);
    } else {
        assert(processes.drop_last().take(k) =~= processes.take(k));
        lemma_process_index_prefix(processes.drop_last(), k, id);
    }
}

fn find_process(processes: &Vec<ProcessEntry>, id: u32) -> (found: Option<usize>)
    ensures
        match found {
            Some(i) => process_index(processes@, id) == Some(i as int) && i < processes@.len(),
            None => process_index(processes@, id) is None,
        },
{
    let mut i: usize = 0;
    while i < processes.len()
        invariant
            i <= processes.len(),
            process_index(processes@.take(i as int), id) is None,
        decreases processes.len() - i,
    {
        assert(processes@.take(i + 1).drop_last() =~= processes@.take(i as int));
        if processes[i].id == id {
            proof {
                lemma_process_index_prefix(processes@, i + 1, id);
            }
            return Some(i);
        }
        i = i + 1;
    }
    assert(processes@.take(processes@.len() as int) =~= processes@);
    None
}

/// The executable name of the parent of process `current_id`.
pub fn parent_process_name(processes: &Vec<ProcessEntry>, current_id: u32) -> (name: Option<String>)
    ensures
        match name {
            Some(name) => parent_name_spec(processes@, current_id) == Some(name@),
            None => parent_name_spec(processes@, current_id) is None,
        },
{
    let current = find_process(processes, current_id)?;
    let parent = find_process(processes, processes[current].parent_id)?;
    Some(processes[parent].name.clone())
}

/// The number of processes on the console, as the console reports it: none when the
/// process has no console.
pub fn console_process_count(reported: u32) -> (count: Option<u32>)
    ensures
        count == (if reported == 0 {
            None
        } else {
            Some(reported)
        }),
{
    if reported == 0 {
        None
    } else {
        Some(reported)
    }
}


pub open spec fn is_high_surrogate(unit: u16) -> bool {
    0xD800 <= unit <= 0xDBFF
}

pub open spec fn is_low_surrogate(unit: u16) -> bool {
    0xDC00 <= unit <= 0xDFFF
}

/// Lossy UTF-16 decoding: a high surrogate followed by a low surrogate is one character;
/// any other surrogate stands alone and becomes U+FFFD; every other unit is the
/// character of that code point.
pub open spec fn utf16_lossy(units: Seq<u16>) -> Seq<char>
    decreases units.len(),
{
    if units.len() == 0 {
        Seq::empty()
    } else if units.len() >= 2 && is_high_surrogate(units[0]) && is_low_surrogate(units[1]) {
        let code = 0x10000 + (units[0] - 0xD800) * 0x400 + (units[1] - 0xDC00);
        seq![code as char] + utf16_lossy(units.subrange(2, units.len() as int))
    } else if is_high_surrogate(units[0]) || is_low_surrogate(units[0]) {
        seq!['\u{FFFD}'] + utf16_lossy(units.subrange(1, units.len() as int))
    } else {
        seq![units[0] as char] + utf16_lossy(units.subrange(1, units.len() as int))
    }
}

/// Calls `String::from_utf16_lossy`, whose documentation promises UTF-16 decoding with
/// each unpaired surrogate replaced by U+FFFD; the contract states that decoding as
/// `utf16_lossy`.
#[verifier::external_body]
fn decode_utf16_lossy(units: &[u16]) -> (text: String)
    ensures
        text@ == utf16_lossy(units@),
{
    String::from_utf16_lossy(units)
}

/// Where a NUL-terminated name ends: at the first NUL unit, or at the end.
pub open spec fn nul_position(raw: Seq<u16>) -> int
    decreases raw.len(),
{
    if raw.len() == 0 {
        0
    } else if nul_position(raw.drop_last()) < raw.len() - 1 {
        nul_position(raw.drop_last())
    } else if raw.last() == 0 {
        raw.len() - 1
    } else {
        raw.len() as int
    }
}

/// The process name in a NUL-terminated UTF-16 buffer.
pub fn process_name(raw_name: &[u16]) -> (name: String)
    ensures
        name@ == utf16_lossy(raw_name@.take(nul_position(raw_name@))),
{
    let mut end: usize = 0;
    while end < raw_name.len() && raw_name[end] != 0
        invariant
            end <= raw_name@.len(),
            nul_position(raw_name@.take(end as int)) == end,
        decreases raw_name@.len() - end,
    {
        assert(raw_name@.take(end + 1).drop_last() =~= raw_name@.take(end as int));
        end = end + 1;
    }
    proof {
        lemma_nul_position_stops(raw_name@, end as int);
    }
    decode_utf16_lossy(slice_subrange(raw_name, 0, end))
}

proof fn lemma_nul_position_stops(raw: Seq<u16>, end: int)
    requires
        0 <= end <= raw.len(),
        nul_position(raw.take(end)) == end,
        end == raw.len() || raw[end] == 0,
    ensures
        nul_position(raw) == end,
    decreases raw.len() - end,
{
    if end == raw.len() {
        assert(raw.take(end) =~= raw);
    } else {
        lemma_nul_position_extends(raw, raw.len() as int, end);
        assert(raw.take(raw.len() as int) =~= raw);
    }
}

proof fn lemma_nul_position_extends(raw: Seq<u16>, k: int, end: int)
    requires
        0 <= end < k <= raw.len(),
        nul_position(raw.take(end)) == end,
        raw[end] == 0,
    ensures
        nul_position(raw.take(k)) == end,
    decreases k,
{
    if k == end + 1 {
        assert(raw.take(k).drop_last() =~= raw.take(end));
    } else {
        lemma_nul_position_extends(raw, k - 1, end);
        assert(raw.take(k).drop_last() =~= raw.take(k - 1));
    }
}


/// The commands that run without a console: the background monitor and the elevated
/// installer.
pub open spec fn runs_without_console_spec(command: Seq<char>) -> bool {
    eq_ignore_ascii_case_spec(command, "monitor"@) || eq_ignore_ascii_case_spec(command, "install-elevated"@)
}

pub fn runs_without_console(command: &str) -> (quiet: bool)
    ensures
        quiet == runs_without_console_spec(command@),
{
    eq_ignore_ascii_case(command, "monitor") || eq_ignore_ascii_case(command, "install-elevated")
}

/// A process without a console attaches to its parent's console, unless its command runs
/// without one, or it has no arguments and was likely started by double-clicking.
pub open spec fn should_attach_console_spec(args: Seq<Seq<char>>, context: LaunchView) -> bool {
    if context.console_process_count is Some {
        false
    } else if args.len() > 0 && runs_without_console_spec(args[0]) {
        false
    } else {
        args.len() > 0 || !likely_explorer_launch(context)
    }
}

pub fn should_attach_console(args: &Vec<String>, launch_context: &LaunchContext) -> (attach: bool)
    ensures
        attach == should_attach_console_spec(args@.map_values(|arg: String| arg@), launch_context@),
{
    if launch_context.has_console() {
        return false;
    }
    if args.len() > 0 && runs_without_console(args[0].as_str()) {
        return false;
    }
    args.len() > 0 || !launch_context.is_likely_explorer_launch()
}

} // verus!
