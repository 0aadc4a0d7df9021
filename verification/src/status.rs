//! The runtime state of a service, read from the supervisor's status text.
use crate::text::{
    chars_of, contains_from, first_line, first_line_trimmed, occurs_at, parse_i32, parse_u32,
    parse_u64, signed_value, trimmed, unsigned_value,
};
use vstd::prelude::*;
use vstd::string::*;

verus! {

/// A status line of a running service: `run: <name>: (pid <uint>) <uint>s`.
pub const RUNNING_PATTERN: &'static str =
    r"^run:\s+(?P<name>[^:]+):\s+\(pid\s+(?P<pid>\d+)\)\s+(?P<uptime>\d+)s";

/// A status line of a stopped service: `down: <name>: <uint>s`, perhaps with a
/// comma after it.
pub const DOWN_PATTERN: &'static str = r"^down:\s+(?P<name>[^:]+):\s+(?P<since>\d+)s(,)?";

/// A status line of a failed service:
/// `fail: <name>: (pid <uint>) <uint>s, exit <int>`.
pub const FAIL_PATTERN: &'static str =
    r"^fail:\s+(?P<name>[^:]+):\s+\(pid\s+(?P<pid>\d+)\)\s+(?P<uptime>\d+)s,\s+exit\s+(?P<code>[-]?\d+)";

/// The words that mark a stopped service as one that should be up.
pub const NORMALLY_UP: &'static str = "normally up";

/// What the supervisor reports of one service.
#[derive(Debug, PartialEq, Eq)]
pub enum ServiceRuntimeState {
    /// Up, with its process id and the whole seconds it has been up.
    Running { pid: u32, uptime: u64 },
    /// Down for `since` whole seconds.
    Down { since: u64, normally_up: bool },
    /// Its process ended with `exit_code` after `uptime` whole seconds.
    Failed { pid: u32, uptime: u64, exit_code: i32 },
    /// A status line of no known form, kept as it was read.
    Unknown { raw: String },
}

/// The mathematical value of a [`ServiceRuntimeState`].
pub ghost enum RuntimeStateView {
    Running { pid: u32, uptime: u64 },
    Down { since: u64, normally_up: bool },
    Failed { pid: u32, uptime: u64, exit_code: i32 },
    Unknown { raw: Seq<char> },
}

impl View for ServiceRuntimeState {
    type V = RuntimeStateView;

    open spec fn view(&self) -> RuntimeStateView {
        match *self {
            ServiceRuntimeState::Running { pid, uptime } => RuntimeStateView::Running {
                pid,
                uptime,
            },
            ServiceRuntimeState::Down { since, normally_up } => RuntimeStateView::Down {
                since,
                normally_up,
            },
            ServiceRuntimeState::Failed { pid, uptime, exit_code } => RuntimeStateView::Failed {
                pid,
                uptime,
                exit_code,
            },
            ServiceRuntimeState::Unknown { raw } => RuntimeStateView::Unknown { raw: raw@ },
        }
    }
}

impl DeepView for ServiceRuntimeState {
    type V = RuntimeStateView;

    open spec fn deep_view(&self) -> RuntimeStateView {
        self@
    }
}

impl Clone for ServiceRuntimeState {
    fn clone(&self) -> (r: Self)
        ensures
            r@ == self@,
    {
        match self {
            ServiceRuntimeState::Running { pid, uptime } => ServiceRuntimeState::Running {
                pid: *pid,
                uptime: *uptime,
            },
            ServiceRuntimeState::Down { since, normally_up } => ServiceRuntimeState::Down {
                since: *since,
                normally_up: *normally_up,
            },
            ServiceRuntimeState::Failed { pid, uptime, exit_code } => ServiceRuntimeState::Failed {
                pid: *pid,
                uptime: *uptime,
                exit_code: *exit_code,
            },
            ServiceRuntimeState::Unknown { raw } => ServiceRuntimeState::Unknown {
                raw: raw.clone(),
            },
        }
    }
}

/// The capture groups that the regular expression `pattern` finds in `text`
/// at its leftmost match: `None` where the pattern does not compile or does
/// not match; else one entry for each group of the pattern, the whole match
/// first, each the text that the group matched, or `None` for a group that
/// took no part in the match.
pub uninterp spec fn regex_captures(pattern: Seq<char>, text: Seq<char>) -> Option<
    Seq<Option<Seq<char>>>,
>;

/// Compiles `pattern` with `regex::Regex::new` and searches `text` with
/// `Regex::captures`. The contract gives the outcome its name and claims no
/// more: that the same pattern and text always yield the same groups.
#[verifier::external_body]
pub(crate) fn captures(pattern: &str, text: &str) -> (groups: Option<Vec<Option<String>>>)
    ensures
        groups.deep_view() == regex_captures(pattern@, text@),
{
    let regex = regex::Regex::new(pattern).ok()?;
    let found = regex.captures(text)?;
    Some(found.iter().map(|m| m.map(|m| m.as_str().to_string())).collect())
}

/// The text of group `i`, if there is such a group and it took part.
pub open spec fn group_text(groups: Seq<Option<Seq<char>>>, i: int) -> Option<Seq<char>> {
    if 0 <= i < groups.len() {
        groups[i]
    } else {
        None
    }
}

/// The number that group `i` writes, if it is there and fits under `max`.
pub open spec fn group_number(groups: Seq<Option<Seq<char>>>, i: int, max: nat) -> Option<nat> {
    match group_text(groups, i) {
        Some(text) => unsigned_value(text, max),
        None => None,
    }
}

/// How many characters group `i` matched; 0 if it took no part.
pub open spec fn group_len(groups: Seq<Option<Seq<char>>>, i: int) -> nat {
    match group_text(groups, i) {
        Some(text) => text.len(),
        None => 0,
    }
}

/// `needle` stands in `hay` at some index at or after `from`.
pub open spec fn contains_after(hay: Seq<char>, needle: Seq<char>, from: int) -> bool {
    exists|i: int| from <= i && occurs_at(hay, needle, i)
}

/// What the groups of [`RUNNING_PATTERN`] say: a running service if both
/// numbers can be read.
pub open spec fn running_state(groups: Seq<Option<Seq<char>>>) -> Option<RuntimeStateView> {
    match (group_number(groups, 2, u32::MAX as nat), group_number(groups, 3, u64::MAX as nat)) {
        (Some(pid), Some(uptime)) => Some(
            RuntimeStateView::Running { pid: pid as u32, uptime: uptime as u64 },
        ),
        _ => None,
    }
}

/// Where the seconds field of a line that [`DOWN_PATTERN`] matched ends: at
/// the end of the whole match, which starts the line, less the comma if the
/// match took one.
pub open spec fn seconds_end(groups: Seq<Option<Seq<char>>>) -> int {
    group_len(groups, 0) - group_len(groups, 3)
}

/// What the groups of [`DOWN_PATTERN`] say of `line`: a stopped service if the
/// seconds can be read, normally up if the line says so after them.
pub open spec fn down_state(line: Seq<char>, groups: Seq<Option<Seq<char>>>) -> Option<
    RuntimeStateView,
> {
    match group_number(groups, 2, u64::MAX as nat) {
        Some(since) => Some(
            RuntimeStateView::Down {
                since: since as u64,
                normally_up: contains_after(line, NORMALLY_UP@, seconds_end(groups)),
            },
        ),
        None => None,
    }
}

/// The exit code that group `i` writes; 0 where it cannot be read.
pub open spec fn group_exit_code(groups: Seq<Option<Seq<char>>>, i: int) -> i32 {
    match group_text(groups, i) {
        Some(text) => match signed_value(text, i32::MIN as int, i32::MAX as int) {
            Some(code) => code as i32,
            None => 0,
        },
        None => 0,
    }
}

/// What the groups of [`FAIL_PATTERN`] say: a failed service if the process id
/// and the seconds can be read.
pub open spec fn failed_state(groups: Seq<Option<Seq<char>>>) -> Option<RuntimeStateView> {
    match (group_number(groups, 2, u32::MAX as nat), group_number(groups, 3, u64::MAX as nat)) {
        (Some(pid), Some(uptime)) => Some(
            RuntimeStateView::Failed {
                pid: pid as u32,
                uptime: uptime as u64,
                exit_code: group_exit_code(groups, 4),
            },
        ),
        _ => None,
    }
}

/// The state that one trimmed status line stands for, given what each of the
/// three patterns found in it. The first pattern that matches and whose
/// numbers can be read decides; a line that none decides is unknown.
pub open spec fn line_state(
    line: Seq<char>,
    running: Option<Seq<Option<Seq<char>>>>,
    down: Option<Seq<Option<Seq<char>>>>,
    failed: Option<Seq<Option<Seq<char>>>>,
) -> RuntimeStateView {
    if running is Some && running_state(running.unwrap()) is Some {
        running_state(running.unwrap()).unwrap()
    } else if down is Some && down_state(line, down.unwrap()) is Some {
        down_state(line, down.unwrap()).unwrap()
    } else if failed is Some && failed_state(failed.unwrap()) is Some {
        failed_state(failed.unwrap()).unwrap()
    } else {
        RuntimeStateView::Unknown { raw: line }
    }
}

/// The state that a status text stands for: that of its first line, trimmed.
pub open spec fn status_of(output: Seq<char>) -> RuntimeStateView {
    let line = trimmed(first_line(output));
    line_state(
        line,
        regex_captures(RUNNING_PATTERN@, line),
        regex_captures(DOWN_PATTERN@, line),
        regex_captures(FAIL_PATTERN@, line),
    )
}

/// The text of group `i`, if there is such a group and it took part.
pub fn group(groups: &Vec<Option<String>>, i: usize) -> (r: Option<&String>)
    ensures
        r.deep_view() == group_text(groups.deep_view(), i as int),
{
    if i < groups.len() {
        let r = groups[i].as_ref();
        assert(groups.deep_view()[i as int] == groups@[i as int].deep_view());
        r
    } else {
        None
    }
}

fn group_length(groups: &Vec<Option<String>>, i: usize) -> (n: usize)
    ensures
        n == group_len(groups.deep_view(), i as int),
{
    match group(groups, i) {
        Some(text) => text.as_str().unicode_len(),
        None => 0,
    }
}

fn group_u32(groups: &Vec<Option<String>>, i: usize) -> (r: Option<u32>)
    ensures
        r == match group_number(groups.deep_view(), i as int, u32::MAX as nat) {
            Some(n) => Some(n as u32),
            None => None,
        },
{
    match group(groups, i) {
        Some(text) => parse_u32(text.as_str()),
        None => None,
    }
}

fn group_u64(groups: &Vec<Option<String>>, i: usize) -> (r: Option<u64>)
    ensures
        r == match group_number(groups.deep_view(), i as int, u64::MAX as nat) {
            Some(n) => Some(n as u64),
            None => None,
        },
{
    match group(groups, i) {
        Some(text) => parse_u64(text.as_str()),
        None => None,
    }
}

impl ServiceRuntimeState {
    /// Reads the groups that [`RUNNING_PATTERN`] found.
    pub fn running_from(groups: &Vec<Option<String>>) -> (r: Option<Self>)
        ensures
            r.deep_view() == running_state(groups.deep_view()),
    {
        match (group_u32(groups, 2), group_u64(groups, 3)) {
            (Some(pid), Some(uptime)) => Some(ServiceRuntimeState::Running { pid, uptime }),
            _ => None,
        }
    }

    /// Reads the groups that [`DOWN_PATTERN`] found in `line`.
    pub fn down_from(line: &str, groups: &Vec<Option<String>>) -> (r: Option<Self>)
        ensures
            r.deep_view() == down_state(line@, groups.deep_view()),
    {
        match group_u64(groups, 2) {
            Some(since) => {
                let whole = group_length(groups, 0);
                let comma = group_length(groups, 3);
                let hay = chars_of(line);
                let needle = chars_of(NORMALLY_UP);
                let normally_up = if comma <= whole {
                    contains_from(&hay, &needle, whole - comma)
                } else {
                    contains_from(&hay, &needle, 0)
                };
                proof {
                    if comma > whole {
                        assert forall|i: int| occurs_at(hay@, needle@, i) implies 0 <= i by {}
                    }
                }
                Some(ServiceRuntimeState::Down { since, normally_up })
            },
            None => None,
        }
    }

    /// Reads the groups that [`FAIL_PATTERN`] found.
    pub fn failed_from(groups: &Vec<Option<String>>) -> (r: Option<Self>)
        ensures
            r.deep_view() == failed_state(groups.deep_view()),
    {
        match (group_u32(groups, 2), group_u64(groups, 3)) {
            (Some(pid), Some(uptime)) => {
                let exit_code = match group(groups, 4) {
                    Some(text) => match parse_i32(text.as_str()) {
                        Some(code) => code,
                        None => 0,
                    },
                    None => 0,
                };
                Some(ServiceRuntimeState::Failed { pid, uptime, exit_code })
            },
            _ => None,
        }
    }

    /// Reads the supervisor's status text. Only the first line counts, without
    /// the white space around it. Every text has a state: one that fits none
    /// of the three forms is `Unknown` and keeps the line.
    pub fn from_sv_status(status_output: &str) -> (state: Self)
        ensures
            state@ == status_of(status_output@),
    {
        let line = first_line_trimmed(status_output);
        let running = captures(RUNNING_PATTERN, line);
        if let Some(groups) = &running {
            if let Some(state) = Self::running_from(groups) {
                return state;
            }
        }
        let down = captures(DOWN_PATTERN, line);
        if let Some(groups) = &down {
            if let Some(state) = Self::down_from(line, groups) {
                return state;
            }
        }
        let failed = captures(FAIL_PATTERN, line);
        if let Some(groups) = &failed {
            if let Some(state) = Self::failed_from(groups) {
                return state;
            }
        }
        ServiceRuntimeState::Unknown { raw: String::from_str(line) }
    }
}

} // verus!
