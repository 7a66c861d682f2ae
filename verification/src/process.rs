use vstd::prelude::*;
use crate::labels::{lowercase, to_lowercase};

verus! {

/// A running process as the platform's process table reports it.
#[derive(Debug)]
pub struct ProcessEntry {
    pub name: String,
    pub pid: u32,
}

/// `part` occurs in `s` as a contiguous piece.
pub open spec fn occurs_in(part: Seq<char>, s: Seq<char>) -> bool {
    exists|i: int| 0 <= i <= s.len() - part.len() && #[trigger] s.subrange(i, i + part.len()) == part
}

/// Whether `part` occurs in `s`, as `str::contains` answers it.
pub fn contains_str(s: &str, part: &str) -> (r: bool)
    ensures
        r == occurs_in(part@, s@),
{
    let n = s.unicode_len();
    let m = part.unicode_len();
    if m > n {
        return false;
    }
    let mut i: usize = 0;
    while i <= n - m
        invariant
            n == s@.len(),
            m == part@.len(),
            m <= n,
            i <= n - m + 1,
            forall|k: int| 0 <= k < i ==> #[trigger] s@.subrange(k, k + m) != part@,
        decreases n - m + 1 - i,
    {
        let mut j: usize = 0;
        let mut same = true;
        while j < m
            invariant
                n == s@.len(),
                m == part@.len(),
                i + m <= n,
                j <= m,
                same == forall|q: int| 0 <= q < j ==> s@[i + q] == part@[q],
            decreases m - j,
        {
            if s.get_char(i + j) != part.get_char(j) {
                same = false;
            }
            j = j + 1;
        }
        if same {
            assert(s@.subrange(i as int, i + m) =~= part@);
            return true;
        }
        assert(s@.subrange(i as int, i + m) != part@) by {
            let q = choose|q: int| 0 <= q < m && s@[i + q] != part@[q];
            assert(s@.subrange(i as int, i + m)[q] == s@[i + q]);
        }
        i = i + 1;
    }
    false
}

/// Whether a process name matches the name looked for: the lowercase name
/// contains the lowercase query.
pub open spec fn name_matches(process_name: Seq<char>, query: Seq<char>) -> bool {
    occurs_in(lowercase(query), lowercase(process_name))
}

/// Whether a process's name matches the name looked for, ignoring case.
pub fn process_name_matches(process_name: &str, query: &str) -> (r: bool)
    ensures
        r == name_matches(process_name@, query@),
{
    let name_lower = to_lowercase(query);
    let proc_lower = to_lowercase(process_name);
    contains_str(proc_lower.as_str(), name_lower.as_str())
}

/// Whether some process of the table matches the name.
pub fn is_process_running(processes: &Vec<ProcessEntry>, name: &str) -> (r: bool)
    ensures
        r == exists|i: int| 0 <= i < processes@.len() && name_matches(#[trigger] processes@[i].name@, name@),
{
    match find_process_pid(processes, name) {
        Some(_) => true,
        None => false,
    }
}

/// The pid of the first process of the table whose name matches.
pub fn find_process_pid(processes: &Vec<ProcessEntry>, name: &str) -> (r: Option<u32>)
    ensures
        match r {
            Some(pid) => exists|i: int| 0 <= i < processes@.len() && name_matches(#[trigger] processes@[i].name@, name@)
                && processes@[i].pid == pid
                && forall|j: int| 0 <= j < i ==> !name_matches(#[trigger] processes@[j].name@, name@),
            None => forall|i: int| 0 <= i < processes@.len() ==> !name_matches(#[trigger] processes@[i].name@, name@),
        },
{
    let mut i: usize = 0;
    while i < processes.len()
        invariant
            i <= processes@.len(),
            forall|j: int| 0 <= j < i ==> !name_matches(#[trigger] processes@[j].name@, name@),
        decreases processes@.len() - i,
    {
        if process_name_matches(processes[i].name.as_str(), name) {
            return Some(processes[i].pid);
        }
        i = i + 1;
    }
    None
}

/// Whether some process of the table has the pid.
pub fn has_pid(processes: &Vec<ProcessEntry>, pid: u32) -> (r: bool)
    ensures
        r == exists|i: int| 0 <= i < processes@.len() && #[trigger] processes@[i].pid == pid,
{
    let mut i: usize = 0;
    while i < processes.len()
        invariant
            i <= processes@.len(),
            forall|j: int| 0 <= j < i ==> #[trigger] processes@[j].pid != pid,
        decreases processes@.len() - i,
    {
        if processes[i].pid == pid {
            return true;
        }
        i = i + 1;
    }
    false
}

/// Whether the game's window is focused, on Linux: under X11 when the
/// focused window belongs to the pid; without X11 (Wayland does not reveal
/// the focused window) when a process with the pid runs at all.
pub fn linux_window_focused(active_window_pid: Option<u32>, processes: &Vec<ProcessEntry>, pid: u32) -> (r: bool)
    ensures
        r == match active_window_pid {
            Some(active) => active == pid,
            None => exists|i: int| 0 <= i < processes@.len() && #[trigger] processes@[i].pid == pid,
        },
{
    match active_window_pid {
        Some(active) => active == pid,
        None => has_pid(processes, pid),
    }
}

} // verus!
