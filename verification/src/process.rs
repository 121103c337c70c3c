//! Processes and the numbering of their ids.

use vstd::prelude::*;

verus! {

/// The id of a process.
#[derive(Clone, Copy, PartialEq, Eq, Structural, Debug, Hash)]
pub struct ProcessId(pub u64);

impl ProcessId {
    /// Takes the next process id from the counter `next_pid` and advances it. The ids run out
    /// when the counter reaches `u64::MAX`.
    pub fn next(next_pid: &mut u64) -> (pid: ProcessId)
        requires
            *old(next_pid) < u64::MAX,
        ensures
            pid == ProcessId(*old(next_pid)),
            *final(next_pid) == *old(next_pid) + 1,
    {
        let pid = *next_pid;
        *next_pid = pid + 1;
        ProcessId(pid)
    }
}

/// The page tables of a process that is not running: the frame of its top level table.
#[derive(Clone, Copy, PartialEq, Eq, Structural, Debug)]
pub struct InactivePageMap {
    pub p4_frame: u64,
}

/// A process and its page tables.
#[derive(Clone, Copy, PartialEq, Eq, Structural, Debug)]
pub struct Process {
    pub page_tables: InactivePageMap,
}

impl Process {
    /// A process with the given (freshly made) page tables.
    pub fn new(page_tables: InactivePageMap) -> (process: Process)
        ensures
            process.page_tables == page_tables,
    {
        Process { page_tables }
    }
}

} // verus!
