//! User processes: what a process starts with, and the table of running processes.

use vstd::prelude::*;
use std::collections::HashMap;
use crate::page_map::{Mapper, find_table, new_process_page_tables, recursive_table, table_at};
use crate::process::{InactivePageMap, ProcessId};

verus! {

broadcast use vstd::std_specs::hash::group_hash_axioms;

/// The top of a process's stack: the top of the lower half, page aligned (an address, which
/// on the 64-bit machine this kernel runs on is a `u64`).
pub const STACK_TOP: u64 = 0x7fff_ffff_f000;

/// How many pages a process's stack has when it starts.
pub const INITIAL_STACK_SIZE_PAGES: usize = 16;

/// A user process: its page tables, where its stack and its code are, and whether it has
/// run yet.
#[derive(Clone, Copy, PartialEq, Eq, Structural, Debug)]
pub struct Process {
    pub page_tables: InactivePageMap,
    pub stack_ptr: u64,
    pub instruction_ptr: usize,
    pub new: bool,
}

/// The process that `spawn` makes: not yet run, its stack at the top of the lower half.
pub open spec fn spawned(page_tables: InactivePageMap, instruction_ptr: usize) -> Process {
    Process { page_tables, stack_ptr: STACK_TOP, instruction_ptr, new: true }
}

impl Process {
    /// Makes a process that starts at `instruction_ptr`: gives it fresh page tables at `frame`
    /// (see `new_process_page_tables`), takes the next id from `next_pid`, and enters it in
    /// `processes` under that id.
    pub fn spawn(
        instruction_ptr: usize,
        active_table: &mut Mapper,
        frame: u64,
        next_pid: &mut u64,
        processes: &mut HashMap<u64, Process>,
    ) -> (pid: ProcessId)
        requires
            old(active_table).wf(),
            frame <= usize::MAX,
            (frame as usize) % 4096 == 0,
            find_table(old(active_table)@, frame, 0) is None,
            *old(next_pid) < u64::MAX,
        ensures
            pid == ProcessId(*old(next_pid)),
            *final(next_pid) == *old(next_pid) + 1,
            final(processes)@ == old(processes)@.insert(
                pid.0,
                spawned(InactivePageMap { p4_frame: frame }, instruction_ptr),
            ),
            final(active_table).wf(),
            final(active_table).p4_frame == old(active_table).p4_frame,
            final(active_table)@ == old(active_table)@.push(
                (
                    frame,
                    recursive_table(frame).update(
                        511,
                        table_at(old(active_table)@, old(active_table).p4_frame)->0[511],
                    ),
                ),
            ),
    {
        let page_tables = new_process_page_tables(active_table, frame);
        let process = Process { page_tables, stack_ptr: STACK_TOP, instruction_ptr, new: true };
        let pid = ProcessId::next(next_pid);
        processes.insert(pid.0, process);
        pid
    }
}

} // verus!
