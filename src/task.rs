//! Types related to task management.
use vstd::prelude::*;

use crate::context::TaskContext;
use crate::MAX_SYSCALL_NUM;

verus! {

/// Bytes in a bitmask with one bit per syscall identifier.
pub const SYSCALL_BITMASK_LEN: usize = MAX_SYSCALL_NUM / 8 + 1;

/// A compact syscall counter: a bitmask of the syscalls seen, and one slot
/// that pairs a syscall identifier with its count.
#[derive(Copy, Clone)]
pub struct SyscallCtr {
    /// bit `i` is set when syscall `i` was called
    pub bitmask: [u8; SYSCALL_BITMASK_LEN],
    /// the syscall identifier that each counter slot stands for
    pub counter_idx: [u16; 1],
    /// the counts
    pub counter: [u32; 1],
}

/// The status of a task.
#[derive(Copy, Clone, PartialEq, Eq, Structural, Debug)]
pub enum TaskStatus {
    /// not yet given an initial context
    UnInit,
    /// ready to run
    Ready,
    /// running
    Running,
    /// exited; no transition leaves this state
    Exited,
}

/// The task control block of a task.
#[derive(Copy, Clone)]
pub struct TaskControlBlock {
    /// where the task is in its lifecycle
    pub task_status: TaskStatus,
    /// the saved context
    pub task_cx: TaskContext,
    /// number of calls of each syscall identifier
    pub syscall_counter: [u32; MAX_SYSCALL_NUM],
    /// clock reading (ms) at the first dispatch, absent until then
    pub start_time: Option<usize>,
}

impl TaskControlBlock {
    /// The same block with another status.
    pub open spec fn with_status(self, s: TaskStatus) -> TaskControlBlock {
        TaskControlBlock { task_status: s, ..self }
    }
}

} // verus!
