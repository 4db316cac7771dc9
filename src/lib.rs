//! Task-scheduling core of a small single-core kernel: a fixed table of
//! statically loaded tasks, cooperative round-robin switching between them,
//! and per-task bookkeeping (syscall usage, first dispatch time).
use vstd::prelude::*;

pub mod context;
pub mod task;
pub mod manager;
pub mod lemmas;

verus! {

/// Largest number of tasks that the table can hold.
pub const MAX_APP_NUM: usize = 16;

/// Number of distinct syscall identifiers that are counted per task.
pub const MAX_SYSCALL_NUM: usize = 500;

} // verus!
