//! Saved register state of a suspended task.
use vstd::prelude::*;

verus! {

/// Number of callee-saved registers kept in a context.
pub const SAVED_REGS: usize = 12;

/// The minimum register state needed to resume a suspended task: the return
/// address, the stack pointer and the callee-saved registers.
#[derive(Copy, Clone)]
pub struct TaskContext {
    /// return address: where execution resumes
    pub ra: usize,
    /// kernel stack pointer
    pub sp: usize,
    /// callee-saved registers
    pub s: [usize; SAVED_REGS],
}

impl TaskContext {
    /// All callee-saved registers are zero.
    pub open spec fn regs_cleared(&self) -> bool {
        forall|i: int| 0 <= i < SAVED_REGS ==> self.s@[i] == 0
    }

    /// A context with no resume point, only ever used as a place to save into.
    pub open spec fn is_zero(&self) -> bool {
        &&& self.ra == 0
        &&& self.sp == 0
        &&& self.regs_cleared()
    }

    /// A context that, once switched to, enters the trap-return routine at
    /// `restore_entry` with `kstack_ptr` as its stack.
    pub open spec fn resumes_at(&self, restore_entry: usize, kstack_ptr: usize) -> bool {
        &&& self.ra == restore_entry
        &&& self.sp == kstack_ptr
        &&& self.regs_cleared()
    }

    /// The zero context.
    pub fn zero_init() -> (r: Self)
        ensures
            r.is_zero(),
    {
        TaskContext { ra: 0, sp: 0, s: [0usize; SAVED_REGS] }
    }

    /// A context that returns from a trap into user mode on the given kernel
    /// stack, `restore_entry` being the address of the trap-return routine.
    pub fn goto_restore(restore_entry: usize, kstack_ptr: usize) -> (r: Self)
        ensures
            r.resumes_at(restore_entry, kstack_ptr),
    {
        TaskContext { ra: restore_entry, sp: kstack_ptr, s: [0usize; SAVED_REGS] }
    }
}

} // verus!
