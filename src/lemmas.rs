//! Facts about the scheduler that span several calls, proved from the
//! contracts of the manager's operations.
use vstd::prelude::*;

use crate::manager::{
    dist,
    elapsed,
    is_next_ready,
    none_ready,
    slot,
    start_times_kept,
    TaskManager,
    TaskSwitch,
};
use crate::task::{TaskControlBlock, TaskStatus};

verus! {

/// Exactly one task is Running, and it is the current one.
pub open spec fn exactly_one_running(m: TaskManager) -> bool {
    &&& 0 <= m.current() < m.tasks().len()
    &&& m.tasks()[m.current()].task_status == TaskStatus::Running
    &&& forall|i: int|
        0 <= i < m.tasks().len() && i != m.current() ==> (#[trigger] m.tasks()[i]).task_status
            != TaskStatus::Running
}

/// Once a fresh manager has been post-initialized, every task is Ready and no
/// task has a start time.
pub proof fn lemma_initialized_tasks_ready(
    m0: TaskManager,
    m1: TaskManager,
    restore_entry: usize,
    kstack_ptrs: Seq<usize>,
)
    requires
        m0.wf(),
        TaskManager::is_fresh(m0),
        TaskManager::post_initialized(m0, m1, restore_entry, kstack_ptrs),
    ensures
        forall|i: int|
            0 <= i < m1.num_app ==> {
                &&& (#[trigger] m1.tasks()[i]).task_status == TaskStatus::Ready
                &&& m1.tasks()[i].start_time is None
            },
{
    assert forall|i: int| 0 <= i < m1.num_app implies {
        &&& (#[trigger] m1.tasks()[i]).task_status == TaskStatus::Ready
        &&& m1.tasks()[i].start_time is None
    } by {
        assert(m0.tasks()[i].start_time is None);
    }
}

/// Round-robin choice is deterministic: at most one task is the first Ready
/// one after a given current task.
pub proof fn lemma_next_ready_unique(tasks: Seq<TaskControlBlock>, cur: int, a: int, b: int)
    requires
        0 <= cur < tasks.len(),
        is_next_ready(tasks, cur, a),
        is_next_ready(tasks, cur, b),
    ensures
        a == b,
{
    let n = tasks.len() as int;
    if dist(cur, a, n) < dist(cur, b, n) {
        assert(slot(cur, dist(cur, a, n), n) == a);
        assert(tasks[slot(cur, dist(cur, a, n), n)].task_status != TaskStatus::Ready);
    } else if dist(cur, b, n) < dist(cur, a, n) {
        assert(slot(cur, dist(cur, b, n), n) == b);
        assert(tasks[slot(cur, dist(cur, b, n), n)].task_status != TaskStatus::Ready);
    }
}

/// After a switch chosen by `run_next_task` exactly one task is Running,
/// and the task that gave up the processor keeps the status its caller set
/// (unless it was itself chosen again).
pub proof fn lemma_switch_leaves_one_running(m0: TaskManager, m1: TaskManager, now: usize, sw: TaskSwitch)
    requires
        m0.wf(),
        m0.tasks()[m0.current()].task_status != TaskStatus::Running,
        TaskManager::ran_next(m0.tasks(), m0.current(), m1, now, Some(sw)),
    ensures
        exactly_one_running(m1),
        sw.from != sw.to ==> m1.tasks()[sw.from as int].task_status == m0.tasks()[sw.from as int].task_status,
{
    assert forall|i: int| 0 <= i < m1.tasks().len() && i != m1.current() implies (
    #[trigger] m1.tasks()[i]).task_status != TaskStatus::Running by {
        assert(m1.tasks()[i] == m0.tasks()[i]);
    }
}

/// After `run_first_task` exactly one task, task 0, is Running.
pub proof fn lemma_first_dispatch_one_running(m0: TaskManager, m1: TaskManager, now: usize)
    requires
        m0.wf(),
        m0.current() == 0,
        m0.tasks()[0].task_status == TaskStatus::Ready,
        TaskManager::ran_first(m0, m1, now),
    ensures
        exactly_one_running(m1),
        m1.current() == 0,
{
    assert forall|i: int| 0 <= i < m1.tasks().len() && i != m1.current() implies (
    #[trigger] m1.tasks()[i]).task_status != TaskStatus::Running by {
        assert(m1.tasks()[i] == m0.tasks()[i]);
    }
}

/// A start time is recorded once: `run_next_task` keeps every recorded start
/// time, and the only one it sets is that of the dispatched task, to the
/// clock reading, when that task had none.
pub proof fn lemma_start_time_set_once(m0: TaskManager, m1: TaskManager, now: usize, r: Option<TaskSwitch>)
    requires
        m0.wf(),
        TaskManager::ran_next(m0.tasks(), m0.current(), m1, now, r),
    ensures
        start_times_kept(m0.tasks(), m1.tasks()),
        forall|i: int|
            0 <= i < m1.tasks().len() && (#[trigger] m1.tasks()[i]).start_time
                != m0.tasks()[i].start_time ==> {
                &&& r matches Some(sw) && i == sw.to
                &&& m0.tasks()[i].start_time is None
                &&& m1.tasks()[i].start_time == Some(now)
            },
        r matches Some(sw) ==> m1.tasks()[sw.to as int].start_time is Some,
{
}

/// The time elapsed since a start never decreases as the clock advances.
pub proof fn lemma_elapsed_monotonic(start: Option<usize>, now1: usize, now2: usize)
    requires
        start matches Some(s) ==> s <= now1,
        now1 <= now2,
    ensures
        elapsed(start, now1) is None <==> elapsed(start, now2) is None,
        elapsed(start, now1) matches Some(a) ==> elapsed(start, now2) matches Some(b) && a <= b,
{
}

/// When every task has exited, `run_next_task` finds nothing to run: it
/// returns `None`, which the caller treats as the end of all applications.
pub proof fn lemma_all_exited_halts(m0: TaskManager, m1: TaskManager, now: usize, r: Option<TaskSwitch>)
    requires
        m0.wf(),
        forall|i: int| 0 <= i < m0.num_app ==> (#[trigger] m0.tasks()[i]).task_status == TaskStatus::Exited,
        TaskManager::ran_next(m0.tasks(), m0.current(), m1, now, r),
    ensures
        r is None,
        m1.tasks() == m0.tasks(),
{
    if let Some(sw) = r {
        assert(m0.tasks()[sw.to as int].task_status == TaskStatus::Exited);
    }
}

} // verus!
