//! The scheduler: one explicitly constructed task manager that owns the task
//! table and decides every state transition and every switch.
use vstd::prelude::*;

use crate::context::TaskContext;
use crate::task::{TaskControlBlock, TaskStatus};
use crate::{MAX_APP_NUM, MAX_SYSCALL_NUM};

verus! {

/// Selector that stands for the task that is running now.
pub const GET_FOR_CURRENT_TASK: usize = usize::MAX;

/// The task `k` places after `cur` in round-robin order, for `1 <= k <= n`.
pub open spec fn slot(cur: int, k: int, n: int) -> int {
    if cur + k < n {
        cur + k
    } else {
        cur + k - n
    }
}

/// How many places after `cur` the task `id` comes in round-robin order, in
/// `1..=n`: the task `cur` itself comes last.
pub open spec fn dist(cur: int, id: int, n: int) -> int {
    if cur < id {
        id - cur
    } else {
        id + n - cur
    }
}

/// `id` is the first Ready task after `cur` in round-robin order.
pub open spec fn is_next_ready(tasks: Seq<TaskControlBlock>, cur: int, id: int) -> bool {
    &&& 0 <= id < tasks.len()
    &&& tasks[id].task_status == TaskStatus::Ready
    &&& forall|j: int|
        1 <= j < dist(cur, id, tasks.len() as int) ==> (#[trigger] tasks[slot(
            cur,
            j,
            tasks.len() as int,
        )]).task_status != TaskStatus::Ready
}

/// No task is Ready.
pub open spec fn none_ready(tasks: Seq<TaskControlBlock>) -> bool {
    forall|i: int| 0 <= i < tasks.len() ==> (#[trigger] tasks[i]).task_status != TaskStatus::Ready
}

/// Every start time that was recorded in `before` is still there in `after`.
pub open spec fn start_times_kept(before: Seq<TaskControlBlock>, after: Seq<TaskControlBlock>) -> bool {
    &&& before.len() == after.len()
    &&& forall|i: int|
        0 <= i < before.len() && (#[trigger] before[i]).start_time is Some ==> after[i].start_time
            == before[i].start_time
}

/// What the caller of a scheduling decision must do next: save the running
/// context into task `from`'s slot and resume task `to`'s context.
#[derive(Copy, Clone, PartialEq, Eq, Structural, Debug)]
pub struct TaskSwitch {
    /// the task that gives up the processor
    pub from: usize,
    /// the task that runs next
    pub to: usize,
}

/// The block of a task once dispatched at clock reading `now`: Running, and
/// with a start time, `now` unless one was recorded before.
pub open spec fn dispatched(t: TaskControlBlock, now: usize) -> TaskControlBlock {
    TaskControlBlock {
        task_status: TaskStatus::Running,
        start_time: if t.start_time is Some {
            t.start_time
        } else {
            Some(now)
        },
        ..t
    }
}

/// Elapsed time since a recorded start, or `None` when there is none.
pub open spec fn elapsed(start: Option<usize>, now: usize) -> Option<usize> {
    match start {
        Some(s) => Some((now - s) as usize),
        None => None,
    }
}

/// The mutable state of the scheduler.
pub struct TaskManagerInner {
    /// the task table, indexed by task id
    pub tasks: Vec<TaskControlBlock>,
    /// id of the task that is running, or about to run
    pub current_task: usize,
}

/// The task manager: all task state transitions and the choice of the task
/// that runs next.
pub struct TaskManager {
    /// total number of tasks
    pub num_app: usize,
    /// the table and the current task
    pub inner: TaskManagerInner,
}

impl TaskManager {
    /// The task table.
    pub open spec fn tasks(&self) -> Seq<TaskControlBlock> {
        self.inner.tasks@
    }

    /// The current task's id.
    pub open spec fn current(&self) -> int {
        self.inner.current_task as int
    }

    /// Well-formedness: the table holds one block per task, the current task
    /// is one of them, only the current task may be Running, and a Running
    /// task has a start time.
    pub open spec fn wf(&self) -> bool {
        &&& 1 <= self.num_app <= MAX_APP_NUM
        &&& self.tasks().len() == self.num_app
        &&& self.inner.current_task < self.num_app
        &&& forall|i: int|
            0 <= i < self.num_app && i != self.current() ==> (#[trigger] self.tasks()[i]).task_status
                != TaskStatus::Running
        &&& forall|i: int|
            0 <= i < self.num_app && (#[trigger] self.tasks()[i]).task_status == TaskStatus::Running
                ==> self.tasks()[i].start_time is Some
    }

    /// A manager for `num_app` tasks, all UnInit, with zero contexts, zero
    /// counters and no start time; task 0 is current.
    pub fn new(num_app: usize) -> (r: Self)
        requires
            1 <= num_app <= MAX_APP_NUM,
        ensures
            r.wf(),
            r.num_app == num_app,
            Self::is_fresh(r),
    {
        let blank = TaskControlBlock {
            task_cx: TaskContext::zero_init(),
            task_status: TaskStatus::UnInit,
            syscall_counter: [0u32; MAX_SYSCALL_NUM],
            start_time: None,
        };
        let mut tasks: Vec<TaskControlBlock> = Vec::new();
        let mut i: usize = 0;
        while i < num_app
            invariant
                i <= num_app,
                tasks@.len() == i,
                forall|j: int| 0 <= j < i ==> tasks@[j] == blank,
            decreases num_app - i,
        {
            tasks.push(blank);
            i += 1;
        }
        TaskManager { num_app, inner: TaskManagerInner { tasks, current_task: 0 } }
    }

    /// The first Ready task after the current one in round-robin order
    /// (wrapping around, the current task itself last), or `None` when no
    /// task is Ready.
    pub fn find_next_task(&self) -> (r: Option<usize>)
        requires
            self.wf(),
        ensures
            match r {
                Some(id) => is_next_ready(self.tasks(), self.current(), id as int),
                None => none_ready(self.tasks()),
            },
    {
        let n = self.num_app;
        let cur = self.inner.current_task;
        let mut k: usize = 1;
        while k <= n
            invariant
                self.wf(),
                n == self.num_app,
                cur == self.inner.current_task,
                1 <= k <= n + 1,
                forall|j: int|
                    1 <= j < k ==> (#[trigger] self.tasks()[slot(cur as int, j, n as int)]).task_status
                        != TaskStatus::Ready,
            decreases n + 1 - k,
        {
            let id: usize = if cur + k < n {
                cur + k
            } else {
                cur + k - n
            };
            assert(id as int == slot(cur as int, k as int, n as int));
            if self.inner.tasks[id].task_status == TaskStatus::Ready {
                assert(dist(cur as int, id as int, n as int) == k);
                return Some(id);
            }
            k += 1;
        }
        assert forall|i: int| 0 <= i < n implies (#[trigger] self.tasks()[i]).task_status
            != TaskStatus::Ready by {
            let j = dist(cur as int, i, n as int);
            assert(slot(cur as int, j, n as int) == i);
        }
        None
    }

    /// The task that a selector names: the current task for
    /// `GET_FOR_CURRENT_TASK`, else the task of that id.
    pub open spec fn selected(&self, task: usize) -> int {
        if task == GET_FOR_CURRENT_TASK {
            self.current()
        } else {
            task as int
        }
    }

    /// `after` is `before` with the current task's block replaced by `t`.
    pub open spec fn current_replaced(before: TaskManager, after: TaskManager, t: TaskControlBlock) -> bool {
        &&& after.num_app == before.num_app
        &&& after.current() == before.current()
        &&& after.tasks() == before.tasks().update(before.current(), t)
    }

    /// What a call of `run_next_task` at clock reading `now` that returned `r`
    /// did, on a table `tasks` whose current task was `cur`: with no Ready
    /// task it changed nothing and returned `None`; else it dispatched the
    /// first Ready task after `cur` and returned the switch from `cur` to it.
    pub open spec fn ran_next(
        tasks: Seq<TaskControlBlock>,
        cur: int,
        after: TaskManager,
        now: usize,
        r: Option<TaskSwitch>,
    ) -> bool {
        match r {
            None => {
                &&& none_ready(tasks)
                &&& after.tasks() == tasks
                &&& after.current() == cur
            },
            Some(sw) => {
                &&& sw.from as int == cur
                &&& is_next_ready(tasks, cur, sw.to as int)
                &&& after.current() == sw.to as int
                &&& after.tasks() == tasks.update(sw.to as int, dispatched(tasks[sw.to as int], now))
            },
        }
    }

    /// `m` is as `new` makes it: every task UnInit, with a zero context, zero
    /// counters and no start time; task 0 is current.
    pub open spec fn is_fresh(m: TaskManager) -> bool {
        &&& m.current() == 0
        &&& forall|i: int|
            0 <= i < m.num_app ==> {
                &&& (#[trigger] m.tasks()[i]).task_status == TaskStatus::UnInit
                &&& m.tasks()[i].task_cx.is_zero()
                &&& m.tasks()[i].start_time is None
                &&& forall|c: int| 0 <= c < MAX_SYSCALL_NUM ==> m.tasks()[i].syscall_counter@[c] == 0
            }
    }

    /// What `post_initialization(restore_entry, kstack_ptrs)` did: every
    /// task is Ready with its initial context; nothing else changed.
    pub open spec fn post_initialized(
        before: TaskManager,
        after: TaskManager,
        restore_entry: usize,
        kstack_ptrs: Seq<usize>,
    ) -> bool {
        &&& after.num_app == before.num_app
        &&& after.current() == before.current()
        &&& after.tasks().len() == before.tasks().len()
        &&& forall|i: int|
            0 <= i < after.num_app ==> {
                &&& (#[trigger] after.tasks()[i]).task_status == TaskStatus::Ready
                &&& after.tasks()[i].task_cx.resumes_at(restore_entry, kstack_ptrs[i])
                &&& after.tasks()[i].syscall_counter == before.tasks()[i].syscall_counter
                &&& after.tasks()[i].start_time == before.tasks()[i].start_time
            }
    }

    /// What a call of `run_first_task` at clock reading `now` did: task 0 is
    /// Running with start time `now`, and it is the current task.
    pub open spec fn ran_first(before: TaskManager, after: TaskManager, now: usize) -> bool {
        &&& after.num_app == before.num_app
        &&& after.current() == 0
        &&& after.tasks() == before.tasks().update(
            0,
            TaskControlBlock {
                task_status: TaskStatus::Running,
                start_time: Some(now),
                ..before.tasks()[0]
            },
        )
    }

    /// Give every task its initial context, entering the trap-return routine
    /// at `restore_entry` on the kernel stack `kstack_ptrs[i]`, and make it
    /// Ready. Counters, start times and the current task are left as they are.
    pub fn post_initialization(&mut self, restore_entry: usize, kstack_ptrs: &Vec<usize>)
        requires
            old(self).wf(),
            kstack_ptrs@.len() == old(self).num_app,
        ensures
            final(self).wf(),
            final(self).num_app == old(self).num_app,
            Self::post_initialized(*old(self), *final(self), restore_entry, kstack_ptrs@),
    {
        let n = self.num_app;
        let mut i: usize = 0;
        while i < n
            invariant
                n == self.num_app,
                n == old(self).num_app,
                1 <= n <= MAX_APP_NUM,
                kstack_ptrs@.len() == n,
                i <= n,
                self.tasks().len() == n,
                self.inner.current_task == old(self).inner.current_task,
                old(self).inner.current_task < n,
                forall|j: int|
                    0 <= j < i ==> {
                        &&& (#[trigger] self.tasks()[j]).task_status == TaskStatus::Ready
                        &&& self.tasks()[j].task_cx.resumes_at(restore_entry, kstack_ptrs@[j])
                        &&& self.tasks()[j].syscall_counter == old(self).tasks()[j].syscall_counter
                        &&& self.tasks()[j].start_time == old(self).tasks()[j].start_time
                    },
                forall|j: int| i <= j < n ==> #[trigger] self.tasks()[j] == old(self).tasks()[j],
            decreases n - i,
        {
            let mut t = self.inner.tasks[i];
            t.task_cx = TaskContext::goto_restore(restore_entry, kstack_ptrs[i]);
            t.task_status = TaskStatus::Ready;
            self.inner.tasks.set(i, t);
            i += 1;
        }
    }

    /// Dispatch task 0: mark it Running and record `now_ms` as its start time.
    /// The caller then switches from a scratch context into task 0's context.
    pub fn run_first_task(&mut self, now_ms: usize)
        requires
            old(self).wf(),
            old(self).current() == 0,
            old(self).tasks()[0].task_status == TaskStatus::Ready,
        ensures
            final(self).wf(),
            Self::ran_first(*old(self), *final(self), now_ms),
    {
        let mut t = self.inner.tasks[0];
        t.task_status = TaskStatus::Running;
        t.start_time = Some(now_ms);
        self.inner.tasks.set(0, t);
    }

    /// Increase the current task's count of syscall `syscall_id` by one.
    pub fn increase_syscall_counter(&mut self, syscall_id: usize)
        requires
            old(self).wf(),
            syscall_id < MAX_SYSCALL_NUM,
            old(self).tasks()[old(self).current()].syscall_counter@[syscall_id as int] < u32::MAX,
        ensures
            final(self).wf(),
            Self::current_replaced(
                *old(self),
                *final(self),
                TaskControlBlock {
                    syscall_counter: final(self).tasks()[old(self).current()].syscall_counter,
                    ..old(self).tasks()[old(self).current()]
                },
            ),
            final(self).tasks()[old(self).current()].syscall_counter@ == old(
                self,
            ).tasks()[old(self).current()].syscall_counter@.update(
                syscall_id as int,
                (old(self).tasks()[old(self).current()].syscall_counter@[syscall_id as int]
                    + 1) as u32,
            ),
    {
        let current = self.inner.current_task;
        let mut t = self.inner.tasks[current];
        t.syscall_counter[syscall_id] = t.syscall_counter[syscall_id] + 1;
        self.inner.tasks.set(current, t);
    }

    /// Mark the current task Ready; no scheduling decision is made.
    pub fn mark_current_suspended(&mut self)
        requires
            old(self).wf(),
        ensures
            final(self).wf(),
            Self::current_replaced(
                *old(self),
                *final(self),
                old(self).tasks()[old(self).current()].with_status(TaskStatus::Ready),
            ),
    {
        let current = self.inner.current_task;
        let mut t = self.inner.tasks[current];
        t.task_status = TaskStatus::Ready;
        self.inner.tasks.set(current, t);
    }

    /// Mark the current task Exited.
    pub fn mark_current_exited(&mut self)
        requires
            old(self).wf(),
        ensures
            final(self).wf(),
            Self::current_replaced(
                *old(self),
                *final(self),
                old(self).tasks()[old(self).current()].with_status(TaskStatus::Exited),
            ),
    {
        let current = self.inner.current_task;
        let mut t = self.inner.tasks[current];
        t.task_status = TaskStatus::Exited;
        self.inner.tasks.set(current, t);
    }

    /// Dispatch the first Ready task after the current one: it becomes
    /// Running and current, and gets `now_ms` as its start time unless it has
    /// one. Returns the switch that the caller must then perform, or `None`
    /// when no task is Ready: every task has completed, and the caller halts.
    /// The current task must already have been marked Ready or Exited.
    pub fn run_next_task(&mut self, now_ms: usize) -> (r: Option<TaskSwitch>)
        requires
            old(self).wf(),
            old(self).tasks()[old(self).current()].task_status != TaskStatus::Running,
        ensures
            final(self).wf(),
            final(self).num_app == old(self).num_app,
            Self::ran_next(old(self).tasks(), old(self).current(), *final(self), now_ms, r),
    {
        match self.find_next_task() {
            Some(next) => {
                let current = self.inner.current_task;
                let mut t = self.inner.tasks[next];
                t.task_status = TaskStatus::Running;
                if t.start_time.is_none() {
                    t.start_time = Some(now_ms);
                }
                self.inner.tasks.set(next, t);
                self.inner.current_task = next;
                Some(TaskSwitch { from: current, to: next })
            },
            None => None,
        }
    }

    /// A copy of the syscall counters of the selected task (the current one
    /// for `GET_FOR_CURRENT_TASK`); an error for any other id that names no
    /// task.
    pub fn get_syscall_counter(&self, task: usize) -> (r: Result<[u32; MAX_SYSCALL_NUM], &'static str>)
        requires
            self.wf(),
        ensures
            task == GET_FOR_CURRENT_TASK || task < self.num_app ==> r == Ok::<
                [u32; MAX_SYSCALL_NUM],
                &'static str,
            >(self.tasks()[self.selected(task)].syscall_counter),
            task != GET_FOR_CURRENT_TASK && task >= self.num_app ==> r == Err::<
                [u32; MAX_SYSCALL_NUM],
                &'static str,
            >("Invalid task id"),
    {
        if task == GET_FOR_CURRENT_TASK {
            let current = self.inner.current_task;
            Ok(self.inner.tasks[current].syscall_counter)
        } else if task < self.num_app {
            Ok(self.inner.tasks[task].syscall_counter)
        } else {
            Err("Invalid task id")
        }
    }

    /// Milliseconds since the selected task (the current one for
    /// `GET_FOR_CURRENT_TASK`) was first dispatched, at clock reading
    /// `now_ms`; `None` when it has never been dispatched. A start time later
    /// than `now_ms` would mean corrupted state, and is ruled out.
    pub fn get_start_time(&self, task: usize, now_ms: usize) -> (r: Option<usize>)
        requires
            self.wf(),
            task == GET_FOR_CURRENT_TASK || task < self.num_app,
            self.tasks()[self.selected(task)].start_time matches Some(s) ==> s <= now_ms,
        ensures
            r == elapsed(self.tasks()[self.selected(task)].start_time, now_ms),
    {
        let target: usize = if task == GET_FOR_CURRENT_TASK {
            self.inner.current_task
        } else {
            task
        };
        match self.inner.tasks[target].start_time {
            Some(s) => Some(now_ms - s),
            None => None,
        }
    }
}

} // verus!

verus! {

/// Give every task of `manager` its initial context and make it Ready.
pub fn post_initialization(manager: &mut TaskManager, restore_entry: usize, kstack_ptrs: &Vec<usize>)
    requires
        old(manager).wf(),
        kstack_ptrs@.len() == old(manager).num_app,
    ensures
        final(manager).wf(),
        TaskManager::post_initialized(*old(manager), *final(manager), restore_entry, kstack_ptrs@),
{
    manager.post_initialization(restore_entry, kstack_ptrs);
}

/// Dispatch task 0 at clock reading `now_ms`.
pub fn run_first_task(manager: &mut TaskManager, now_ms: usize)
    requires
        old(manager).wf(),
        old(manager).current() == 0,
        old(manager).tasks()[0].task_status == TaskStatus::Ready,
    ensures
        final(manager).wf(),
        TaskManager::ran_first(*old(manager), *final(manager), now_ms),
{
    manager.run_first_task(now_ms);
}

/// Suspend the current task and dispatch the next Ready one. This never
/// halts: the suspended task itself is Ready, and is chosen when no other is.
pub fn suspend_current_and_run_next(manager: &mut TaskManager, now_ms: usize) -> (r: Option<TaskSwitch>)
    requires
        old(manager).wf(),
    ensures
        final(manager).wf(),
        final(manager).num_app == old(manager).num_app,
        start_times_kept(old(manager).tasks(), final(manager).tasks()),
        r is Some,
        TaskManager::ran_next(
            old(manager).tasks().update(
                old(manager).current(),
                old(manager).tasks()[old(manager).current()].with_status(TaskStatus::Ready),
            ),
            old(manager).current(),
            *final(manager),
            now_ms,
            r,
        ),
{
    let ghost cur = manager.current();
    manager.mark_current_suspended();
    assert(manager.tasks()[cur].task_status == TaskStatus::Ready);
    manager.run_next_task(now_ms)
}

/// Exit the current task and dispatch the next Ready one; `None` when no task
/// is Ready, that is when every application has completed.
pub fn exit_current_and_run_next(manager: &mut TaskManager, now_ms: usize) -> (r: Option<TaskSwitch>)
    requires
        old(manager).wf(),
    ensures
        final(manager).wf(),
        final(manager).num_app == old(manager).num_app,
        start_times_kept(old(manager).tasks(), final(manager).tasks()),
        TaskManager::ran_next(
            old(manager).tasks().update(
                old(manager).current(),
                old(manager).tasks()[old(manager).current()].with_status(TaskStatus::Exited),
            ),
            old(manager).current(),
            *final(manager),
            now_ms,
            r,
        ),
{
    manager.mark_current_exited();
    manager.run_next_task(now_ms)
}

/// Increase the current task's count of syscall `syscall_id` by one.
pub fn increase_syscall_counter(manager: &mut TaskManager, syscall_id: usize)
    requires
        old(manager).wf(),
        syscall_id < MAX_SYSCALL_NUM,
        old(manager).tasks()[old(manager).current()].syscall_counter@[syscall_id as int] < u32::MAX,
    ensures
        final(manager).wf(),
        TaskManager::current_replaced(
            *old(manager),
            *final(manager),
            TaskControlBlock {
                syscall_counter: final(manager).tasks()[old(manager).current()].syscall_counter,
                ..old(manager).tasks()[old(manager).current()]
            },
        ),
        final(manager).tasks()[old(manager).current()].syscall_counter@ == old(
            manager,
        ).tasks()[old(manager).current()].syscall_counter@.update(
            syscall_id as int,
            (old(manager).tasks()[old(manager).current()].syscall_counter@[syscall_id as int]
                + 1) as u32,
        ),
{
    manager.increase_syscall_counter(syscall_id);
}

/// The syscall counters of the selected task (`GET_FOR_CURRENT_TASK` for the
/// current one), or an error for an id that names no task.
pub fn get_syscall_counter(manager: &TaskManager, task: usize) -> (r: Result<[u32; MAX_SYSCALL_NUM], &'static str>)
    requires
        manager.wf(),
    ensures
        task == GET_FOR_CURRENT_TASK || task < manager.num_app ==> r == Ok::<
            [u32; MAX_SYSCALL_NUM],
            &'static str,
        >(manager.tasks()[manager.selected(task)].syscall_counter),
        task != GET_FOR_CURRENT_TASK && task >= manager.num_app ==> r == Err::<
            [u32; MAX_SYSCALL_NUM],
            &'static str,
        >("Invalid task id"),
{
    manager.get_syscall_counter(task)
}

/// Milliseconds since the selected task (`GET_FOR_CURRENT_TASK` for the
/// current one) was first dispatched, or `None` if it never was.
pub fn get_start_time(manager: &TaskManager, task: usize, now_ms: usize) -> (r: Option<usize>)
    requires
        manager.wf(),
        task == GET_FOR_CURRENT_TASK || task < manager.num_app,
        manager.tasks()[manager.selected(task)].start_time matches Some(s) ==> s <= now_ms,
    ensures
        r == elapsed(manager.tasks()[manager.selected(task)].start_time, now_ms),
{
    manager.get_start_time(task, now_ms)
}

} // verus!
