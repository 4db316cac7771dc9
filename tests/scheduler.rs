use task_sched::context::TaskContext;
use task_sched::manager::{
    exit_current_and_run_next, get_start_time, get_syscall_counter, increase_syscall_counter,
    post_initialization, run_first_task, suspend_current_and_run_next, TaskManager, TaskSwitch,
    GET_FOR_CURRENT_TASK,
};
use task_sched::task::TaskStatus;
use task_sched::{MAX_APP_NUM, MAX_SYSCALL_NUM};

const RESTORE: usize = 0x8020_0000;

fn booted(n: usize) -> TaskManager {
    let mut m = TaskManager::new(n);
    let stacks: Vec<usize> = (0..n).map(|i| 0x1000 * (i + 1)).collect();
    post_initialization(&mut m, RESTORE, &stacks);
    m
}

fn status(m: &TaskManager, i: usize) -> TaskStatus {
    m.inner.tasks[i].task_status
}

fn running_count(m: &TaskManager) -> usize {
    m.inner.tasks.iter().filter(|t| t.task_status == TaskStatus::Running).count()
}

#[test]
fn new_manager_is_uninit() {
    let m = TaskManager::new(4);
    assert_eq!(m.num_app, 4);
    assert_eq!(m.inner.current_task, 0);
    for t in m.inner.tasks.iter() {
        assert_eq!(t.task_status, TaskStatus::UnInit);
        assert_eq!(t.start_time, None);
        assert_eq!(t.task_cx.ra, 0);
        assert!(t.syscall_counter.iter().all(|c| *c == 0));
    }
}

#[test]
fn post_initialization_makes_every_task_ready() {
    for n in 1..=MAX_APP_NUM {
        let m = booted(n);
        assert_eq!(m.inner.tasks.len(), n);
        for i in 0..n {
            assert_eq!(status(&m, i), TaskStatus::Ready);
            assert_eq!(m.inner.tasks[i].start_time, None);
            assert_eq!(m.inner.tasks[i].task_cx.ra, RESTORE);
            assert_eq!(m.inner.tasks[i].task_cx.sp, 0x1000 * (i + 1));
        }
    }
}

#[test]
fn contexts_zero_and_restore() {
    let z = TaskContext::zero_init();
    assert_eq!((z.ra, z.sp), (0, 0));
    assert!(z.s.iter().all(|r| *r == 0));
    let g = TaskContext::goto_restore(RESTORE, 0x4000);
    assert_eq!((g.ra, g.sp), (RESTORE, 0x4000));
    assert!(g.s.iter().all(|r| *r == 0));
}

#[test]
fn find_next_task_round_robin() {
    let mut m = booted(3);
    run_first_task(&mut m, 0);
    // current = 0, Running; 1 and 2 Ready
    assert_eq!(m.find_next_task(), Some(1));
    m.inner.tasks[1].task_status = TaskStatus::Exited;
    assert_eq!(m.find_next_task(), Some(2));
    m.inner.tasks[2].task_status = TaskStatus::Exited;
    assert_eq!(m.find_next_task(), None);

    // from current = 2, the search wraps to 0 first
    let mut m = booted(3);
    m.inner.current_task = 2;
    m.inner.tasks[2].task_status = TaskStatus::Running;
    m.inner.tasks[2].start_time = Some(0);
    assert_eq!(m.find_next_task(), Some(0));
    m.inner.tasks[0].task_status = TaskStatus::Exited;
    assert_eq!(m.find_next_task(), Some(1));
    m.inner.tasks[1].task_status = TaskStatus::Exited;
    assert_eq!(m.find_next_task(), None);
}

#[test]
fn find_next_task_takes_current_last() {
    let mut m = booted(3);
    m.inner.current_task = 1;
    m.inner.tasks[0].task_status = TaskStatus::Exited;
    m.inner.tasks[2].task_status = TaskStatus::Exited;
    assert_eq!(m.find_next_task(), Some(1));
}

#[test]
fn exactly_one_running_after_each_switch() {
    let mut m = booted(4);
    run_first_task(&mut m, 1);
    assert_eq!(running_count(&m), 1);
    assert_eq!(status(&m, 0), TaskStatus::Running);

    let sw = suspend_current_and_run_next(&mut m, 2).unwrap();
    assert_eq!(sw, TaskSwitch { from: 0, to: 1 });
    assert_eq!(running_count(&m), 1);
    assert_eq!(status(&m, 0), TaskStatus::Ready);

    let sw = exit_current_and_run_next(&mut m, 3).unwrap();
    assert_eq!(sw, TaskSwitch { from: 1, to: 2 });
    assert_eq!(running_count(&m), 1);
    assert_eq!(status(&m, 1), TaskStatus::Exited);
    assert_eq!(status(&m, 2), TaskStatus::Running);
    assert_eq!(m.inner.current_task, 2);
}

#[test]
fn start_time_recorded_once() {
    let mut m = booted(2);
    run_first_task(&mut m, 10);
    assert_eq!(m.inner.tasks[0].start_time, Some(10));
    assert_eq!(m.inner.tasks[1].start_time, None);
    assert_eq!(get_start_time(&m, 1, 12), None);

    suspend_current_and_run_next(&mut m, 20).unwrap();
    assert_eq!(m.inner.tasks[1].start_time, Some(20));
    suspend_current_and_run_next(&mut m, 30).unwrap();
    assert_eq!(m.inner.tasks[0].start_time, Some(10));
    suspend_current_and_run_next(&mut m, 40).unwrap();
    assert_eq!(m.inner.tasks[1].start_time, Some(20));
    assert_eq!(m.inner.tasks[0].start_time, Some(10));

    let a = get_start_time(&m, 0, 50).unwrap();
    let b = get_start_time(&m, 0, 75).unwrap();
    assert_eq!(a, 40);
    assert_eq!(b, 65);
    assert!(a <= b);
    assert_eq!(get_start_time(&m, GET_FOR_CURRENT_TASK, 45), Some(25));
}

#[test]
fn syscall_counter_out_of_range_is_error() {
    let m = booted(3);
    assert!(get_syscall_counter(&m, 3).is_err());
    assert!(get_syscall_counter(&m, MAX_APP_NUM).is_err());
    assert!(get_syscall_counter(&m, 1000).is_err());
    assert!(get_syscall_counter(&m, usize::MAX - 1).is_err());
    assert_eq!(get_syscall_counter(&m, 3), Err("Invalid task id"));
    assert!(get_syscall_counter(&m, 2).is_ok());
}

#[test]
fn all_exited_halts() {
    let n = 3;
    let mut m = booted(n);
    run_first_task(&mut m, 0);
    assert_eq!(exit_current_and_run_next(&mut m, 1), Some(TaskSwitch { from: 0, to: 1 }));
    assert_eq!(exit_current_and_run_next(&mut m, 2), Some(TaskSwitch { from: 1, to: 2 }));
    assert_eq!(exit_current_and_run_next(&mut m, 3), None);
    for i in 0..n {
        assert_eq!(status(&m, i), TaskStatus::Exited);
    }
    assert_eq!(m.run_next_task(4), None);
}

#[test]
fn two_task_suspend_exit_scenario() {
    let (a, b) = (0usize, 1usize);
    let mut m = booted(2);
    run_first_task(&mut m, 100);

    let sw = suspend_current_and_run_next(&mut m, 150).unwrap();
    assert_eq!(sw, TaskSwitch { from: a, to: b });
    assert_eq!(m.inner.current_task, b);
    assert_eq!(status(&m, a), TaskStatus::Ready);
    assert_eq!(status(&m, b), TaskStatus::Running);
    assert_eq!(m.inner.tasks[b].start_time, Some(150));

    let sw = exit_current_and_run_next(&mut m, 200).unwrap();
    assert_eq!(sw, TaskSwitch { from: b, to: a });
    assert_eq!(status(&m, a), TaskStatus::Running);
    assert_eq!(status(&m, b), TaskStatus::Exited);
    assert_eq!(m.inner.tasks[a].start_time, Some(100));

    assert_eq!(exit_current_and_run_next(&mut m, 250), None);
}

#[test]
fn syscall_counter_scenario() {
    let mut m = booted(2);
    run_first_task(&mut m, 0);
    increase_syscall_counter(&mut m, 5);
    increase_syscall_counter(&mut m, 5);
    increase_syscall_counter(&mut m, 7);
    let counts = get_syscall_counter(&m, GET_FOR_CURRENT_TASK).unwrap();
    assert_eq!(counts.len(), MAX_SYSCALL_NUM);
    for (id, c) in counts.iter().enumerate() {
        let expected = match id {
            5 => 2,
            7 => 1,
            _ => 0,
        };
        assert_eq!(*c, expected);
    }
    assert_eq!(get_syscall_counter(&m, 0).unwrap(), counts);
    assert!(get_syscall_counter(&m, 1).unwrap().iter().all(|c| *c == 0));
}

#[test]
fn counters_follow_the_current_task() {
    let mut m = booted(2);
    run_first_task(&mut m, 0);
    increase_syscall_counter(&mut m, 64);
    suspend_current_and_run_next(&mut m, 1).unwrap();
    increase_syscall_counter(&mut m, 93);
    increase_syscall_counter(&mut m, MAX_SYSCALL_NUM - 1);
    let cur = get_syscall_counter(&m, GET_FOR_CURRENT_TASK).unwrap();
    assert_eq!((cur[64], cur[93], cur[MAX_SYSCALL_NUM - 1]), (0, 1, 1));
    let first = get_syscall_counter(&m, 0).unwrap();
    assert_eq!((first[64], first[93]), (1, 0));
}

#[test]
fn single_task_suspend_resumes_itself() {
    let mut m = booted(1);
    run_first_task(&mut m, 5);
    let sw = suspend_current_and_run_next(&mut m, 9).unwrap();
    assert_eq!(sw, TaskSwitch { from: 0, to: 0 });
    assert_eq!(status(&m, 0), TaskStatus::Running);
    assert_eq!(m.inner.tasks[0].start_time, Some(5));
    assert_eq!(exit_current_and_run_next(&mut m, 10), None);
}

#[test]
fn start_time_at_the_clock_reading_is_zero() {
    let mut m = booted(1);
    run_first_task(&mut m, 42);
    assert_eq!(get_start_time(&m, GET_FOR_CURRENT_TASK, 42), Some(0));
}
