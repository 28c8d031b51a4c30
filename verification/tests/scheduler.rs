//! Scheduler behaviour: round-robin order, the one-Running steady state, and
//! whole-system traces.

use os::manager::Schedule;
use os::manager::TaskManager;
use os::syscall::syscall;
use os::syscall::SyscallResult;
use os::syscall::SYSCALL_EXIT;
use os::syscall::SYSCALL_YIELD;
use os::sbi::Console;
use os::task::TaskStatus;

fn running_count(tm: &TaskManager) -> usize {
    let mut count = 0;
    for t in &tm.tasks {
        if t.task_status == TaskStatus::Running {
            count += 1;
        }
    }
    count
}

fn yield_to(tm: &mut TaskManager, con: &mut Console, now: usize) -> usize {
    let r = syscall(tm, con, SYSCALL_YIELD, [0, 0, 0], &Vec::new(), now);
    match r {
        SyscallResult::Yielded(Schedule::Switch { from: _, to }) => to,
        other => panic!("yield did not schedule: {:?}", other),
    }
}

#[test]
fn round_robin_visits_all_before_repeat() {
    let mut tm = TaskManager::new(3);
    let mut con = Console::new();
    tm.run_first_task(10);
    let first = yield_to(&mut tm, &mut con, 20);
    let second = yield_to(&mut tm, &mut con, 30);
    let third = yield_to(&mut tm, &mut con, 40);
    assert_eq!(first, 1);
    assert_eq!(second, 2);
    assert_eq!(third, 0);
    assert_ne!(first, second);
    assert_ne!(second, third);
    assert_ne!(first, third);
}

#[test]
fn exited_task_never_selected() {
    let mut tm = TaskManager::new(3);
    let mut con = Console::new();
    tm.run_first_task(0);
    // task 0 hands over to task 1, which exits at once
    assert_eq!(yield_to(&mut tm, &mut con, 1), 1);
    let r = syscall(&mut tm, &mut con, SYSCALL_EXIT, [0, 0, 0], &Vec::new(), 2);
    match r {
        SyscallResult::Exited(Schedule::Switch { from, to }) => {
            assert_eq!(from, 1);
            assert_eq!(to, 2);
        }
        other => panic!("exit did not schedule: {:?}", other),
    }
    // from now on the rotation only ever visits 2 and 0
    for now in 3..9 {
        let to = yield_to(&mut tm, &mut con, now);
        assert!(to == 0 || to == 2);
        assert_ne!(tm.tasks[1].task_status, TaskStatus::Running);
    }
}

#[test]
fn exactly_one_running_at_every_step() {
    let mut tm = TaskManager::new(4);
    let mut con = Console::new();
    assert_eq!(running_count(&tm), 0);
    tm.run_first_task(5);
    assert_eq!(running_count(&tm), 1);
    for now in 0..10 {
        yield_to(&mut tm, &mut con, now);
        assert_eq!(running_count(&tm), 1);
        assert_eq!(tm.tasks[tm.current_task].task_status, TaskStatus::Running);
    }
}

#[test]
fn two_task_trace_ends_in_graceful_shutdown() {
    // task A yields once then exits; task B exits as soon as it is scheduled
    let mut tm = TaskManager::new(2);
    let mut con = Console::new();
    let to = tm.run_first_task(100);
    assert_eq!(to, 0);
    assert_eq!(tm.tasks[0].task_status, TaskStatus::Running);

    // A yields: A steps back to Ready, B runs
    let r = syscall(&mut tm, &mut con, SYSCALL_YIELD, [0, 0, 0], &Vec::new(), 110);
    match r {
        SyscallResult::Yielded(Schedule::Switch { from, to }) => {
            assert_eq!(from, 0);
            assert_eq!(to, 1);
        }
        other => panic!("yield did not schedule: {:?}", other),
    }
    assert_eq!(tm.tasks[0].task_status, TaskStatus::Ready);
    assert_eq!(tm.tasks[1].task_status, TaskStatus::Running);

    // B exits at once: A is the only Ready task and is picked again
    let r = syscall(&mut tm, &mut con, SYSCALL_EXIT, [0, 0, 0], &Vec::new(), 120);
    match r {
        SyscallResult::Exited(Schedule::Switch { from, to }) => {
            assert_eq!(from, 1);
            assert_eq!(to, 0);
        }
        other => panic!("exit did not schedule: {:?}", other),
    }
    assert_eq!(tm.tasks[1].task_status, TaskStatus::Exited);
    assert_eq!(tm.tasks[0].task_status, TaskStatus::Running);

    // A exits: nothing is Ready, the kernel powers off successfully
    let r = syscall(&mut tm, &mut con, SYSCALL_EXIT, [0, 0, 0], &Vec::new(), 130);
    match r {
        SyscallResult::Exited(Schedule::Shutdown) => {}
        other => panic!("last exit did not shut down: {:?}", other),
    }
    assert_eq!(tm.tasks[0].task_status, TaskStatus::Exited);
    assert_eq!(running_count(&tm), 0);
}

#[test]
fn all_exited_find_next_is_none_from_any_start() {
    let n = 5;
    let mut tm = TaskManager::new(n);
    for i in 0..n {
        tm.current_task = i;
        tm.mark_current_exited();
    }
    for cur in 0..n {
        tm.current_task = cur;
        assert!(tm.find_next_task().is_none());
    }
}

#[test]
fn uninit_task_never_selected() {
    let mut tm = TaskManager::new(3);
    let mut con = Console::new();
    tm.tasks[2].task_status = TaskStatus::UnInit;
    tm.run_first_task(0);
    for now in 0..6 {
        let to = yield_to(&mut tm, &mut con, now);
        assert!(to == 0 || to == 1);
    }
    assert_eq!(tm.tasks[2].task_status, TaskStatus::UnInit);
}

#[test]
fn lone_ready_task_is_reselected() {
    let mut tm = TaskManager::new(1);
    let mut con = Console::new();
    tm.run_first_task(0);
    for now in 0..3 {
        assert_eq!(yield_to(&mut tm, &mut con, now), 0);
        assert_eq!(tm.tasks[0].task_status, TaskStatus::Running);
    }
}

#[test]
fn baseline_stamped_at_first_scheduling_only() {
    let mut tm = TaskManager::new(2);
    let mut con = Console::new();
    tm.run_first_task(40);
    assert_eq!(tm.tasks[0].time, 40);
    // task 1 is first scheduled at 55 and keeps that baseline afterwards
    assert_eq!(yield_to(&mut tm, &mut con, 55), 1);
    assert_eq!(tm.tasks[1].time, 55);
    assert_eq!(yield_to(&mut tm, &mut con, 70), 0);
    assert_eq!(tm.tasks[0].time, 40);
    assert_eq!(yield_to(&mut tm, &mut con, 85), 1);
    assert_eq!(tm.tasks[1].time, 55);
}
