//! Syscall dispatch: accounting, write, time, task-info, and the fatal path;
//! plus the console and power-control leaves.

use os::config::MAX_SYSCALL_NUM;
use os::console::print;
use os::fs::sys_write;
use os::manager::TaskManager;
use os::process::sys_get_time;
use os::process::sys_task_info;
use os::process::TaskInfo;
use os::process::TimeVal;
use os::qemu::exit_code_encode;
use os::qemu::QEMUExit;
use os::qemu::RISCV64;
use os::sbi::console_putchar;
use os::sbi::shutdown;
use os::sbi::Console;
use os::syscall::syscall;
use os::syscall::SyscallResult;
use os::syscall::SYSCALL_GET_TIME;
use os::syscall::SYSCALL_TASK_INFO;
use os::syscall::SYSCALL_WRITE;
use os::task::TaskStatus;

#[test]
fn counters_count_exactly_and_never_leak() {
    let mut tm = TaskManager::new(2);
    let mut con = Console::new();
    tm.run_first_task(0);
    let k = 7;
    for now in 0..k {
        let r = syscall(
            &mut tm,
            &mut con,
            SYSCALL_GET_TIME,
            [0, 0, 0],
            &Vec::new(),
            now,
        );
        assert!(matches!(r, SyscallResult::Time(_)));
    }
    assert_eq!(tm.tasks[0].syscall_times[SYSCALL_GET_TIME], k as u32);
    for id in 0..MAX_SYSCALL_NUM {
        if id != SYSCALL_GET_TIME {
            assert_eq!(tm.tasks[0].syscall_times[id], 0);
        }
        assert_eq!(tm.tasks[1].syscall_times[id], 0);
    }
}

#[test]
fn unrecognized_id_halts_and_mutates_nothing() {
    let mut tm = TaskManager::new(2);
    let mut con = Console::new();
    tm.run_first_task(0);
    let r = syscall(&mut tm, &mut con, 999, [1, 2, 3], &Vec::new(), 10);
    match r {
        SyscallResult::Fatal(word) => assert_eq!(word, (1 << 16) | 0x3333),
        other => panic!("unrecognized id did not halt: {:?}", other),
    }
    assert_eq!(tm.tasks[0].task_status, TaskStatus::Running);
    assert_eq!(tm.tasks[1].task_status, TaskStatus::Ready);
    assert_eq!(tm.current_task, 0);
    for id in 0..MAX_SYSCALL_NUM {
        assert_eq!(tm.tasks[0].syscall_times[id], 0);
        assert_eq!(tm.tasks[1].syscall_times[id], 0);
    }
    assert!(con.output.is_empty());
}

#[test]
fn write_to_bad_descriptor_fails_but_is_counted() {
    let mut tm = TaskManager::new(1);
    let mut con = Console::new();
    tm.run_first_task(0);
    let buf = vec![b'x', b'y'];
    let r = syscall(&mut tm, &mut con, SYSCALL_WRITE, [2, 0, 2], &buf, 10);
    match r {
        SyscallResult::Value(v) => assert_eq!(v, -1),
        other => panic!("write returned no value: {:?}", other),
    }
    assert_eq!(tm.tasks[0].task_status, TaskStatus::Running);
    assert_eq!(tm.tasks[0].syscall_times[SYSCALL_WRITE], 1);
    assert!(con.output.is_empty());
}

#[test]
fn write_to_console_emits_every_byte() {
    let mut tm = TaskManager::new(1);
    let mut con = Console::new();
    tm.run_first_task(0);
    let buf = vec![b'h', b'i', b'!'];
    let r = syscall(&mut tm, &mut con, SYSCALL_WRITE, [1, 0, 3], &buf, 10);
    match r {
        SyscallResult::Value(v) => assert_eq!(v, 3),
        other => panic!("write returned no value: {:?}", other),
    }
    assert_eq!(con.output, vec![b'h' as usize, b'i' as usize, b'!' as usize]);
    assert_eq!(tm.tasks[0].syscall_times[SYSCALL_WRITE], 1);
}

#[test]
fn sys_write_splits_on_descriptor() {
    let mut con = Console::new();
    let buf = vec![7u8, 8u8];
    assert_eq!(sys_write(&mut con, 1, &buf, 2), 2);
    assert_eq!(con.output, vec![7usize, 8usize]);
    assert_eq!(sys_write(&mut con, 0, &buf, 2), -1);
    assert_eq!(con.output, vec![7usize, 8usize]);
}

#[test]
fn get_time_splits_the_clock_reading() {
    let mut tv = TimeVal { sec: 0, usec: 0 };
    let r = sys_get_time(&mut tv, 0, 1_234_567);
    assert_eq!(r, 0);
    assert_eq!(tv.sec, 1);
    assert_eq!(tv.usec, 234_567);
}

#[test]
fn task_info_reports_formula_and_counts() {
    let mut tm = TaskManager::new(1);
    let mut con = Console::new();
    tm.run_first_task(0);
    // a few counted calls first
    for now in 1..4 {
        syscall(&mut tm, &mut con, SYSCALL_GET_TIME, [0, 0, 0], &Vec::new(), now);
    }
    // elapsed 70_000.5 s: the seconds component wraps past 16 bits
    let now = 70_000_500_000;
    let r = syscall(&mut tm, &mut con, SYSCALL_TASK_INFO, [0, 0, 0], &Vec::new(), now);
    let info = match r {
        SyscallResult::Info(info) => info,
        other => panic!("task info returned nothing: {:?}", other),
    };
    assert_eq!(info.status, TaskStatus::Running);
    assert_eq!(info.syscall_times[SYSCALL_GET_TIME], 3);
    // the report includes this very call
    assert_eq!(info.syscall_times[SYSCALL_TASK_INFO], 1);
    let sec = now / 1_000_000;
    let usec = now % 1_000_000;
    assert_eq!(info.time, (sec & 0xffff) * 1000 + usec / 1000);
    assert_eq!(info.time, 4_464_500);
}

#[test]
fn task_info_time_is_monotone_for_repeated_calls() {
    let mut tm = TaskManager::new(1);
    let mut con = Console::new();
    tm.run_first_task(5_000);
    let mut last = 0;
    for step in 0..6 {
        let now = 5_000 + step * 777_777;
        let r = syscall(&mut tm, &mut con, SYSCALL_TASK_INFO, [0, 0, 0], &Vec::new(), now);
        let info = match r {
            SyscallResult::Info(info) => info,
            other => panic!("task info returned nothing: {:?}", other),
        };
        assert!(info.time >= last);
        last = info.time;
    }
}

#[test]
fn task_info_default_is_blank() {
    let info = TaskInfo::default();
    assert_eq!(info.status, TaskStatus::Ready);
    assert_eq!(info.syscall_times.len(), MAX_SYSCALL_NUM);
    assert!(info.syscall_times.iter().all(|&c| c == 0));
    assert_eq!(info.time, 0);
}

#[test]
fn console_records_code_units_in_order() {
    let mut con = Console::new();
    console_putchar(&mut con, 104);
    console_putchar(&mut con, 105);
    assert_eq!(con.output, vec![104, 105]);
    print(&mut con, " Aé");
    assert_eq!(con.output, vec![104, 105, 32, 65, 233]);
}

#[test]
fn qemu_exit_words() {
    assert_eq!(exit_code_encode(1), 0x13333);
    assert_eq!(exit_code_encode(5), (5 << 16) | 0x3333);
    let handle = RISCV64::new(0x100000);
    assert_eq!(handle.exit_success(), 0x5555);
    assert_eq!(handle.exit_failure(), 0x13333);
    assert_eq!(handle.exit(0x7777), 0x7777);
    assert_eq!(handle.exit(0x5555), 0x5555);
    assert_eq!(handle.exit(2), (2 << 16) | 0x3333);
    assert_eq!(shutdown(), 0x13333);
}
