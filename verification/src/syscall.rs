//! The syscall dispatcher: decode a trapped syscall id, account it, route it
//! to its handler.
//!
//! The dispatcher is the single entry point of the kernel core. It is handed
//! everything the trap path read from the machine — the id, the three raw
//! argument words, the bytes of a `WRITE` buffer, and the clock reading —
//! and it returns everything the trap path must do next: a plain return
//! value, a value to store through the trapped pointer, a context transfer,
//! or a halt word for the power-control device.

use vstd::prelude::*;

use crate::fs::byte_units;
use crate::fs::sys_write;
use crate::fs::FD_STDOUT;
use crate::manager::find_next_spec;
use crate::manager::statuses;
use crate::manager::Schedule;
use crate::manager::TaskManager;
use crate::process::counts_bumped_at;
use crate::process::sys_exit;
use crate::process::sys_get_time;
use crate::process::sys_task_info;
use crate::process::sys_yield;
use crate::process::update_syscall;
use crate::process::TaskInfo;
use crate::process::TimeVal;
use crate::qemu::EXIT_FAILURE;
use crate::sbi::shutdown;
use crate::sbi::Console;
use crate::task::folded_time;
use crate::task::TaskControlBlock;
use crate::task::TaskStatus;

verus! {

/// write syscall
pub const SYSCALL_WRITE: usize = 64;

/// exit syscall
pub const SYSCALL_EXIT: usize = 93;

/// yield syscall
pub const SYSCALL_YIELD: usize = 124;

/// get-time syscall
pub const SYSCALL_GET_TIME: usize = 169;

/// task-info syscall
pub const SYSCALL_TASK_INFO: usize = 410;

/// The ids this kernel dispatches; any other id is a malformed trap and
/// halts the whole kernel.
pub open spec fn syscall_recognized(id: usize) -> bool {
    ||| id == SYSCALL_WRITE
    ||| id == SYSCALL_EXIT
    ||| id == SYSCALL_YIELD
    ||| id == SYSCALL_GET_TIME
    ||| id == SYSCALL_TASK_INFO
}

/// What one dispatched syscall asks the trap path to do.
#[derive(Debug)]
pub enum SyscallResult {
    /// Hand this value back to the calling task.
    Value(isize),
    /// Store this pair through the trapped pointer, then hand back 0.
    Time(TimeVal),
    /// Store this report through the trapped pointer, then hand back 0.
    Info(TaskInfo),
    /// Perform this transfer; the yielding task receives 0 when resumed.
    Yielded(Schedule),
    /// Perform this transfer; the exiting task never resumes.
    Exited(Schedule),
    /// Malformed trap: store this word to the power-control device and halt.
    Fatal(u32),
}

/// The whole effect of a dispatched `YIELD` on the task set, relative to the
/// state at trap time: the yield is counted, the current task steps back to
/// Ready, the round-robin successor `to` (possibly the same task) is Running
/// and current, its baseline stamped at first scheduling, and every other
/// slot is untouched.
pub open spec fn yield_outcome(
    pre: TaskManager,
    post: TaskManager,
    to: int,
    now_us: usize,
) -> bool {
    let cur = pre.current_task as int;
    let n = pre.tasks@.len();
    &&& 0 <= to < n
    &&& find_next_spec(statuses(pre.tasks@).update(cur, TaskStatus::Ready), cur) == Some(to)
    &&& post.current_task == to
    &&& post.tasks@.len() == n
    &&& forall|j: int| 0 <= j < n && j != cur && j != to ==> post.tasks@[j] == pre.tasks@[j]
    &&& post.tasks@[cur].syscall_times@ == pre.tasks@[cur].syscall_times@.update(
        SYSCALL_YIELD as int,
        (pre.tasks@[cur].syscall_times@[SYSCALL_YIELD as int] + 1) as u32,
    )
    &&& post.tasks@[cur].task_id == pre.tasks@[cur].task_id
    &&& post.tasks@[cur].task_cx == pre.tasks@[cur].task_cx
    &&& (to != cur ==> post.tasks@[cur].task_status is Ready && post.tasks@[cur].time
        == pre.tasks@[cur].time)
    &&& post.tasks@[to].task_status is Running
    &&& post.tasks@[to].time as int == (if pre.tasks@[to].time == 0 {
        now_us as int
    } else {
        pre.tasks@[to].time as int
    })
    &&& (to != cur ==> post.tasks@[to].syscall_times@ == pre.tasks@[to].syscall_times@
        && post.tasks@[to].task_id == pre.tasks@[to].task_id && post.tasks@[to].task_cx
        == pre.tasks@[to].task_cx)
}

/// The whole effect of a dispatched `EXIT` on the task set, relative to the
/// state at trap time: the exit is counted, the current task is terminally
/// Exited, and either the round-robin successor over the remaining tasks is
/// Running and current, or no task is Ready any more and the decision is the
/// graceful shutdown with the manager otherwise untouched.
pub open spec fn exit_outcome(
    pre: TaskManager,
    post: TaskManager,
    s: Schedule,
    now_us: usize,
) -> bool {
    let cur = pre.current_task as int;
    let n = pre.tasks@.len();
    &&& post.tasks@.len() == n
    &&& post.tasks@[cur].syscall_times@ == pre.tasks@[cur].syscall_times@.update(
        SYSCALL_EXIT as int,
        (pre.tasks@[cur].syscall_times@[SYSCALL_EXIT as int] + 1) as u32,
    )
    &&& post.tasks@[cur].task_status is Exited
    &&& post.tasks@[cur].task_id == pre.tasks@[cur].task_id
    &&& post.tasks@[cur].task_cx == pre.tasks@[cur].task_cx
    &&& post.tasks@[cur].time == pre.tasks@[cur].time
    &&& match s {
        Schedule::Switch { from, to } => {
            &&& from == pre.current_task
            &&& 0 <= to < n
            &&& to != cur
            &&& find_next_spec(statuses(pre.tasks@).update(cur, TaskStatus::Exited), cur) == Some(
                to as int,
            )
            &&& pre.tasks@[to as int].task_status is Ready
            &&& post.current_task == to
            &&& forall|j: int| 0 <= j < n && j != cur && j != to ==> post.tasks@[j] == pre.tasks@[j]
            &&& post.tasks@[to as int].task_status is Running
            &&& post.tasks@[to as int].time as int == (if pre.tasks@[to as int].time == 0 {
                now_us as int
            } else {
                pre.tasks@[to as int].time as int
            })
            &&& post.tasks@[to as int].syscall_times@ == pre.tasks@[to as int].syscall_times@
            &&& post.tasks@[to as int].task_id == pre.tasks@[to as int].task_id
            &&& post.tasks@[to as int].task_cx == pre.tasks@[to as int].task_cx
        },
        Schedule::Shutdown => {
            &&& post.current_task == pre.current_task
            &&& forall|j: int| 0 <= j < n && j != cur ==> post.tasks@[j] == pre.tasks@[j]
            &&& post.no_task_ready()
        },
    }
}

/// Dispatch one trapped syscall.
///
/// A recognized id is counted against the current task before its handler
/// runs; an unrecognized id is counted nowhere, mutates nothing, and halts
/// the kernel with the failure word. `WRITE` succeeds exactly on the console
/// descriptor and fails with -1 on any other, still counted either way.
pub fn syscall(
    tm: &mut TaskManager,
    con: &mut Console,
    syscall_id: usize,
    args: [usize; 3],
    write_buf: &Vec<u8>,
    now_us: usize,
) -> (r: SyscallResult)
    requires
        old(tm).wf(),
        syscall_recognized(syscall_id) ==> !(old(tm).tasks@[old(tm).current_task as int].task_status
            is Exited),
        syscall_recognized(syscall_id) ==> old(tm).tasks@[old(tm).current_task as int].syscall_times@[
            syscall_id as int] < u32::MAX,
        syscall_id == SYSCALL_WRITE ==> write_buf@.len() == args[2] && args[2] <= isize::MAX,
        syscall_id == SYSCALL_TASK_INFO ==> old(tm).tasks@[old(tm).current_task as int].time
            <= now_us,
    ensures
        final(tm).wf(),
        !syscall_recognized(syscall_id) ==> *final(tm) == *old(tm) && *final(con) == *old(con)
            && match r {
            SyscallResult::Fatal(word) => word == EXIT_FAILURE,
            _ => false,
        },
        syscall_id == SYSCALL_WRITE ==> final(tm).current_task == old(tm).current_task
            && counts_bumped_at(
            old(tm).tasks@,
            final(tm).tasks@,
            old(tm).current_task as int,
            SYSCALL_WRITE as int,
        ) && match r {
            SyscallResult::Value(v) => {
                &&& args[0] == FD_STDOUT ==> v == args[2] as isize && final(con).output@ == old(
                    con,
                ).output@ + byte_units(write_buf@)
                &&& args[0] != FD_STDOUT ==> v == -1isize && *final(con) == *old(con)
            },
            _ => false,
        },
        syscall_id == SYSCALL_EXIT ==> *final(con) == *old(con) && match r {
            SyscallResult::Exited(s) => exit_outcome(*old(tm), *final(tm), s, now_us),
            _ => false,
        },
        syscall_id == SYSCALL_YIELD ==> *final(con) == *old(con) && match r {
            SyscallResult::Yielded(s) => s matches Schedule::Switch { from, to } && from == old(
                tm,
            ).current_task && yield_outcome(*old(tm), *final(tm), to as int, now_us),
            _ => false,
        },
        syscall_id == SYSCALL_GET_TIME ==> *final(con) == *old(con) && final(tm).current_task
            == old(tm).current_task && counts_bumped_at(
            old(tm).tasks@,
            final(tm).tasks@,
            old(tm).current_task as int,
            SYSCALL_GET_TIME as int,
        ) && match r {
            SyscallResult::Time(tv) => tv.sec == now_us / 1_000_000 && tv.usec == now_us
                % 1_000_000,
            _ => false,
        },
        syscall_id == SYSCALL_TASK_INFO ==> *final(con) == *old(con) && final(tm).current_task
            == old(tm).current_task && counts_bumped_at(
            old(tm).tasks@,
            final(tm).tasks@,
            old(tm).current_task as int,
            SYSCALL_TASK_INFO as int,
        ) && match r {
            SyscallResult::Info(info) => {
                &&& info.status == old(tm).tasks@[old(tm).current_task as int].task_status
                &&& info.syscall_times@ == final(tm).tasks@[old(tm).current_task as int].syscall_times@
                &&& info.time == folded_time(
                    now_us - old(tm).tasks@[old(tm).current_task as int].time,
                )
            },
            _ => false,
        },
        old(tm).only_current_running() && syscall_recognized(syscall_id) ==> match r {
            SyscallResult::Exited(Schedule::Shutdown) => final(tm).no_task_running()
                && final(tm).no_task_ready(),
            _ => final(tm).only_current_running(),
        },
{
    let ghost pre = *tm;
    if syscall_id == SYSCALL_WRITE {
        update_syscall(tm, SYSCALL_WRITE);
        proof {
            if pre.only_current_running() {
                lemma_bump_keeps_running(pre, *tm);
            }
        }
        let v = sys_write(con, args[0], write_buf, args[2]);
        SyscallResult::Value(v)
    } else if syscall_id == SYSCALL_EXIT {
        update_syscall(tm, SYSCALL_EXIT);
        let ghost mid = *tm;
        let code = #[verifier::truncate] (args[0] as i32);
        let s = sys_exit(tm, code, now_us);
        proof {
            let cur = pre.current_task as int;
            let mid_tasks = mid.tasks@.update(
                cur,
                (TaskControlBlock { task_status: TaskStatus::Exited, ..mid.tasks@[cur] }),
            );
            assert(statuses(mid_tasks) =~= statuses(pre.tasks@).update(cur, TaskStatus::Exited));
            if pre.only_current_running() {
                lemma_bump_keeps_running(pre, mid);
            }
        }
        SyscallResult::Exited(s)
    } else if syscall_id == SYSCALL_YIELD {
        update_syscall(tm, SYSCALL_YIELD);
        let ghost mid = *tm;
        let s = sys_yield(tm, now_us);
        proof {
            let cur = pre.current_task as int;
            let mid_tasks = mid.tasks@.update(
                cur,
                (TaskControlBlock { task_status: TaskStatus::Ready, ..mid.tasks@[cur] }),
            );
            assert(statuses(mid_tasks) =~= statuses(pre.tasks@).update(cur, TaskStatus::Ready));
            if pre.only_current_running() {
                lemma_bump_keeps_running(pre, mid);
            }
        }
        SyscallResult::Yielded(s)
    } else if syscall_id == SYSCALL_GET_TIME {
        update_syscall(tm, SYSCALL_GET_TIME);
        proof {
            if pre.only_current_running() {
                lemma_bump_keeps_running(pre, *tm);
            }
        }
        let mut tv = TimeVal { sec: 0, usec: 0 };
        sys_get_time(&mut tv, args[1], now_us);
        SyscallResult::Time(tv)
    } else if syscall_id == SYSCALL_TASK_INFO {
        update_syscall(tm, SYSCALL_TASK_INFO);
        proof {
            if pre.only_current_running() {
                lemma_bump_keeps_running(pre, *tm);
            }
        }
        let mut info = TaskInfo::default();
        sys_task_info(tm, &mut info, now_us);
        SyscallResult::Info(info)
    } else {
        SyscallResult::Fatal(shutdown())
    }
}

/// A counter bump keeps the one-Running steady state.
proof fn lemma_bump_keeps_running(pre: TaskManager, post: TaskManager)
    requires
        pre.current_task < pre.tasks@.len(),
        post.current_task == pre.current_task,
        exists|id: int|
            #[trigger] counts_bumped_at(pre.tasks@, post.tasks@, pre.current_task as int, id),
        pre.only_current_running(),
    ensures
        post.only_current_running(),
{
}

} // verus!
