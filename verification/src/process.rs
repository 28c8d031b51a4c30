//! Process-management syscall handlers: exit, yield, get-time, task-info,
//! and the per-task syscall accounting.
//!
//! Each handler is the decision-and-mutation part of its syscall. What the
//! machine does around it stays outside: storing a result through the
//! trapped user pointer, reading the clock, and the register transfer a
//! returned [`Schedule`] asks for.

use vstd::prelude::*;

use crate::config::MAX_SYSCALL_NUM;
use crate::config::MICRO_PER_SEC;
use crate::manager::find_next_spec;
use crate::manager::lemma_some_ready_finds_next;
use crate::manager::statuses;
use crate::manager::Schedule;
use crate::manager::TaskManager;
use crate::task::folded_time;
use crate::task::TaskControlBlock;
use crate::task::TaskStatus;

verus! {

/// A clock reading split into whole seconds and leftover microseconds.
#[derive(PartialEq, Eq, Structural, Clone, Copy, Debug)]
pub struct TimeVal {
    /// second
    pub sec: usize,
    /// usecond
    pub usec: usize,
}

/// Task information as reported to a task asking about itself.
#[derive(Debug)]
pub struct TaskInfo {
    /// Task status in it's life cycle
    pub status: TaskStatus,
    /// The numbers of syscall called by task
    pub syscall_times: Vec<u32>,
    /// Total running time of task, in the folded millisecond form
    pub time: usize,
}

impl Default for TaskInfo {
    /// A blank report: Ready, no syscalls counted, no time elapsed.
    fn default() -> (r: Self)
        ensures
            r.status is Ready,
            r.syscall_times@.len() == MAX_SYSCALL_NUM,
            forall|k: int| 0 <= k < MAX_SYSCALL_NUM ==> r.syscall_times@[k] == 0u32,
            r.time == 0,
    {
        let mut syscall_times: Vec<u32> = Vec::new();
        let mut k: usize = 0;
        while k < MAX_SYSCALL_NUM
            invariant
                k <= MAX_SYSCALL_NUM,
                syscall_times@.len() == k,
                forall|j: int| 0 <= j < k ==> syscall_times@[j] == 0u32,
            decreases MAX_SYSCALL_NUM - k,
        {
            syscall_times.push(0);
            k += 1;
        }
        Self { status: TaskStatus::Ready, syscall_times, time: 0 }
    }
}

/// The slot array after the current task's counter for syscall `id` went up
/// by one: that one table slot changed, nothing else anywhere.
pub open spec fn counts_bumped_at(
    pre: Seq<TaskControlBlock>,
    post: Seq<TaskControlBlock>,
    cur: int,
    id: int,
) -> bool {
    &&& post.len() == pre.len()
    &&& post[cur].syscall_times@ == pre[cur].syscall_times@.update(
        id,
        (pre[cur].syscall_times@[id] + 1) as u32,
    )
    &&& post[cur].task_id == pre[cur].task_id
    &&& post[cur].task_status == pre[cur].task_status
    &&& post[cur].task_cx == pre[cur].task_cx
    &&& post[cur].time == pre[cur].time
    &&& forall|j: int| 0 <= j < pre.len() && j != cur ==> post[j] == pre[j]
}

/// A counter table after `k` invocations of syscall `id` were counted, one
/// at a time.
pub open spec fn bumped_times(times: Seq<u32>, id: int, k: nat) -> Seq<u32>
    decreases k,
{
    if k == 0 {
        times
    } else {
        let prev = bumped_times(times, id, (k - 1) as nat);
        prev.update(id, (prev[id] + 1) as u32)
    }
}

/// The counting law: after `k` counted invocations of syscall `id`, that
/// slot reads exactly `k` more than before, and no other slot of the table
/// moved at all.
pub proof fn lemma_syscall_counts_accumulate(times: Seq<u32>, id: int, k: nat)
    requires
        0 <= id < times.len(),
        times[id] + k <= u32::MAX,
    ensures
        bumped_times(times, id, k).len() == times.len(),
        bumped_times(times, id, k)[id] == times[id] + k,
        forall|j: int| 0 <= j < times.len() && j != id ==> bumped_times(times, id, k)[j] == times[j],
    decreases k,
{
    if k > 0 {
        lemma_syscall_counts_accumulate(times, id, (k - 1) as nat);
    }
}

/// Count one invocation of syscall `syscall_num` against the current task:
/// its table slot for that id goes up by one; no other slot, no other task,
/// and no other field moves.
pub fn update_syscall(tm: &mut TaskManager, syscall_num: usize)
    requires
        old(tm).wf(),
        syscall_num < MAX_SYSCALL_NUM,
        old(tm).tasks@[old(tm).current_task as int].syscall_times@[syscall_num as int] < u32::MAX,
    ensures
        final(tm).wf(),
        final(tm).current_task == old(tm).current_task,
        counts_bumped_at(
            old(tm).tasks@,
            final(tm).tasks@,
            old(tm).current_task as int,
            syscall_num as int,
        ),
{
    let tcb = tm.current_task_accessor();
    tcb.record_syscall(syscall_num);
}

/// `EXIT(code)`: the current task becomes Exited, terminally, and the
/// round-robin successor is scheduled. If none is Ready the returned
/// decision asks for the graceful power-off; on the machine neither outcome
/// returns control to the exiting task. The exit code plays no further role
/// in this kernel.
pub fn sys_exit(tm: &mut TaskManager, _exit_code: i32, now_us: usize) -> (s: Schedule)
    requires
        old(tm).wf(),
        !(old(tm).tasks@[old(tm).current_task as int].task_status is Exited),
    ensures
        final(tm).wf(),
        ({
            let cur = old(tm).current_task as int;
            let mid_tasks = old(tm).tasks@.update(
                cur,
                (TaskControlBlock { task_status: TaskStatus::Exited, ..old(tm).tasks@[cur] }),
            );
            match s {
                Schedule::Switch { from, to } => {
                    &&& from == old(tm).current_task
                    &&& to < mid_tasks.len()
                    &&& to != cur
                    &&& find_next_spec(statuses(mid_tasks), cur) == Some(to as int)
                    &&& old(tm).tasks@[to as int].task_status is Ready
                    &&& final(tm).current_task == to
                    &&& final(tm).tasks@ == mid_tasks.update(
                        to as int,
                        (TaskControlBlock {
                            task_status: TaskStatus::Running,
                            time: if mid_tasks[to as int].time == 0 {
                                now_us
                            } else {
                                mid_tasks[to as int].time
                            },
                            ..mid_tasks[to as int]
                        }),
                    )
                },
                Schedule::Shutdown => {
                    &&& final(tm).current_task == old(tm).current_task
                    &&& final(tm).tasks@ == mid_tasks
                    &&& final(tm).no_task_ready()
                },
            }
        }),
        old(tm).only_current_running() ==> match s {
            Schedule::Switch { from, to } => final(tm).only_current_running(),
            Schedule::Shutdown => final(tm).no_task_running(),
        },
{
    tm.mark_current_exited();
    let s = tm.run_next_task(now_us);
    proof {
        let cur = old(tm).current_task as int;
        let mid_tasks = old(tm).tasks@.update(
            cur,
            (TaskControlBlock { task_status: TaskStatus::Exited, ..old(tm).tasks@[cur] }),
        );
        if s is Switch {
            let to = s->Switch_to as int;
            assert(mid_tasks[to].task_status is Ready);
            assert(old(tm).tasks@[to].task_status is Ready);
        }
    }
    s
}

/// `YIELD()`: the current task steps back to Ready and the round-robin
/// successor is scheduled; since the yielding task itself is Ready again, a
/// successor always exists (a lone task is re-selected at once). The yielding
/// task receives 0 when it is eventually resumed.
pub fn sys_yield(tm: &mut TaskManager, now_us: usize) -> (s: Schedule)
    requires
        old(tm).wf(),
        !(old(tm).tasks@[old(tm).current_task as int].task_status is Exited),
    ensures
        final(tm).wf(),
        ({
            let cur = old(tm).current_task as int;
            let mid_tasks = old(tm).tasks@.update(
                cur,
                (TaskControlBlock { task_status: TaskStatus::Ready, ..old(tm).tasks@[cur] }),
            );
            match s {
                Schedule::Switch { from, to } => {
                    &&& from == old(tm).current_task
                    &&& to < mid_tasks.len()
                    &&& find_next_spec(statuses(mid_tasks), cur) == Some(to as int)
                    &&& mid_tasks[to as int].task_status is Ready
                    &&& final(tm).current_task == to
                    &&& final(tm).tasks@ == mid_tasks.update(
                        to as int,
                        (TaskControlBlock {
                            task_status: TaskStatus::Running,
                            time: if mid_tasks[to as int].time == 0 {
                                now_us
                            } else {
                                mid_tasks[to as int].time
                            },
                            ..mid_tasks[to as int]
                        }),
                    )
                },
                Schedule::Shutdown => false,
            }
        }),
        old(tm).only_current_running() ==> final(tm).only_current_running(),
{
    tm.mark_current_suspended();
    proof {
        let cur = old(tm).current_task as int;
        lemma_some_ready_finds_next(statuses(tm.tasks@), cur, cur);
    }
    let s = tm.run_next_task(now_us);
    s
}

/// `GET_TIME(ptr, tz)`: split the clock reading into whole seconds and
/// leftover microseconds, store the pair for the caller, return 0. The
/// timezone argument is ignored.
pub fn sys_get_time(ts: &mut TimeVal, _tz: usize, now_us: usize) -> (r: isize)
    ensures
        r == 0,
        final(ts).sec == now_us / MICRO_PER_SEC as usize,
        final(ts).usec == now_us % MICRO_PER_SEC as usize,
{
    *ts = TimeVal { sec: now_us / MICRO_PER_SEC, usec: now_us % MICRO_PER_SEC };
    0
}

/// `TASK_INFO(ptr)`: report the current task's status, its whole syscall
/// table, and its elapsed time since first scheduling in the folded
/// millisecond form, then return 0.
pub fn sys_task_info(tm: &TaskManager, ti: &mut TaskInfo, now_us: usize) -> (r: isize)
    requires
        tm.wf(),
        tm.tasks@[tm.current_task as int].time <= now_us,
    ensures
        r == 0,
        final(ti).status == tm.tasks@[tm.current_task as int].task_status,
        final(ti).syscall_times@ == tm.tasks@[tm.current_task as int].syscall_times@,
        final(ti).time == folded_time(now_us - tm.tasks@[tm.current_task as int].time),
{
    let current_task = tm.current_task;
    let tcb = &tm.tasks[current_task];
    let mut times: Vec<u32> = Vec::new();
    let mut k: usize = 0;
    while k < MAX_SYSCALL_NUM
        invariant
            tcb.wf(),
            k <= MAX_SYSCALL_NUM,
            times@ == tcb.syscall_times@.subrange(0, k as int),
        decreases MAX_SYSCALL_NUM - k,
    {
        times.push(tcb.syscall_times[k]);
        proof {
            assert(tcb.syscall_times@.subrange(0, k + 1 as int) == tcb.syscall_times@.subrange(
                0,
                k as int,
            ).push(tcb.syscall_times@[k as int]));
        }
        k += 1;
    }
    proof {
        assert(tcb.syscall_times@.subrange(0, MAX_SYSCALL_NUM as int) == tcb.syscall_times@);
    }
    ti.status = tcb.task_status;
    ti.syscall_times = times;
    ti.time = tcb.elapsed_time(now_us);
    0
}

} // verus!
