//! The task manager: a fixed array of task control blocks, the current-task
//! index, and the round-robin scheduling algorithm.
//!
//! On the machine the manager sits behind one global exclusive lock; here a
//! `&mut TaskManager` stands for that lock guard, so every mutation site is a
//! method call on an exclusively held manager. A scheduling step does not
//! perform the raw register transfer itself: it returns the [`Schedule`]
//! decision, and the external context-switch primitive carries it out.

use vstd::prelude::*;

use crate::task::TaskControlBlock;
use crate::task::TaskStatus;

verus! {

/// What a scheduling step asks the outside world to do.
#[derive(PartialEq, Eq, Structural, Clone, Copy, Debug)]
pub enum Schedule {
    /// Save the register state of slot `from` and resume slot `to`.
    Switch { from: usize, to: usize },
    /// No slot is Ready: all work is finished, power off successfully.
    Shutdown,
}

/// The statuses of a slot array, in slot order. The round-robin choice
/// depends on nothing else.
pub open spec fn statuses(tasks: Seq<TaskControlBlock>) -> Seq<TaskStatus> {
    tasks.map_values(|t: TaskControlBlock| t.task_status)
}

/// The slot visited `off` steps after `cur` in the cyclic scan order that
/// starts at `cur + 1`. Meaningful for `0 <= cur < n` and `0 <= off < n`.
pub open spec fn nth_slot(cur: int, off: int, n: int) -> int {
    if cur + 1 + off < n {
        cur + 1 + off
    } else {
        cur + 1 + off - n
    }
}

/// How many scan steps after `cur` slot `j` is reached: the inverse of
/// [`nth_slot`] for `0 <= cur < n` and `0 <= j < n`.
pub open spec fn rr_offset(cur: int, j: int, n: int) -> int {
    if j > cur {
        j - cur - 1
    } else {
        j + n - cur - 1
    }
}

/// The round-robin choice over statuses `sts` continued from scan offset
/// `off` after `cur`: the first Ready slot at offset `off` or later, if any.
pub open spec fn find_next_from(sts: Seq<TaskStatus>, cur: int, off: int) -> Option<int>
    decreases sts.len() - off,
{
    if off < 0 || off >= sts.len() {
        None
    } else if sts[nth_slot(cur, off, sts.len() as int)] is Ready {
        Some(nth_slot(cur, off, sts.len() as int))
    } else {
        find_next_from(sts, cur, off + 1)
    }
}

/// The round-robin choice: the first Ready slot encountered scanning from
/// `cur + 1`, wrapping at most once around the whole slot range.
pub open spec fn find_next_spec(sts: Seq<TaskStatus>, cur: int) -> Option<int> {
    find_next_from(sts, cur, 0)
}

/// The scan visits distinct slots at distinct offsets within one wrap.
pub proof fn lemma_nth_slot_injective(cur: int, o1: int, o2: int, n: int)
    requires
        0 <= cur < n,
        0 <= o1 < n,
        0 <= o2 < n,
        o1 != o2,
    ensures
        nth_slot(cur, o1, n) != nth_slot(cur, o2, n),
{
}

/// Within one wrap the scan reaches every slot: `rr_offset` inverts
/// `nth_slot`.
pub proof fn lemma_rr_offset_inverts(cur: int, j: int, n: int)
    requires
        0 <= cur < n,
        0 <= j < n,
    ensures
        0 <= rr_offset(cur, j, n) < n,
        nth_slot(cur, rr_offset(cur, j, n), n) == j,
{
}

/// What the round-robin choice from offset `off` guarantees: a chosen slot
/// is Ready and no slot scanned before it is Ready, and `None` means no slot
/// at offset `off` or later is Ready.
pub proof fn lemma_find_next_from_props(sts: Seq<TaskStatus>, cur: int, off: int)
    requires
        0 <= cur < sts.len(),
        0 <= off <= sts.len(),
    ensures
        match find_next_from(sts, cur, off) {
            Some(i) => {
                &&& 0 <= i < sts.len()
                &&& sts[i] is Ready
                &&& off <= rr_offset(cur, i, sts.len() as int) < sts.len()
                &&& forall|o: int|
                    off <= o < rr_offset(cur, i, sts.len() as int) ==> !((#[trigger] sts[nth_slot(
                        cur,
                        o,
                        sts.len() as int,
                    )]) is Ready)
            },
            None => forall|o: int|
                off <= o < sts.len() ==> !((#[trigger] sts[nth_slot(cur, o, sts.len() as int)]) is Ready),
        },
    decreases sts.len() - off,
{
    let n = sts.len() as int;
    if off == n {
    } else {
        let i = nth_slot(cur, off, n);
        if sts[i] is Ready {
            assert(rr_offset(cur, i, n) == off);
        } else {
            lemma_find_next_from_props(sts, cur, off + 1);
        }
    }
}

/// A `None` round-robin choice means no slot at all is Ready, wherever the
/// scan started.
pub proof fn lemma_find_next_none_no_ready(sts: Seq<TaskStatus>, cur: int)
    requires
        0 <= cur < sts.len(),
        find_next_spec(sts, cur) is None,
    ensures
        forall|j: int| 0 <= j < sts.len() ==> !((#[trigger] sts[j]) is Ready),
{
    let n = sts.len() as int;
    lemma_find_next_from_props(sts, cur, 0);
    assert forall|j: int| 0 <= j < n implies !((#[trigger] sts[j]) is Ready) by {
        lemma_rr_offset_inverts(cur, j, n);
    }
}

/// A selected slot is always Ready: an Exited (or UnInit) task is never
/// selected.
pub proof fn lemma_selected_is_ready(sts: Seq<TaskStatus>, cur: int, i: int)
    requires
        0 <= cur < sts.len(),
        find_next_spec(sts, cur) == Some(i),
    ensures
        0 <= i < sts.len(),
        sts[i] is Ready,
{
    lemma_find_next_from_props(sts, cur, 0);
}

/// Over an all-Exited task set the scan returns None, whatever the starting
/// index.
pub proof fn lemma_all_exited_no_next(sts: Seq<TaskStatus>, cur: int)
    requires
        0 <= cur < sts.len(),
        forall|j: int| 0 <= j < sts.len() ==> (#[trigger] sts[j]) is Exited,
    ensures
        find_next_spec(sts, cur) is None,
{
    if find_next_spec(sts, cur) is Some {
        let i = find_next_spec(sts, cur)->0;
        lemma_selected_is_ready(sts, cur, i);
    }
}

/// Starvation-freedom, one step: with every slot Ready, the round-robin
/// choice is exactly the cyclic successor of the current slot.
pub proof fn lemma_all_ready_picks_successor(sts: Seq<TaskStatus>, cur: int)
    requires
        0 <= cur < sts.len(),
        forall|j: int| 0 <= j < sts.len() ==> (#[trigger] sts[j]) is Ready,
    ensures
        find_next_spec(sts, cur) == Some(nth_slot(cur, 0, sts.len() as int)),
{
    let n = sts.len() as int;
    assert(0 <= nth_slot(cur, 0, n) < n);
}

/// Starvation-freedom over a whole wrap: visiting the cyclic successor again
/// and again walks the scan order of the starting slot, so with every task
/// Ready and repeatedly yielding, the slots visited within one wrap are the
/// pairwise distinct ones of [`lemma_nth_slot_injective`] — every task is
/// visited once before any is visited twice.
pub proof fn lemma_successor_chain(cur: int, k: int, n: int)
    requires
        0 <= cur < n,
        0 <= k < n - 1,
    ensures
        nth_slot(cur, k + 1, n) == nth_slot(nth_slot(cur, k, n), 0, n),
{
}

/// Starvation-free round robin: with every task Ready and every task
/// yielding each time it runs, the k-th selection after starting slot `cur`
/// is `nth_slot(cur, k, n)` (see [`lemma_all_ready_picks_successor`] and
/// [`lemma_successor_chain`]); within one full wrap these selections are
/// pairwise distinct and reach every slot, so every task is visited once
/// before any is visited twice.
pub proof fn lemma_round_robin_starvation_free(cur: int, n: int)
    requires
        0 < n,
        0 <= cur < n,
    ensures
        forall|k1: int, k2: int|
            0 <= k1 < k2 < n ==> nth_slot(cur, k1, n) != nth_slot(cur, k2, n),
        forall|j: int|
            0 <= j < n ==> 0 <= #[trigger] rr_offset(cur, j, n) < n && nth_slot(
                cur,
                rr_offset(cur, j, n),
                n,
            ) == j,
{
    assert forall|j: int|
        0 <= j < n implies 0 <= #[trigger] rr_offset(cur, j, n) < n && nth_slot(
        cur,
        rr_offset(cur, j, n),
        n,
    ) == j by {
        lemma_rr_offset_inverts(cur, j, n);
    }
}

/// If any slot at all is Ready, the round-robin choice finds one.
pub proof fn lemma_some_ready_finds_next(sts: Seq<TaskStatus>, cur: int, j: int)
    requires
        0 <= cur < sts.len(),
        0 <= j < sts.len(),
        sts[j] is Ready,
    ensures
        find_next_spec(sts, cur) is Some,
{
    if find_next_spec(sts, cur) is None {
        lemma_find_next_none_no_ready(sts, cur);
    }
}

/// The kernel's one task manager: the fixed slot array and the index of the
/// task now holding the hart.
pub struct TaskManager {
    /// The fixed-capacity slot array; slot `i` holds the task with id `i`.
    pub tasks: Vec<TaskControlBlock>,
    /// Index of the currently scheduled task.
    pub current_task: usize,
}

impl TaskManager {
    /// Well-formedness: at least one slot, the current index in range, every
    /// block well-formed and numbered by its slot.
    pub open spec fn wf(&self) -> bool {
        &&& 1 <= self.tasks@.len()
        &&& self.current_task < self.tasks@.len()
        &&& forall|i: int|
            0 <= i < self.tasks@.len() ==> (#[trigger] self.tasks@[i]).wf()
                && self.tasks@[i].task_id == i
    }

    /// The current slot is Running and the others are not: the externally
    /// observable steady state between bootstrap and the final exit.
    pub open spec fn only_current_running(&self) -> bool {
        forall|j: int|
            0 <= j < self.tasks@.len() ==> ((#[trigger] self.tasks@[j]).task_status is Running
                <==> j == self.current_task)
    }

    /// No slot is Running: the state before bootstrap.
    pub open spec fn no_task_running(&self) -> bool {
        forall|j: int|
            0 <= j < self.tasks@.len() ==> !((#[trigger] self.tasks@[j]).task_status is Running)
    }

    /// No slot is Ready: system-wide completion.
    pub open spec fn no_task_ready(&self) -> bool {
        forall|j: int|
            0 <= j < self.tasks@.len() ==> !((#[trigger] self.tasks@[j]).task_status is Ready)
    }

    /// A manager over `num_tasks` fresh Ready tasks, current index 0.
    pub fn new(num_tasks: usize) -> (r: Self)
        requires
            1 <= num_tasks,
        ensures
            r.wf(),
            r.no_task_running(),
            r.tasks@.len() == num_tasks,
            r.current_task == 0,
            forall|i: int| 0 <= i < num_tasks ==> (#[trigger] r.tasks@[i]).task_status is Ready,
            forall|i: int| 0 <= i < num_tasks ==> (#[trigger] r.tasks@[i]).time == 0,
            forall|i: int, k: int|
                0 <= i < num_tasks && 0 <= k < crate::config::MAX_SYSCALL_NUM ==> (
                #[trigger] r.tasks@[i].syscall_times@[k]) == 0u32,
    {
        let mut tasks: Vec<TaskControlBlock> = Vec::new();
        let mut i: usize = 0;
        while i < num_tasks
            invariant
                i <= num_tasks,
                tasks@.len() == i,
                forall|j: int|
                    0 <= j < i ==> (#[trigger] tasks@[j]).wf() && tasks@[j].task_id == j
                        && tasks@[j].task_status is Ready && tasks@[j].time == 0,
                forall|j: int, k: int|
                    0 <= j < i && 0 <= k < crate::config::MAX_SYSCALL_NUM ==> (
                    #[trigger] tasks@[j].syscall_times@[k]) == 0u32,
            decreases num_tasks - i,
        {
            tasks.push(TaskControlBlock::new(i));
            i += 1;
        }
        TaskManager { tasks, current_task: 0 }
    }

    /// Bootstrap: stamp task 0's accounting baseline with the clock reading,
    /// mark it Running and hand back the slot to transfer into. On the
    /// machine that first transfer never returns to the boot flow.
    pub fn run_first_task(&mut self, now_us: usize) -> (to: usize)
        requires
            old(self).wf(),
            old(self).tasks@[0].task_status is Ready,
        ensures
            final(self).wf(),
            to == 0,
            final(self).current_task == 0,
            final(self).tasks@ == old(self).tasks@.update(
                0,
                (TaskControlBlock {
                    task_status: TaskStatus::Running,
                    time: now_us,
                    ..old(self).tasks@[0]
                }),
            ),
            old(self).no_task_running() ==> final(self).only_current_running(),
    {
        let first = &mut self.tasks[0];
        first.time = now_us;
        first.mark_running();
        self.current_task = 0;
        0
    }

    /// Set the current task's status to Ready (a voluntary yield).
    pub fn mark_current_suspended(&mut self)
        requires
            old(self).wf(),
            !(old(self).tasks@[old(self).current_task as int].task_status is Exited),
        ensures
            final(self).wf(),
            final(self).current_task == old(self).current_task,
            final(self).tasks@ == old(self).tasks@.update(
                old(self).current_task as int,
                (TaskControlBlock {
                    task_status: TaskStatus::Ready,
                    ..old(self).tasks@[old(self).current_task as int]
                }),
            ),
    {
        let cur = self.current_task;
        let tcb = &mut self.tasks[cur];
        tcb.mark_ready();
    }

    /// Set the current task's status to Exited, the terminal status.
    pub fn mark_current_exited(&mut self)
        requires
            old(self).wf(),
            !(old(self).tasks@[old(self).current_task as int].task_status is Exited),
        ensures
            final(self).wf(),
            final(self).current_task == old(self).current_task,
            final(self).tasks@ == old(self).tasks@.update(
                old(self).current_task as int,
                (TaskControlBlock {
                    task_status: TaskStatus::Exited,
                    ..old(self).tasks@[old(self).current_task as int]
                }),
            ),
    {
        let cur = self.current_task;
        let tcb = &mut self.tasks[cur];
        tcb.mark_exited();
    }

    /// A transient exclusive view of the current task's block, for the
    /// syscall handlers: while it is held the manager itself is exclusively
    /// borrowed, so no other flow can observe a partially updated block.
    pub fn current_task_accessor(&mut self) -> (tcb: &mut TaskControlBlock)
        requires
            old(self).wf(),
        ensures
            *tcb == old(self).tasks@[old(self).current_task as int],
            final(self).current_task == old(self).current_task,
            final(self).tasks@ == old(self).tasks@.update(
                old(self).current_task as int,
                *final(tcb),
            ),
    {
        let cur = self.current_task;
        &mut self.tasks[cur]
    }

    /// The round-robin scan: the first Ready slot starting at
    /// `current_task + 1`, wrapping at most once; `None` signals that every
    /// slot is Exited or UnInit, i.e. system-wide completion.
    pub fn find_next_task(&self) -> (r: Option<usize>)
        requires
            self.wf(),
        ensures
            match r {
                Some(i) => {
                    &&& find_next_spec(statuses(self.tasks@), self.current_task as int) == Some(
                        i as int,
                    )
                    &&& i < self.tasks@.len()
                    &&& self.tasks@[i as int].task_status is Ready
                },
                None => {
                    &&& find_next_spec(statuses(self.tasks@), self.current_task as int) is None
                    &&& self.no_task_ready()
                },
            },
    {
        let n = self.tasks.len();
        let cur = self.current_task;
        let ghost sts = statuses(self.tasks@);
        let mut off: usize = 0;
        let mut idx: usize = cur + 1;
        if idx == n {
            idx = 0;
        }
        while off < n
            invariant
                self.wf(),
                sts == statuses(self.tasks@),
                cur == self.current_task,
                n == sts.len(),
                off <= n,
                off < n ==> idx == nth_slot(cur as int, off as int, n as int),
                find_next_from(sts, cur as int, 0) == find_next_from(sts, cur as int, off as int),
            decreases n - off,
        {
            let st = self.tasks[idx].task_status;
            if st == TaskStatus::Ready {
                proof {
                    assert(sts[idx as int] == self.tasks@[idx as int].task_status);
                    assert(find_next_from(sts, cur as int, off as int) == Some(idx as int));
                }
                return Some(idx);
            }
            off += 1;
            idx += 1;
            if idx == n {
                idx = 0;
            }
        }
        proof {
            lemma_find_next_none_no_ready(sts, cur as int);
            assert forall|j: int|
                0 <= j < self.tasks@.len() implies !((#[trigger] self.tasks@[j]).task_status
                is Ready) by {
                assert(sts[j] == self.tasks@[j].task_status);
            }
        }
        None
    }

    /// One scheduling step: pick the round-robin successor. If none exists,
    /// leave the manager untouched and ask for a graceful shutdown. If one
    /// does, stamp its baseline on first scheduling, mark it Running, make it
    /// current, and ask for a context transfer from the previously current
    /// slot into it.
    pub fn run_next_task(&mut self, now_us: usize) -> (s: Schedule)
        requires
            old(self).wf(),
        ensures
            final(self).wf(),
            match s {
                Schedule::Switch { from, to } => {
                    &&& from == old(self).current_task
                    &&& to < old(self).tasks@.len()
                    &&& find_next_spec(statuses(old(self).tasks@), old(self).current_task as int)
                        == Some(to as int)
                    &&& old(self).tasks@[to as int].task_status is Ready
                    &&& final(self).current_task == to
                    &&& final(self).tasks@ == old(self).tasks@.update(
                        to as int,
                        (TaskControlBlock {
                            task_status: TaskStatus::Running,
                            time: if old(self).tasks@[to as int].time == 0 {
                                now_us
                            } else {
                                old(self).tasks@[to as int].time
                            },
                            ..old(self).tasks@[to as int]
                        }),
                    )
                },
                Schedule::Shutdown => {
                    &&& *final(self) == *old(self)
                    &&& old(self).no_task_ready()
                },
            },
    {
        match self.find_next_task() {
            Some(next) => {
                let from = self.current_task;
                let tcb = &mut self.tasks[next];
                if tcb.time == 0 {
                    tcb.time = now_us;
                }
                tcb.mark_running();
                self.current_task = next;
                Schedule::Switch { from, to: next }
            },
            None => Schedule::Shutdown,
        }
    }
}

} // verus!
