//! Per-task state: status, saved register context, and accounting.

use vstd::prelude::*;

use crate::config::MAX_SYSCALL_NUM;
use crate::config::MICRO_PER_SEC;

verus! {

/// Life-cycle status of a task. Transitions are monotone along
/// UnInit -> Ready <-> Running -> Exited; Exited is terminal.
#[derive(PartialEq, Eq, Structural, Clone, Copy, Debug)]
pub enum TaskStatus {
    /// Slot exists but was never made runnable.
    UnInit,
    /// Runnable, waiting to be scheduled.
    Ready,
    /// Currently executing on the hart.
    Running,
    /// Finished; never runnable again.
    Exited,
}

/// Saved register snapshot of a suspended task. The library never reads or
/// writes these fields: only the raw context-switch primitive, which lives
/// outside the library, fills and drains them.
#[derive(PartialEq, Eq, Structural, Clone, Copy, Debug)]
pub struct TaskContext {
    /// Return address to resume at.
    pub ra: usize,
    /// Kernel stack pointer of the task.
    pub sp: usize,
}

impl TaskContext {
    /// An all-zero snapshot, the state of a slot before its first suspension.
    pub fn zero_init() -> (r: Self)
        ensures
            r == (TaskContext { ra: 0, sp: 0 }),
    {
        TaskContext { ra: 0, sp: 0 }
    }
}

/// The elapsed-time figure reported for a task: elapsed microseconds split
/// into (seconds, microseconds), then folded into milliseconds with the
/// seconds component truncated to 16 bits. The truncation is a compatibility
/// quirk of the reporting interface and is preserved exactly.
pub open spec fn folded_time(us: int) -> int {
    ((us / 1_000_000) % 0x10000) * 1000 + (us % 1_000_000) / 1000
}

/// As long as the elapsed seconds fit the 16-bit field, the folded figure is
/// simply the elapsed milliseconds.
pub proof fn lemma_folded_time_value(us: int)
    requires
        0 <= us,
        us / 1_000_000 < 0x10000,
    ensures
        folded_time(us) == us / 1000,
{
    let q = us / 1_000_000;
    let r = us % 1_000_000;
    vstd::arithmetic::div_mod::lemma_fundamental_div_mod(us, 1_000_000);
    vstd::arithmetic::div_mod::lemma_small_mod(q as nat, 0x10000);
    vstd::arithmetic::div_mod::lemma_fundamental_div_mod(r, 1000);
    assert(us == 1000 * (1000 * q + r / 1000) + r % 1000) by (nonlinear_arith)
        requires
            us == 1_000_000 * q + r,
            r == 1000 * (r / 1000) + r % 1000,
    ;
    vstd::arithmetic::div_mod::lemma_div_multiples_vanish_fancy(1000 * q + r / 1000, r % 1000, 1000);
}

/// The reported elapsed-time figure never decreases between two clock
/// readings of the same task, as long as the elapsed seconds fit the 16-bit
/// field of the folded form.
pub proof fn lemma_folded_time_monotone(base: int, now1: int, now2: int)
    requires
        0 <= base <= now1 <= now2,
        (now2 - base) / 1_000_000 < 0x10000,
    ensures
        folded_time(now1 - base) <= folded_time(now2 - base),
{
    vstd::arithmetic::div_mod::lemma_div_is_ordered(now1 - base, now2 - base, 1_000_000);
    lemma_folded_time_value(now1 - base);
    lemma_folded_time_value(now2 - base);
    vstd::arithmetic::div_mod::lemma_div_is_ordered(now1 - base, now2 - base, 1000);
}

/// Task Control Block: the kernel's per-task state record.
pub struct TaskControlBlock {
    /// Stable integer handle, equal to the slot index; immutable.
    pub task_id: usize,
    /// Current life-cycle status.
    pub task_status: TaskStatus,
    /// Opaque register snapshot, owned by this slot, written only by the
    /// external context-switch primitive.
    pub task_cx: TaskContext,
    /// Per-syscall-id invocation counts, one slot per recognized id.
    pub syscall_times: Vec<u32>,
    /// Accounting baseline: clock reading at first scheduling.
    pub time: usize,
}

impl TaskControlBlock {
    /// Well-formedness: the accounting table has exactly one slot per
    /// possible syscall id.
    pub open spec fn wf(&self) -> bool {
        self.syscall_times@.len() == MAX_SYSCALL_NUM
    }

    /// A fresh Ready task in slot `task_id`: zeroed accounting and context.
    pub fn new(task_id: usize) -> (r: Self)
        ensures
            r.wf(),
            r.task_id == task_id,
            r.task_status is Ready,
            r.task_cx == (TaskContext { ra: 0, sp: 0 }),
            r.time == 0,
            forall|k: int| 0 <= k < MAX_SYSCALL_NUM ==> r.syscall_times@[k] == 0u32,
    {
        let mut syscall_times: Vec<u32> = Vec::new();
        let mut k: usize = 0;
        while k < MAX_SYSCALL_NUM
            invariant
                k <= MAX_SYSCALL_NUM,
                syscall_times@.len() == k,
                forall|j: int| 0 <= j < k ==> syscall_times@[j] == 0u32,
            decreases MAX_SYSCALL_NUM - k,
        {
            syscall_times.push(0);
            k += 1;
        }
        TaskControlBlock {
            task_id,
            task_status: TaskStatus::Ready,
            task_cx: TaskContext::zero_init(),
            syscall_times,
            time: 0,
        }
    }

    /// Status transition into Running; everything else is untouched.
    pub fn mark_running(&mut self)
        requires
            !(old(self).task_status is Exited),
        ensures
            *final(self) == (TaskControlBlock { task_status: TaskStatus::Running, ..*old(self) }),
    {
        self.task_status = TaskStatus::Running;
    }

    /// Status transition into Ready; everything else is untouched.
    pub fn mark_ready(&mut self)
        requires
            !(old(self).task_status is Exited),
        ensures
            *final(self) == (TaskControlBlock { task_status: TaskStatus::Ready, ..*old(self) }),
    {
        self.task_status = TaskStatus::Ready;
    }

    /// Status transition into Exited, the terminal status.
    pub fn mark_exited(&mut self)
        requires
            !(old(self).task_status is Exited),
        ensures
            *final(self) == (TaskControlBlock { task_status: TaskStatus::Exited, ..*old(self) }),
    {
        self.task_status = TaskStatus::Exited;
    }

    /// Count one invocation of syscall `id`: that one slot of the task's
    /// table goes up by one and nothing else changes.
    pub fn record_syscall(&mut self, id: usize)
        requires
            old(self).wf(),
            id < MAX_SYSCALL_NUM,
            old(self).syscall_times@[id as int] < u32::MAX,
        ensures
            final(self).wf(),
            final(self).syscall_times@ == old(self).syscall_times@.update(
                id as int,
                (old(self).syscall_times@[id as int] + 1) as u32,
            ),
            final(self).task_id == old(self).task_id,
            final(self).task_status == old(self).task_status,
            final(self).task_cx == old(self).task_cx,
            final(self).time == old(self).time,
    {
        let count = self.syscall_times[id];
        self.syscall_times.set(id, count + 1);
    }

    /// Elapsed-time figure for the task at clock reading `now`, in the
    /// folded millisecond form of [`folded_time`].
    pub fn elapsed_time(&self, now: usize) -> (ms: usize)
        requires
            self.time <= now,
        ensures
            ms == folded_time(now - self.time),
    {
        let us = now - self.time;
        let sec = us / MICRO_PER_SEC;
        let usec = us % MICRO_PER_SEC;
        let sec_low = sec & 0xffff;
        assert(sec_low == sec % 0x10000) by (bit_vector)
            requires
                sec_low == sec & 0xffff,
        ;
        sec_low * 1000 + usec / 1000
    }
}

} // verus!
