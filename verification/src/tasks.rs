//! Task table and dispatch: the fixed-capacity array of task control blocks,
//! the ready-set bitmask, the priority dispatch decision, and the
//! context-switch state machine.
//!
//! The kernel state is an explicit `TaskManager` value; the embedding owns the
//! single instance, keeps every mutation inside its critical section, and
//! performs the actual register transfer around `context_switch`: it captures
//! the running task's CPU state into a `Context` value before the call and
//! restores the returned `Context` after it.
use vstd::prelude::*;

use crate::MAX_TASKS;
use crate::errors::KernelError;
use crate::helpers::bit_set;
use crate::helpers::is_top_bit;
use crate::helpers::get_msb;
use crate::helpers::lemma_top_bit_unique;

verus! {

/// Opaque snapshot of a task's CPU execution state, held as a plain value:
/// the task's saved stack pointer, under which the register file sits in the
/// task's own stack. The kernel core stores and hands back snapshots but
/// never inspects them; capturing and restoring the machine registers is the
/// embedding's architecture-specific job.
#[derive(Clone, Copy, Debug, PartialEq, Eq, Structural)]
pub struct Context {
    /// The saved stack-pointer value.
    pub sp: usize,
}

/// Per-task record: the saved execution snapshot, the base address of the
/// stack region the creator supplied, and the address of the task's entry
/// function, run once on first dispatch. The task's id is its index in the
/// task table, so no two records can share an id.
#[derive(Clone, Copy, Debug, PartialEq, Eq, Structural)]
pub struct TaskControlBlock {
    /// Snapshot written while the task is preempted, read when it resumes.
    pub context: Context,
    /// Base address of the task's stack region, fixed for its lifetime.
    pub stack: usize,
    /// Address of the task's entry function.
    pub entry: usize,
}

/// The task table, ready set and dispatch bookkeeping.
pub struct TaskManager {
    /// Task records indexed by id; `None` marks a free slot.
    pub task_control_blocks: Vec<Option<TaskControlBlock>>,
    /// Bit `i` set means task `i` is eligible for dispatch.
    pub ready_mask: u32,
    /// Id of the task currently holding the CPU.
    pub curr_tid: usize,
    /// Id recorded by the latest dispatch decision.
    pub next_tid: usize,
    /// Clear until the first dispatch ever, which has no context to save.
    pub started: bool,
}

/// Outcome of a creation attempt against a given task table: ids outside the
/// table's capacity are refused with `CapacityExceeded`, occupied slots with
/// `DuplicateId`.
pub open spec fn create_outcome(
    tcbs: Seq<Option<TaskControlBlock>>,
    id: usize,
) -> Result<(), KernelError> {
    if id >= MAX_TASKS {
        Result::Err(KernelError::CapacityExceeded)
    } else if tcbs[id as int] is Some {
        Result::Err(KernelError::DuplicateId)
    } else {
        Result::Ok(())
    }
}

impl TaskManager {
    /// The table always holds one slot per possible id, and the dispatch
    /// bookkeeping points inside it.
    pub open spec fn wf(self) -> bool {
        &&& self.task_control_blocks@.len() == MAX_TASKS
        &&& self.curr_tid < MAX_TASKS
        &&& self.next_tid < MAX_TASKS
    }

    /// An empty kernel: no tasks, nothing ready, not yet started.
    pub fn new() -> (r: Self)
        ensures
            r.wf(),
            forall|j: int| 0 <= j < MAX_TASKS ==> r.task_control_blocks@[j] is None,
            r.ready_mask == 0,
            r.curr_tid == 0,
            r.next_tid == 0,
            !r.started,
    {
        let mut blocks: Vec<Option<TaskControlBlock>> = Vec::new();
        let mut i: usize = 0;
        while i < MAX_TASKS
            invariant
                i <= MAX_TASKS,
                blocks@.len() == i,
                forall|j: int| 0 <= j < i ==> blocks@[j] is None,
            decreases MAX_TASKS - i,
        {
            blocks.push(None);
            i = i + 1;
        }
        TaskManager {
            task_control_blocks: blocks,
            ready_mask: 0,
            curr_tid: 0,
            next_tid: 0,
            started: false,
        }
    }

    /// Registers a task under `id` with its stack region and entry function;
    /// must happen before the kernel starts accepting preemption. The slot is
    /// filled exactly when the outcome is `Ok`; a failed attempt leaves the
    /// whole table unchanged, and a slot once filled is never emptied, so a
    /// reused id is always refused with `DuplicateId`.
    pub fn create_task(&mut self, id: usize, stack: usize, entry: usize) -> (r: Result<
        (),
        KernelError,
    >)
        requires
            old(self).wf(),
        ensures
            final(self).wf(),
            r == create_outcome(old(self).task_control_blocks@, id),
            r is Ok ==> final(self).task_control_blocks@ == old(self).task_control_blocks@.update(
                id as int,
                Some(
                    (TaskControlBlock {
                        context: (Context { sp: stack }),
                        stack,
                        entry,
                    }),
                ),
            ),
            r is Err ==> final(self).task_control_blocks@ == old(self).task_control_blocks@,
            final(self).ready_mask == old(self).ready_mask,
            final(self).curr_tid == old(self).curr_tid,
            final(self).next_tid == old(self).next_tid,
            final(self).started == old(self).started,
    {
        if id >= MAX_TASKS {
            Err(KernelError::CapacityExceeded)
        } else if self.task_control_blocks[id].is_some() {
            Err(KernelError::DuplicateId)
        } else {
            let tcb = TaskControlBlock { context: Context { sp: stack }, stack, entry };
            self.task_control_blocks.set(id, Some(tcb));
            Ok(())
        }
    }

    /// Marks every task named in `tasks_mask` eligible to run. Pure state
    /// update: nothing happens to the running task until the next dispatch
    /// point, and no ready bit is ever cleared by a release.
    pub fn release(&mut self, tasks_mask: u32)
        ensures
            final(self).ready_mask == old(self).ready_mask | tasks_mask,
            forall|b: u32|
                bit_set(final(self).ready_mask, b) <==> (bit_set(old(self).ready_mask, b) || bit_set(
                    tasks_mask,
                    b,
                )),
            final(self).task_control_blocks@ == old(self).task_control_blocks@,
            final(self).curr_tid == old(self).curr_tid,
            final(self).next_tid == old(self).next_tid,
            final(self).started == old(self).started,
    {
        proof {
            let m = self.ready_mask;
            assert(forall|b: u32|
                b < 32 ==> (((m | tasks_mask) >> b) & 1u32 == 1u32 <==> ((m >> b) & 1u32 == 1u32
                    || (tasks_mask >> b) & 1u32 == 1u32))) by (bit_vector);
        }
        self.ready_mask = self.ready_mask | tasks_mask;
    }

    /// Dispatch decision: the ready task with the extreme set bit of the
    /// ready mask — under the convention that a task's id doubles as its
    /// priority — is selected, in constant time through the bit-scan
    /// primitive. An empty ready set is the kernel's fatal no-runnable-task
    /// condition; it is surfaced as `None` (this design has no implicit idle
    /// task), and the embedding must halt rather than dispatch.
    pub fn get_next_tid(&self) -> (r: Option<usize>)
        ensures
            match r {
                Some(t) => self.ready_mask != 0 && t < MAX_TASKS && is_top_bit(
                    self.ready_mask,
                    t as u32,
                ),
                None => self.ready_mask == 0,
            },
    {
        if self.ready_mask == 0 {
            None
        } else {
            Some(get_msb(self.ready_mask))
        }
    }

    /// Records the dispatch decision for the context-switch mechanism; it
    /// touches no CPU state itself. Returns whether a runnable task exists.
    /// Since the decision is a function of the ready mask alone, a second
    /// call with no state change records the same `next_tid` again, and a
    /// no-op reschedule is later recognized by `context_switch`.
    pub fn schedule(&mut self) -> (r: bool)
        requires
            old(self).wf(),
        ensures
            final(self).wf(),
            r == (old(self).ready_mask != 0),
            r ==> is_top_bit(old(self).ready_mask, final(self).next_tid as u32),
            !r ==> final(self).next_tid == old(self).next_tid,
            final(self).task_control_blocks@ == old(self).task_control_blocks@,
            final(self).ready_mask == old(self).ready_mask,
            final(self).curr_tid == old(self).curr_tid,
            final(self).started == old(self).started,
    {
        match self.get_next_tid() {
            Some(t) => {
                self.next_tid = t;
                true
            },
            None => false,
        }
    }

    /// The context-switch state machine, run by the lowest-priority exception
    /// inside the global critical section. `running` is the snapshot of the
    /// CPU state the preempted task was captured with; the returned snapshot,
    /// if any, is the one the embedding must restore before exception return.
    ///
    /// On the first dispatch ever there is no context to save: the kernel is
    /// marked started and the selected task's snapshot is handed out. On a
    /// reschedule to a different task, `running` is saved into the current
    /// task's record, the selected task's snapshot is handed out, and the
    /// selected task becomes current. When the selected task already runs,
    /// nothing is returned and the whole kernel state is left byte-for-byte
    /// unchanged — no redundant save/restore happens on a no-op reschedule.
    pub fn context_switch(&mut self, running: Context) -> (r: Option<Context>)
        requires
            old(self).wf(),
            old(self).task_control_blocks@[old(self).next_tid as int] is Some,
            old(self).started ==> old(self).task_control_blocks@[old(self).curr_tid as int]
                is Some,
        ensures
            final(self).wf(),
            !old(self).started ==> {
                &&& r == Some(
                    old(self).task_control_blocks@[old(self).next_tid as int]->Some_0.context,
                )
                &&& final(self).started
                &&& final(self).curr_tid == old(self).next_tid
                &&& final(self).task_control_blocks@ == old(self).task_control_blocks@
            },
            old(self).started && old(self).curr_tid != old(self).next_tid ==> {
                &&& r == Some(
                    old(self).task_control_blocks@[old(self).next_tid as int]->Some_0.context,
                )
                &&& final(self).started
                &&& final(self).curr_tid == old(self).next_tid
                &&& final(self).task_control_blocks@ == old(self).task_control_blocks@.update(
                    old(self).curr_tid as int,
                    Some(
                        (TaskControlBlock {
                            context: running,
                            ..old(self).task_control_blocks@[old(self).curr_tid as int]->Some_0
                        }),
                    ),
                )
            },
            old(self).started && old(self).curr_tid == old(self).next_tid ==> r is None && *final(self)
                == *old(self),
            final(self).ready_mask == old(self).ready_mask,
            final(self).next_tid == old(self).next_tid,
    {
        if !self.started {
            self.started = true;
            self.curr_tid = self.next_tid;
            let next = self.task_control_blocks[self.next_tid].as_ref().unwrap();
            Some(next.context)
        } else if self.curr_tid != self.next_tid {
            let curr = self.task_control_blocks[self.curr_tid].as_ref().unwrap();
            let saved = TaskControlBlock { context: running, stack: curr.stack, entry: curr.entry };
            self.task_control_blocks.set(self.curr_tid, Some(saved));
            self.curr_tid = self.next_tid;
            let next = self.task_control_blocks[self.next_tid].as_ref().unwrap();
            Some(next.context)
        } else {
            None
        }
    }

    /// Marks the running task exited: its ready bit is cleared, so it is
    /// never selected again (a task never returns to dormant; its slot stays
    /// occupied). The embedding follows this with a reschedule.
    pub fn task_exit(&mut self)
        requires
            old(self).wf(),
        ensures
            final(self).wf(),
            final(self).ready_mask == old(self).ready_mask & !(1u32 << (old(self).curr_tid as u32)),
            forall|b: u32|
                bit_set(final(self).ready_mask, b) <==> (bit_set(old(self).ready_mask, b) && b != old(
                    self,
                ).curr_tid as u32),
            final(self).task_control_blocks@ == old(self).task_control_blocks@,
            final(self).curr_tid == old(self).curr_tid,
            final(self).next_tid == old(self).next_tid,
            final(self).started == old(self).started,
    {
        proof {
            let m = self.ready_mask;
            let c = self.curr_tid as u32;
            assert(forall|b: u32|
                (b < 32 && c < 32) ==> (((m & !(1u32 << c)) >> b) & 1u32 == 1u32 <==> ((m >> b)
                    & 1u32 == 1u32 && b != c))) by (bit_vector);
        }
        self.ready_mask = self.ready_mask & !(1u32 << (self.curr_tid as u32));
    }
}

/// Task-id uniqueness: a creation that succeeds occupies its slot, and a
/// creation aimed at an occupied slot is refused with `DuplicateId`. No kernel
/// operation ever empties a slot, so over any sequence of `create_task` calls
/// no two succeed with the same id.
pub proof fn lemma_task_id_unique(
    tcbs: Seq<Option<TaskControlBlock>>,
    id: usize,
    tcb: TaskControlBlock,
)
    requires
        id < tcbs.len(),
        create_outcome(tcbs, id) is Ok,
    ensures
        create_outcome(tcbs.update(id as int, Some(tcb)), id) == Result::<(), KernelError>::Err(
            KernelError::DuplicateId,
        ),
{
}

/// Capacity: a task id at or beyond the configured maximum is refused with
/// `CapacityExceeded` whatever the table holds (and, by `create_task`'s
/// contract, the failed attempt leaves the table unchanged).
pub proof fn lemma_task_capacity(tcbs: Seq<Option<TaskControlBlock>>, id: usize)
    requires
        id >= MAX_TASKS,
    ensures
        create_outcome(tcbs, id) == Result::<(), KernelError>::Err(KernelError::CapacityExceeded),
{
}

/// Dispatch correctness: any task selected from a ready mask is a member of
/// the ready set, and the selection is deterministic — two selections from
/// the same mask agree.
pub proof fn lemma_dispatch_correct(mask: u32, t1: u32, t2: u32)
    requires
        is_top_bit(mask, t1),
        is_top_bit(mask, t2),
    ensures
        bit_set(mask, t1),
        t1 == t2,
{
    lemma_top_bit_unique(mask, t1, t2);
}

} // verus!
