//! Task management: a fixed table of tasks and a priority-scan scheduler.
//! No context switch is wired to real CPU state; the scheduler only picks
//! the next task and marks it running.

use vstd::prelude::*;

verus! {

/// State of a task.
#[derive(Debug, Clone, Copy, PartialEq, Eq, Structural)]
pub enum TaskState {
    Ready,
    Running,
    Waiting,
    Suspended,
    Dormant,
}

/// Priority of a task; larger is more urgent.
pub type TaskPriority = u8;

/// Identifier of a task, its slot in the table.
pub type TaskId = usize;

/// One task: its identity, state, priority, stack and entry address.
#[derive(Debug, Clone, Copy, PartialEq, Eq, Structural)]
pub struct Task {
    pub id: TaskId,
    pub state: TaskState,
    pub priority: TaskPriority,
    pub stack_pointer: usize,
    pub stack_size: usize,
    pub entry_point: usize,
}

/// The task manager: a fixed table of 32 tasks, the running task, and the
/// next id to hand out.
pub struct TaskManager {
    tasks: [Option<Task>; 32],
    current_task: Option<TaskId>,
    next_task_id: usize,
}

/// Slot `i` is ready to run with a positive priority.
pub open spec fn slot_ready(s: Seq<Option<Task>>, i: int) -> bool {
    &&& 0 <= i < s.len()
    &&& s[i] matches Some(t) && t.state == TaskState::Ready && t.priority > 0
}

/// Slot `i` is the scheduler's pick: the first ready task of maximal
/// positive priority.
pub open spec fn sched_pick(s: Seq<Option<Task>>, i: int) -> bool {
    &&& slot_ready(s, i)
    &&& (forall|j: int| slot_ready(s, j) ==> s[j]->0.priority <= s[i]->0.priority)
    &&& (forall|j: int| 0 <= j < i && slot_ready(s, j) ==> s[j]->0.priority < s[i]->0.priority)
}

impl TaskManager {
    /// The task table.
    pub closed spec fn slots(&self) -> Seq<Option<Task>> {
        self.tasks@
    }

    /// The running task's id, if one was scheduled.
    pub closed spec fn current(&self) -> Option<TaskId> {
        self.current_task
    }

    /// The next id to hand out.
    pub closed spec fn next_id(&self) -> usize {
        self.next_task_id
    }

    /// Ids start at 1 and every stored task sits in its own slot.
    pub open spec fn wf(&self) -> bool {
        &&& self.next_id() >= 1
        &&& self.slots().len() == 32
        &&& (forall|i: int|
            0 <= i < 32 && #[trigger] self.slots()[i] is Some ==> self.slots()[i]->0.id == i)
    }

    /// Create a manager with an empty table.
    pub fn new() -> (r: Self)
        ensures
            r.wf(),
            forall|i: int| 0 <= i < 32 ==> r.slots()[i] is None,
            r.current() is None,
            r.next_id() == 1,
    {
        Self { tasks: [None; 32], current_task: None, next_task_id: 1 }
    }

    /// Create a task at the next free id.  The id counter always moves;
    /// creation succeeds exactly while the counter is below the table's
    /// size, and the new task starts ready with an empty stack pointer.
    pub fn create_task(&mut self, priority: TaskPriority, stack_size: usize, entry_point: usize)
        -> (r: Option<TaskId>)
        requires
            old(self).wf(),
            old(self).next_id() < usize::MAX,
        ensures
            final(self).wf(),
            final(self).next_id() == old(self).next_id() + 1,
            final(self).current() == old(self).current(),
            r is Some <==> old(self).next_id() < 32,
            r matches Some(id) ==> {
                &&& id == old(self).next_id()
                &&& final(self).slots() =~= old(self).slots().update(
                    id as int,
                    Some(
                        (Task {
                            id,
                            state: TaskState::Ready,
                            priority,
                            stack_pointer: 0,
                            stack_size,
                            entry_point,
                        }),
                    ),
                )
            },
            r is None ==> final(self).slots() =~= old(self).slots(),
    {
        let task_id = self.next_task_id;
        self.next_task_id = self.next_task_id + 1;
        if task_id >= 32 {
            return None;
        }
        let task = Task {
            id: task_id,
            state: TaskState::Ready,
            priority,
            stack_pointer: 0,
            stack_size,
            entry_point,
        };
        self.tasks[task_id] = Some(task);
        Some(task_id)
    }

    /// Mark a task ready.  Reports whether the slot held a task.
    pub fn start_task(&mut self, task_id: TaskId) -> (r: bool)
        requires
            old(self).wf(),
            task_id < 32,
        ensures
            final(self).wf(),
            final(self).next_id() == old(self).next_id(),
            final(self).current() == old(self).current(),
            r == old(self).slots()[task_id as int] is Some,
            r ==> final(self).slots() =~= old(self).slots().update(
                task_id as int,
                Some((Task { state: TaskState::Ready, ..old(self).slots()[task_id as int]->0 })),
            ),
            !r ==> final(self).slots() =~= old(self).slots(),
    {
        match self.tasks[task_id] {
            Some(task) => {
                self.tasks[task_id] = Some(Task { state: TaskState::Ready, ..task });
                true
            },
            None => false,
        }
    }

    /// Mark a task dormant.  Reports whether the slot held a task.
    pub fn exit_task(&mut self, task_id: TaskId) -> (r: bool)
        requires
            old(self).wf(),
            task_id < 32,
        ensures
            final(self).wf(),
            final(self).next_id() == old(self).next_id(),
            final(self).current() == old(self).current(),
            r == old(self).slots()[task_id as int] is Some,
            r ==> final(self).slots() =~= old(self).slots().update(
                task_id as int,
                Some((Task { state: TaskState::Dormant, ..old(self).slots()[task_id as int]->0 })),
            ),
            !r ==> final(self).slots() =~= old(self).slots(),
    {
        match self.tasks[task_id] {
            Some(task) => {
                self.tasks[task_id] = Some(Task { state: TaskState::Dormant, ..task });
                true
            },
            None => false,
        }
    }

    /// Schedule: pick the first ready task of maximal positive priority,
    /// make it the running task and mark it running.  Without such a task
    /// nothing changes.
    pub fn schedule(&mut self)
        requires
            old(self).wf(),
        ensures
            final(self).wf(),
            final(self).next_id() == old(self).next_id(),
            (exists|i: int| slot_ready(old(self).slots(), i)) ==> exists|i: int|
                {
                    &&& sched_pick(old(self).slots(), i)
                    &&& final(self).current() == Some(i as TaskId)
                    &&& final(self).slots() =~= old(self).slots().update(
                        i,
                        Some((Task { state: TaskState::Running, ..old(self).slots()[i]->0 })),
                    )
                },
            !(exists|i: int| slot_ready(old(self).slots(), i)) ==> *final(self) == *old(self),
    {
        let mut highest_priority: u8 = 0;
        let mut next_task: Option<usize> = None;
        let mut i: usize = 0;
        while i < 32
            invariant
                *self == *old(self),
                self.wf(),
                0 <= i <= 32,
                next_task is None ==> highest_priority == 0 && (forall|j: int|
                    0 <= j < i ==> !slot_ready(self.slots(), j)),
                next_task matches Some(p) ==> {
                    &&& 0 <= p < i
                    &&& slot_ready(self.slots(), p as int)
                    &&& self.slots()[p as int]->0.priority == highest_priority
                    &&& (forall|j: int|
                        0 <= j < i && slot_ready(self.slots(), j) ==> self.slots()[j]->0.priority
                            <= highest_priority)
                    &&& (forall|j: int|
                        0 <= j < p && slot_ready(self.slots(), j) ==> self.slots()[j]->0.priority
                            < highest_priority)
                },
            decreases 32 - i,
        {
            match self.tasks[i] {
                Some(task) => {
                    if matches!(task.state, TaskState::Ready) && task.priority > highest_priority {
                        highest_priority = task.priority;
                        next_task = Some(i);
                    }
                },
                None => {},
            }
            i = i + 1;
        }
        match next_task {
            Some(task_id) => {
                proof {
                    assert(sched_pick(self.slots(), task_id as int));
                }
                self.current_task = Some(task_id);
                match self.tasks[task_id] {
                    Some(task) => {
                        self.tasks[task_id] = Some(Task { state: TaskState::Running, ..task });
                    },
                    None => {},
                }
            },
            None => {},
        }
    }

    /// The running task's id, if one was scheduled.
    pub fn get_current_task(&self) -> (r: Option<TaskId>)
        ensures
            r == self.current(),
    {
        self.current_task
    }
}

} // verus!
