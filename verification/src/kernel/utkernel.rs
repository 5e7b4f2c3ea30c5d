//! The uT-Kernel compatibility layer: tables for tasks and fixed-size
//! memory pools behind the classic task and pool entry points.  No stack
//! or pool storage is wired to real memory yet, so the creation calls
//! report failure; the lookup and release calls work on the tables.

use crate::kernel::task::{TaskId, TaskPriority};
use vstd::prelude::*;

verus! {

/// A task record of the compatibility layer; `stk` holds the stack's
/// address as a plain number.
#[derive(Debug, Clone, Copy, PartialEq, Eq, Structural)]
pub struct UTKernelTask {
    pub tskid: TaskId,
    pub itskpri: TaskPriority,
    pub stksz: usize,
    pub stk: usize,
}

/// A fixed-size memory pool record; `mpf` holds the pool's address as a
/// plain number.
#[derive(Debug, Clone, Copy, PartialEq, Eq, Structural)]
pub struct UTKernelMemory {
    pub mpfid: usize,
    pub blksz: usize,
    pub blkcnt: usize,
    pub mpf: usize,
}

/// The compatibility layer: task and pool tables with their id counters.
pub struct UTKernelLayer {
    tasks: [Option<UTKernelTask>; 32],
    memory_pools: [Option<UTKernelMemory>; 16],
    next_task_id: usize,
    next_pool_id: usize,
}

/// Slot `i` holds the task with the given id.
pub open spec fn ut_task_at(s: Seq<Option<UTKernelTask>>, i: int, task_id: TaskId) -> bool {
    &&& 0 <= i < s.len()
    &&& s[i] matches Some(t) && t.tskid == task_id
}

/// Slot `i` holds the pool with the given id.
pub open spec fn ut_pool_at(s: Seq<Option<UTKernelMemory>>, i: int, pool_id: usize) -> bool {
    &&& 0 <= i < s.len()
    &&& s[i] matches Some(p) && p.mpfid == pool_id
}

impl UTKernelLayer {
    /// The task table.
    pub closed spec fn task_slots(&self) -> Seq<Option<UTKernelTask>> {
        self.tasks@
    }

    /// The pool table.
    pub closed spec fn pool_slots(&self) -> Seq<Option<UTKernelMemory>> {
        self.memory_pools@
    }

    /// Create a layer with empty tables.
    pub fn new() -> (r: Self)
        ensures
            forall|i: int| 0 <= i < 32 ==> r.task_slots()[i] is None,
            forall|i: int| 0 <= i < 16 ==> r.pool_slots()[i] is None,
    {
        Self { tasks: [None; 32], memory_pools: [None; 16], next_task_id: 0, next_pool_id: 0 }
    }

    /// Create a task.  No stack region is wired to real memory yet, so
    /// the stack address stays empty and creation always reports failure.
    pub fn create_task(
        &mut self,
        _priority: TaskPriority,
        _stack_size: usize,
        _entry_point: usize,
    ) -> (r: Option<TaskId>)
        ensures
            r is None,
            *final(self) == *old(self),
    {
        let stack: usize = 0;
        if stack == 0 {
            return None;
        }
        None
    }

    /// Report whether the task with the given id exists.
    pub fn start_task(&mut self, task_id: TaskId) -> (r: bool)
        ensures
            *final(self) == *old(self),
            r == exists|i: int| ut_task_at(old(self).task_slots(), i, task_id),
    {
        let mut i: usize = 0;
        while i < 32
            invariant
                *self == *old(self),
                self.task_slots().len() == 32,
                0 <= i <= 32,
                forall|j: int| 0 <= j < i ==> !ut_task_at(self.task_slots(), j, task_id),
            decreases 32 - i,
        {
            match &self.tasks[i] {
                Some(task) => {
                    if task.tskid == task_id {
                        proof {
                            assert(ut_task_at(self.task_slots(), i as int, task_id));
                        }
                        return true;
                    }
                },
                None => {},
            }
            i = i + 1;
        }
        false
    }

    /// Clear the first slot holding the task with the given id.  Reports
    /// whether such a task existed.
    pub fn exit_task(&mut self, task_id: TaskId) -> (r: bool)
        ensures
            r == exists|i: int| ut_task_at(old(self).task_slots(), i, task_id),
            r ==> exists|i: int|
                ut_task_at(old(self).task_slots(), i, task_id) && final(self).task_slots()
                    =~= old(self).task_slots().update(i, None) && (forall|j: int|
                    0 <= j < i ==> !ut_task_at(old(self).task_slots(), j, task_id)),
            !r ==> *final(self) == *old(self),
            final(self).pool_slots() == old(self).pool_slots(),
    {
        let mut i: usize = 0;
        while i < 32
            invariant
                *self == *old(self),
                self.task_slots().len() == 32,
                0 <= i <= 32,
                forall|j: int| 0 <= j < i ==> !ut_task_at(self.task_slots(), j, task_id),
            decreases 32 - i,
        {
            match &self.tasks[i] {
                Some(task) => {
                    if task.tskid == task_id {
                        proof {
                            assert(ut_task_at(self.task_slots(), i as int, task_id));
                        }
                        self.tasks[i] = None;
                        return true;
                    }
                },
                None => {},
            }
            i = i + 1;
        }
        false
    }

    /// Create a fixed-size memory pool.  No pool storage is wired to real
    /// memory yet, so the address stays empty and creation always reports
    /// failure.
    pub fn create_memory_pool(&mut self, block_size: usize, block_count: usize) -> (r: Option<
        usize,
    >)
        requires
            block_size * block_count <= usize::MAX,
        ensures
            r is None,
            *final(self) == *old(self),
    {
        let _total_size = block_size * block_count;
        let memory: usize = 0;
        if memory == 0 {
            return None;
        }
        None
    }

    /// Hand out the block address of the pool with the given id.
    pub fn get_memory_block(&mut self, pool_id: usize) -> (r: Option<usize>)
        ensures
            *final(self) == *old(self),
            r is Some <==> exists|i: int| ut_pool_at(old(self).pool_slots(), i, pool_id),
            r matches Some(addr) ==> exists|i: int|
                ut_pool_at(old(self).pool_slots(), i, pool_id) && addr
                    == old(self).pool_slots()[i]->0.mpf && (forall|j: int|
                    0 <= j < i ==> !ut_pool_at(old(self).pool_slots(), j, pool_id)),
    {
        let mut i: usize = 0;
        while i < 16
            invariant
                *self == *old(self),
                self.pool_slots().len() == 16,
                0 <= i <= 16,
                forall|j: int| 0 <= j < i ==> !ut_pool_at(self.pool_slots(), j, pool_id),
            decreases 16 - i,
        {
            match &self.memory_pools[i] {
                Some(pool) => {
                    if pool.mpfid == pool_id {
                        proof {
                            assert(ut_pool_at(self.pool_slots(), i as int, pool_id));
                        }
                        return Some(pool.mpf);
                    }
                },
                None => {},
            }
            i = i + 1;
        }
        None
    }

    /// Return a block to its pool.  Blocks are not tracked individually
    /// yet, so the release always succeeds.
    pub fn release_memory_block(&mut self, _pool_id: usize, _block: usize) -> (r: bool)
        ensures
            r,
            *final(self) == *old(self),
    {
        true
    }
}

} // verus!
