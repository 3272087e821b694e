//! The engine state and the queue of tasks that run against it one at a time.

use vstd::prelude::*;

use crate::attributes::OpAttributesWithParent;
use crate::block::{B256, L2BlockInfo};
use crate::consolidate::{ConsolidateTask, L2Block};

verus! {

/// The heads of the L2 chain as the engine knows them.
#[derive(Clone, Copy, Debug)]
pub struct EngineState {
    /// The most recent block observed, safe or not.
    pub unsafe_head: L2BlockInfo,
    /// The most recent block whose cross-chain dependencies are unsafe-valid.
    pub cross_unsafe_head: L2BlockInfo,
    /// The most recent block derived from L1, before cross-chain checks.
    pub local_safe_head: L2BlockInfo,
    /// The most recent block derived from L1.
    pub safe_head: L2BlockInfo,
    /// The most recent block derived from finalized L1 data.
    pub finalized_head: L2BlockInfo,
    /// An unsafe head kept aside during a reorg of the unsafe chain.
    pub backup_unsafe_head: Option<L2BlockInfo>,
    /// Whether the execution client has finished syncing.
    pub el_sync_finished: bool,
}

/// The heads are ordered by number: finalized, safe, local safe, cross unsafe, unsafe.
pub open spec fn heads_ordered(s: EngineState) -> bool {
    &&& s.finalized_head.block_info.number <= s.safe_head.block_info.number
    &&& s.safe_head.block_info.number <= s.local_safe_head.block_info.number
    &&& s.local_safe_head.block_info.number <= s.cross_unsafe_head.block_info.number
    &&& s.cross_unsafe_head.block_info.number <= s.unsafe_head.block_info.number
}

impl Default for EngineState {
    fn default() -> (r: EngineState)
        ensures
            r.unsafe_head.block_info.number == 0,
            r.safe_head.block_info.number == 0,
            heads_ordered(r),
            r.backup_unsafe_head is None,
            !r.el_sync_finished,
    {
        EngineState {
            unsafe_head: L2BlockInfo::default(),
            cross_unsafe_head: L2BlockInfo::default(),
            local_safe_head: L2BlockInfo::default(),
            safe_head: L2BlockInfo::default(),
            finalized_head: L2BlockInfo::default(),
            backup_unsafe_head: None,
            el_sync_finished: false,
        }
    }
}

impl EngineState {
    /// Returns the unsafe head.
    pub fn unsafe_head(&self) -> (r: L2BlockInfo)
        ensures
            r == self.unsafe_head,
    {
        self.unsafe_head
    }

    /// Returns the safe head.
    pub fn safe_head(&self) -> (r: L2BlockInfo)
        ensures
            r == self.safe_head,
    {
        self.safe_head
    }

    /// Returns the finalized head.
    pub fn finalized_head(&self) -> (r: L2BlockInfo)
        ensures
            r == self.finalized_head,
    {
        self.finalized_head
    }

    /// Sets the unsafe head.
    pub fn set_unsafe_head(&mut self, head: L2BlockInfo)
        ensures
            *final(self) == (EngineState { unsafe_head: head, ..*old(self) }),
    {
        self.unsafe_head = head;
    }

    /// Sets the cross unsafe head.
    pub fn set_cross_unsafe_head(&mut self, head: L2BlockInfo)
        ensures
            *final(self) == (EngineState { cross_unsafe_head: head, ..*old(self) }),
    {
        self.cross_unsafe_head = head;
    }

    /// Sets the local safe head.
    pub fn set_local_safe_head(&mut self, head: L2BlockInfo)
        ensures
            *final(self) == (EngineState { local_safe_head: head, ..*old(self) }),
    {
        self.local_safe_head = head;
    }

    /// Sets the safe head.
    pub fn set_safe_head(&mut self, head: L2BlockInfo)
        ensures
            *final(self) == (EngineState { safe_head: head, ..*old(self) }),
    {
        self.safe_head = head;
    }

    /// Sets the finalized head.
    pub fn set_finalized_head(&mut self, head: L2BlockInfo)
        ensures
            *final(self) == (EngineState { finalized_head: head, ..*old(self) }),
    {
        self.finalized_head = head;
    }
}

/// A block received from the network, to be inserted as the new tip.
#[derive(Clone, Debug)]
pub struct InsertUnsafeTask {
    /// The hash the network announced for the payload.
    pub payload_hash: B256,
    /// The block carried by the payload.
    pub block: L2Block,
}

/// Attributes to be built into a block on top of their parent.
#[derive(Clone, Debug)]
pub struct BuildTask {
    /// The attributes.
    pub attributes: OpAttributesWithParent,
    /// Whether the attributes were derived from L1 rather than sequenced locally.
    pub is_attributes_derived: bool,
}

/// A unit of work against the engine.
#[derive(Clone, Debug)]
pub enum EngineTask {
    /// Insert a block received from the network.
    InsertUnsafe(InsertUnsafeTask),
    /// Reconcile derived attributes with the unsafe chain.
    Consolidate(ConsolidateTask),
    /// Build a block from attributes.
    Build(BuildTask),
    /// Send the current heads to the execution client.
    Forkchoice,
}

/// How a failed task affects the engine.
#[derive(Clone, Copy, Debug, PartialEq, Eq, Structural)]
pub enum EngineTaskError {
    /// Log and go on.
    Temporary,
    /// Stop the engine.
    Critical,
    /// The execution client reported an inconsistent chain: the engine must be reset.
    Reset,
    /// A payload was invalid: the derivation pipeline must flush its channel.
    Flush,
}

/// The engine: its state and the tasks waiting to run against it, in the order they came.
pub struct Engine {
    state: EngineState,
    tasks: Vec<EngineTask>,
}

impl Engine {
    /// The engine state that every task reads and changes in turn.
    pub closed spec fn spec_state(&self) -> EngineState {
        self.state
    }

    /// Returns the engine state.
    pub fn state(&self) -> (r: EngineState)
        ensures
            r == self.spec_state(),
    {
        self.state
    }

    /// Replaces the engine state with the one a task left.
    pub fn set_state(&mut self, state: EngineState)
        ensures
            final(self).spec_state() == state,
            final(self).queue() == old(self).queue(),
    {
        self.state = state;
    }

    /// The waiting tasks, oldest first.
    pub closed spec fn queue(&self) -> Seq<EngineTask> {
        self.tasks@
    }

    /// Creates an engine with the given state and no tasks.
    pub fn new(state: EngineState) -> (r: Engine)
        ensures
            r.spec_state() == state,
            r.queue() == Seq::<EngineTask>::empty(),
    {
        Engine { state, tasks: Vec::new() }
    }

    /// Adds a task behind every waiting one.
    pub fn enqueue(&mut self, task: EngineTask)
        ensures
            final(self).queue() == old(self).queue().push(task),
            final(self).spec_state() == old(self).spec_state(),
    {
        self.tasks.push(task);
    }

    /// Returns the number of waiting tasks.
    pub fn len(&self) -> (r: usize)
        ensures
            r == self.queue().len(),
    {
        self.tasks.len()
    }

    /// Takes the oldest waiting task out of the queue. The state is left as the previous
    /// task left it.
    pub fn next_task(&mut self) -> (r: Option<EngineTask>)
        ensures
            final(self).spec_state() == old(self).spec_state(),
            old(self).queue().len() == 0 ==> r is None && final(self).queue() == old(self).queue(),
            old(self).queue().len() > 0 ==> r == Some(old(self).queue()[0]) && final(self).queue()
                == old(self).queue().drop_first(),
    {
        if self.tasks.len() == 0 {
            return None;
        }
        let t = self.tasks.remove(0);
        assert(self.tasks@ =~= old(self).tasks@.drop_first());
        Some(t)
    }
}

/// Tasks leave the queue in the order they were enqueued: after `t1` and then `t2` join a
/// queue, taking tasks out yields the tasks that waited before, then `t1`, then `t2`; and the
/// state passed on from one task to the next is not touched in between.
pub proof fn lemma_tasks_in_order(q: Seq<EngineTask>, t1: EngineTask, t2: EngineTask)
    ensures
        q.push(t1).push(t2).skip(q.len() as int)[0] == t1,
        q.push(t1).push(t2).skip(q.len() as int).drop_first()[0] == t2,
        q.push(t1).push(t2).skip(q.len() as int).len() == 2,
{
}

} // verus!
