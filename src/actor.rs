//! The engine actor's policy: which inbound port it serves first, and what each inbound event
//! makes it do. Awaiting the ports and carrying out the actions is left to the caller.

use vstd::prelude::*;

use crate::attributes::OpAttributesWithParent;
use crate::block::{B256, L2BlockInfo};
use crate::config::RollupConfig;
use crate::consolidate::ConsolidateTask;
use crate::engine::{Engine, EngineTask, EngineTaskError, InsertUnsafeTask};

verus! {

/// The engine actor's inbound ports, from the first served to the last.
#[derive(Clone, Copy, Debug, PartialEq, Eq, Structural)]
pub enum Inbound {
    /// The node is shutting down.
    Cancellation,
    /// A reset was requested.
    ResetRequest,
    /// A block arrived from the network.
    UnsafeBlock,
    /// Derived attributes arrived.
    Attributes,
    /// A runtime configuration arrived.
    RuntimeConfig,
    /// The task queue can be drained.
    Drain,
}

/// Which inbound ports have something ready.
#[derive(Clone, Copy, Debug)]
pub struct Readiness {
    /// Cancellation was signalled.
    pub cancelled: bool,
    /// A reset request is ready.
    pub reset_request: bool,
    /// An unsafe block is ready.
    pub unsafe_block: bool,
    /// Attributes are ready.
    pub attributes: bool,
    /// A runtime configuration is ready.
    pub runtime_config: bool,
    /// The drain can make progress.
    pub drain: bool,
}

/// Picks the port to serve: the first ready one in the fixed priority order.
pub fn select_inbound(r: &Readiness) -> (res: Option<Inbound>)
    ensures
        res == if r.cancelled {
            Some(Inbound::Cancellation)
        } else if r.reset_request {
            Some(Inbound::ResetRequest)
        } else if r.unsafe_block {
            Some(Inbound::UnsafeBlock)
        } else if r.attributes {
            Some(Inbound::Attributes)
        } else if r.runtime_config {
            Some(Inbound::RuntimeConfig)
        } else if r.drain {
            Some(Inbound::Drain)
        } else {
            None
        },
{
    if r.cancelled {
        Some(Inbound::Cancellation)
    } else if r.reset_request {
        Some(Inbound::ResetRequest)
    } else if r.unsafe_block {
        Some(Inbound::UnsafeBlock)
    } else if r.attributes {
        Some(Inbound::Attributes)
    } else if r.runtime_config {
        Some(Inbound::RuntimeConfig)
    } else if r.drain {
        Some(Inbound::Drain)
    } else {
        None
    }
}

/// The protocol versions a runtime configuration recommends and requires.
#[derive(Clone, Copy, Debug)]
pub struct RuntimeConfig {
    /// The recommended protocol version, encoded.
    pub recommended_protocol_version: B256,
    /// The required protocol version, encoded.
    pub required_protocol_version: B256,
}

/// An event taken from one inbound port; `None` or `false` where the port was closed.
#[derive(Debug)]
pub enum ActorEvent {
    /// Cancellation was signalled.
    Cancelled,
    /// A reset request, or `false` when its port closed.
    ResetRequest(bool),
    /// A network block, or `None` when its port closed.
    UnsafeBlock(Option<InsertUnsafeTask>),
    /// Derived attributes, or `None` when their port closed.
    Attributes(Option<OpAttributesWithParent>),
    /// A runtime configuration.
    RuntimeConfig(RuntimeConfig),
    /// The outcome of draining the task queue.
    Drained(Result<(), EngineTaskError>),
}

/// What the actor must do after an event.
#[derive(Clone, Copy, Debug)]
pub enum ActorAction {
    /// Stop the query task and return.
    Shutdown,
    /// A mandatory port closed: cancel the node and fail.
    CloseNode,
    /// Reset the engine and signal the reset to derivation.
    Reset,
    /// A task was enqueued for a network block: check whether syncing finished.
    CheckSync,
    /// A task was enqueued; nothing more to do.
    Continue,
    /// Send the superchain signal with these versions; a failure is only a warning.
    SignalSuperchain(RuntimeConfig),
    /// Tell derivation to flush its channel, then publish the safe head.
    SendFlush,
    /// Warn about a failed drain, then publish the safe head.
    Warn,
    /// Publish the safe head.
    PublishSafeHead,
}

/// An error of the engine actor.
#[derive(Clone, Copy, Debug, PartialEq, Eq, Structural)]
pub enum EngineError {
    /// A port the actor needs was closed.
    ChannelClosed,
    /// Resetting the engine failed.
    EngineReset,
}

/// The engine actor: the engine and the configuration its tasks are built with.
pub struct EngineActor {
    /// The rollup configuration.
    pub config: RollupConfig,
    /// The engine.
    pub engine: Engine,
}

impl EngineActor {
    /// Creates an actor over an engine.
    pub fn new(config: RollupConfig, engine: Engine) -> (r: EngineActor)
        ensures
            r.config == config,
            r.engine == engine,
    {
        EngineActor { config, engine }
    }

    /// Handles one inbound event. Network blocks become insert tasks and derived attributes
    /// become consolidate tasks, both at the back of the queue.
    pub fn handle(&mut self, event: ActorEvent) -> (r: ActorAction)
        ensures
            final(self).config == old(self).config,
            final(self).engine.spec_state() == old(self).engine.spec_state(),
            match event {
                ActorEvent::UnsafeBlock(Some(t)) => final(self).engine.queue() == old(self).engine.queue().push(
                    EngineTask::InsertUnsafe(t),
                ),
                ActorEvent::Attributes(Some(a)) => final(self).engine.queue() == old(self).engine.queue().push(
                    EngineTask::Consolidate(ConsolidateTask { attributes: a, is_attributes_derived: true }),
                ),
                _ => final(self).engine.queue() == old(self).engine.queue(),
            },
            r == match event {
                ActorEvent::Cancelled => ActorAction::Shutdown,
                ActorEvent::ResetRequest(true) => ActorAction::Reset,
                ActorEvent::UnsafeBlock(Some(_)) => ActorAction::CheckSync,
                ActorEvent::Attributes(Some(_)) => ActorAction::Continue,
                ActorEvent::ResetRequest(false) | ActorEvent::UnsafeBlock(None) | ActorEvent::Attributes(
                    None,
                ) => ActorAction::CloseNode,
                ActorEvent::RuntimeConfig(c) => ActorAction::SignalSuperchain(c),
                ActorEvent::Drained(Ok(())) => ActorAction::PublishSafeHead,
                ActorEvent::Drained(Err(EngineTaskError::Reset)) => ActorAction::Reset,
                ActorEvent::Drained(Err(EngineTaskError::Flush)) => ActorAction::SendFlush,
                ActorEvent::Drained(Err(_)) => ActorAction::Warn,
            },
    {
        match event {
            ActorEvent::Cancelled => ActorAction::Shutdown,
            ActorEvent::ResetRequest(open) => {
                if open {
                    ActorAction::Reset
                } else {
                    ActorAction::CloseNode
                }
            },
            ActorEvent::UnsafeBlock(Some(t)) => {
                self.engine.enqueue(EngineTask::InsertUnsafe(t));
                ActorAction::CheckSync
            },
            ActorEvent::Attributes(Some(a)) => {
                let task = ConsolidateTask::new(a, true);
                self.engine.enqueue(EngineTask::Consolidate(task));
                ActorAction::Continue
            },
            ActorEvent::UnsafeBlock(None) | ActorEvent::Attributes(None) => ActorAction::CloseNode,
            ActorEvent::RuntimeConfig(c) => ActorAction::SignalSuperchain(c),
            ActorEvent::Drained(res) => match res {
                Ok(()) => ActorAction::PublishSafeHead,
                Err(EngineTaskError::Reset) => ActorAction::Reset,
                Err(EngineTaskError::Flush) => ActorAction::SendFlush,
                Err(_) => ActorAction::Warn,
            },
        }
    }

    /// Whether the initial reset is due: derivation has not been told that syncing is
    /// complete, and the execution client has finished syncing.
    pub fn check_sync(&self, sync_complete_closed: bool) -> (r: bool)
        ensures
            r == (!sync_complete_closed && self.engine.spec_state().el_sync_finished),
    {
        !sync_complete_closed && self.engine.state().el_sync_finished
    }

    /// The outcome of a reset, given whether the reset signal reached derivation. When it did
    /// not, the node must be cancelled.
    pub fn reset_outcome(signal_sent: bool) -> (r: Result<(), EngineError>)
        ensures
            signal_sent ==> r is Ok,
            !signal_sent ==> r == Err::<(), EngineError>(EngineError::ChannelClosed),
    {
        if signal_sent {
            Ok(())
        } else {
            Err(EngineError::ChannelClosed)
        }
    }

    /// The safe head to publish, if it differs from the one last published.
    pub fn maybe_update_safe_head(&self, published: &L2BlockInfo) -> (r: Option<L2BlockInfo>)
        ensures
            published.spec_same_as(self.engine.spec_state().safe_head) ==> r is None,
            !published.spec_same_as(self.engine.spec_state().safe_head) ==> r == Some(
                self.engine.spec_state().safe_head,
            ),
    {
        let head = self.engine.state().safe_head();
        if published.same_as(&head) {
            None
        } else {
            Some(head)
        }
    }
}

} // verus!
