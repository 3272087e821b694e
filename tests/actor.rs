use kona_node::actor::{
    select_inbound, ActorAction, ActorEvent, EngineActor, EngineError, Inbound, Readiness, RuntimeConfig,
};
use kona_node::attributes::{OpAttributesWithParent, PayloadAttributes};
use kona_node::block::L2BlockInfo;
use kona_node::config::RollupConfig;
use kona_node::consolidate::{BlockHeader, L2Block};
use kona_node::engine::{Engine, EngineState, EngineTask, EngineTaskError, InsertUnsafeTask};
use kona_node::metrics::{Metrics, Unit, DERIVATION_L1_ORIGIN, L1_REORG_COUNT};

fn none_ready() -> Readiness {
    Readiness {
        cancelled: false,
        reset_request: false,
        unsafe_block: false,
        attributes: false,
        runtime_config: false,
        drain: false,
    }
}

fn actor() -> EngineActor {
    let cfg = RollupConfig { fjord_time: None, holocene_time: None, interop_time: None };
    EngineActor::new(cfg, Engine::new(EngineState::default()))
}

fn unsafe_task() -> InsertUnsafeTask {
    InsertUnsafeTask {
        payload_hash: [3; 32],
        block: L2Block {
            header: BlockHeader {
                hash: [3; 32],
                number: 1,
                parent_hash: [0; 32],
                timestamp: 2,
                gas_limit: 1,
                beneficiary: [0; 20],
                mix_hash: [0; 32],
            },
            transactions: vec![],
        },
    }
}

fn attributes() -> OpAttributesWithParent {
    OpAttributesWithParent {
        inner: PayloadAttributes {
            timestamp: 2,
            prev_randao: [0; 32],
            suggested_fee_recipient: [0; 20],
            transactions: None,
            gas_limit: Some(1),
        },
        parent: L2BlockInfo::default(),
        is_last_in_span: true,
    }
}

#[test]
fn ports_are_served_in_priority_order() {
    let mut r = none_ready();
    assert_eq!(select_inbound(&r), None);
    r.drain = true;
    assert_eq!(select_inbound(&r), Some(Inbound::Drain));
    r.runtime_config = true;
    assert_eq!(select_inbound(&r), Some(Inbound::RuntimeConfig));
    r.attributes = true;
    assert_eq!(select_inbound(&r), Some(Inbound::Attributes));
    r.unsafe_block = true;
    assert_eq!(select_inbound(&r), Some(Inbound::UnsafeBlock));
    r.reset_request = true;
    assert_eq!(select_inbound(&r), Some(Inbound::ResetRequest));
    r.cancelled = true;
    assert_eq!(select_inbound(&r), Some(Inbound::Cancellation));
}

#[test]
fn inbound_blocks_and_attributes_become_tasks() {
    let mut a = actor();
    assert!(matches!(a.handle(ActorEvent::UnsafeBlock(Some(unsafe_task()))), ActorAction::CheckSync));
    assert!(matches!(a.handle(ActorEvent::Attributes(Some(attributes()))), ActorAction::Continue));
    assert_eq!(a.engine.len(), 2);
    assert!(matches!(a.engine.next_task(), Some(EngineTask::InsertUnsafe(_))));
    match a.engine.next_task() {
        Some(EngineTask::Consolidate(t)) => assert!(t.is_attributes_derived),
        _ => panic!("expected a consolidate task"),
    }
}

#[test]
fn closed_ports_close_the_node() {
    let mut a = actor();
    assert!(matches!(a.handle(ActorEvent::ResetRequest(false)), ActorAction::CloseNode));
    assert!(matches!(a.handle(ActorEvent::UnsafeBlock(None)), ActorAction::CloseNode));
    assert!(matches!(a.handle(ActorEvent::Attributes(None)), ActorAction::CloseNode));
    assert_eq!(a.engine.len(), 0);
}

#[test]
fn drain_outcomes_choose_the_follow_up() {
    let mut a = actor();
    assert!(matches!(a.handle(ActorEvent::Drained(Ok(()))), ActorAction::PublishSafeHead));
    assert!(matches!(a.handle(ActorEvent::Drained(Err(EngineTaskError::Reset))), ActorAction::Reset));
    assert!(matches!(a.handle(ActorEvent::Drained(Err(EngineTaskError::Flush))), ActorAction::SendFlush));
    assert!(matches!(a.handle(ActorEvent::Drained(Err(EngineTaskError::Temporary))), ActorAction::Warn));
    assert!(matches!(a.handle(ActorEvent::Cancelled), ActorAction::Shutdown));
    assert!(matches!(a.handle(ActorEvent::ResetRequest(true)), ActorAction::Reset));
    let cfg = RuntimeConfig { recommended_protocol_version: [1; 32], required_protocol_version: [2; 32] };
    match a.handle(ActorEvent::RuntimeConfig(cfg)) {
        ActorAction::SignalSuperchain(c) => assert_eq!(c.required_protocol_version, [2; 32]),
        other => panic!("unexpected action {:?}", other),
    }
}

#[test]
fn sync_and_reset_decisions() {
    let mut a = actor();
    assert!(!a.check_sync(false));
    let mut s = a.engine.state();
    s.el_sync_finished = true;
    a.engine.set_state(s);
    assert!(a.check_sync(false));
    assert!(!a.check_sync(true));
    assert_eq!(EngineActor::reset_outcome(true), Ok(()));
    assert_eq!(EngineActor::reset_outcome(false), Err(EngineError::ChannelClosed));
}

#[test]
fn safe_head_is_published_only_when_changed() {
    let mut a = actor();
    let published = L2BlockInfo::default();
    assert!(a.maybe_update_safe_head(&published).is_none());
    let mut s = a.engine.state();
    s.safe_head.block_info.number = 7;
    a.engine.set_state(s);
    let next = a.maybe_update_safe_head(&published).unwrap();
    assert_eq!(next.block_info.number, 7);
    assert!(a.maybe_update_safe_head(&next).is_none());
}

#[test]
fn metrics_setup_lists_counters() {
    let setup = Metrics::init();
    assert_eq!(setup.descriptions.len(), 2);
    assert_eq!(setup.descriptions[0].name, L1_REORG_COUNT);
    assert_eq!(setup.descriptions[0].unit, Some(Unit::Count));
    assert_eq!(setup.descriptions[1].name, DERIVATION_L1_ORIGIN);
    assert_eq!(setup.values.len(), 1);
    assert_eq!(setup.values[0].name, "kona_node_l1_reorg_count");
    assert_eq!(setup.values[0].value, 0);
}
