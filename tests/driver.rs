use kona_node::attributes::{deposit_transactions, OpAttributesWithParent, PayloadAttributes, DEPOSIT_TX_TYPE};
use kona_node::block::{BlockInfo, L2BlockInfo};
use kona_node::config::RollupConfig;
use kona_node::cursor::{CursorError, PipelineCursor, TipCursor};
use kona_node::driver::{Driver, DriverAction, DriverError, DriverEvent, DriverStage, PipelineError, PipelineErrorKind};

fn tip_at(number: u64) -> TipCursor {
    let mut head = L2BlockInfo::default();
    head.block_info.number = number;
    TipCursor::new(head, BlockInfo { number, ..Default::default() }, [7; 32])
}

fn attrs(timestamp: u64, txs: Vec<Vec<u8>>) -> OpAttributesWithParent {
    OpAttributesWithParent {
        inner: PayloadAttributes {
            timestamp,
            prev_randao: [0; 32],
            suggested_fee_recipient: [0; 20],
            transactions: Some(txs),
            gas_limit: Some(30_000_000),
        },
        parent: L2BlockInfo::default(),
        is_last_in_span: false,
    }
}

fn config(holocene: Option<u64>, interop: Option<u64>) -> RollupConfig {
    RollupConfig { fjord_time: None, holocene_time: holocene, interop_time: interop }
}

#[test]
fn end_of_source_collapses_target_to_tip() {
    let mut driver = Driver::new(config(None, None), Some(200));
    assert!(matches!(driver.step(DriverEvent::Tip(tip_at(150))), DriverAction::ProducePayload(h) if h.block_info.number == 150));
    let action = driver.step(DriverEvent::PipelineFailed(PipelineErrorKind::Critical(PipelineError::EndOfSource)));
    assert!(matches!(action, DriverAction::ReadTip));
    assert_eq!(driver.target, Some(150));
    match driver.step(DriverEvent::Tip(tip_at(150))) {
        DriverAction::Finish(t) => {
            assert_eq!(t.l2_safe_head.block_info.number, 150);
            assert_eq!(t.l2_safe_head_output_root, [7; 32]);
        }
        other => panic!("unexpected action {:?}", other),
    }
}

#[test]
fn end_of_source_under_interop_fails() {
    let mut driver = Driver::new(config(None, Some(0)), None);
    driver.step(DriverEvent::Tip(tip_at(10)));
    let action = driver.step(DriverEvent::PipelineFailed(PipelineErrorKind::Critical(PipelineError::EndOfSource)));
    assert!(matches!(
        action,
        DriverAction::Fail(DriverError::Pipeline(PipelineErrorKind::Critical(PipelineError::EndOfSource)))
    ));
    assert_eq!(driver.target, None);
}

#[test]
fn other_pipeline_errors_fail() {
    let mut driver = Driver::new(config(None, None), Some(5));
    driver.step(DriverEvent::Tip(tip_at(1)));
    let action = driver.step(DriverEvent::PipelineFailed(PipelineErrorKind::Temporary(PipelineError::Other)));
    assert!(matches!(action, DriverAction::Fail(DriverError::Pipeline(PipelineErrorKind::Temporary(PipelineError::Other)))));
}

#[test]
fn target_reached_finishes_at_once() {
    let mut driver = Driver::new(config(None, None), Some(3));
    assert!(matches!(driver.step(DriverEvent::Tip(tip_at(3))), DriverAction::Finish(_)));
    assert!(matches!(driver.stage, DriverStage::Done));
}

#[test]
fn holocene_failure_retries_with_deposits_only() {
    let mut driver = Driver::new(config(Some(100), None), None);
    driver.step(DriverEvent::Tip(tip_at(1)));
    let txs = vec![vec![DEPOSIT_TX_TYPE, 1], vec![2, 3], vec![], vec![DEPOSIT_TX_TYPE]];
    assert!(matches!(driver.step(DriverEvent::Produced(attrs(150, txs))), DriverAction::Execute));
    assert!(matches!(driver.step(DriverEvent::ExecutionFailed), DriverAction::FlushAndRetry));
    match &driver.stage {
        DriverStage::Executing { attributes, retried, .. } => {
            assert!(*retried);
            assert_eq!(attributes.timestamp, 150);
            assert_eq!(attributes.transactions, Some(vec![vec![DEPOSIT_TX_TYPE, 1], vec![DEPOSIT_TX_TYPE]]));
        }
        _ => panic!("expected a retry"),
    }
    assert!(matches!(driver.step(DriverEvent::ExecutionFailed), DriverAction::Fail(DriverError::Executor)));
}

#[test]
fn holocene_retry_that_succeeds_commits() {
    let mut driver = Driver::new(config(Some(0), None), None);
    driver.step(DriverEvent::Tip(tip_at(1)));
    driver.step(DriverEvent::Produced(attrs(5, vec![vec![1]])));
    driver.step(DriverEvent::ExecutionFailed);
    match driver.step(DriverEvent::Executed) {
        DriverAction::Commit(a) => assert_eq!(a.transactions, Some(vec![])),
        other => panic!("unexpected action {:?}", other),
    }
    assert!(matches!(driver.stage, DriverStage::ReadTip));
}

#[test]
fn pre_holocene_failure_discards_attributes() {
    let mut driver = Driver::new(config(Some(1000), None), None);
    driver.step(DriverEvent::Tip(tip_at(1)));
    driver.step(DriverEvent::Produced(attrs(5, vec![vec![1]])));
    assert!(matches!(driver.step(DriverEvent::ExecutionFailed), DriverAction::ReadTip));
    assert!(matches!(driver.stage, DriverStage::ReadTip));
}

#[test]
fn executed_attributes_are_committed() {
    let mut driver = Driver::new(config(None, None), None);
    driver.step(DriverEvent::Tip(tip_at(1)));
    assert!(driver.expects(&DriverEvent::Produced(attrs(5, vec![]))));
    assert!(!driver.expects(&DriverEvent::Executed));
    driver.step(DriverEvent::Produced(attrs(5, vec![vec![9, 9]])));
    match driver.step(DriverEvent::Executed) {
        DriverAction::Commit(a) => assert_eq!(a.transactions, Some(vec![vec![9, 9]])),
        other => panic!("unexpected action {:?}", other),
    }
}

#[test]
fn deposit_filter_keeps_order() {
    let txs = vec![vec![DEPOSIT_TX_TYPE, 3], vec![0x02], vec![DEPOSIT_TX_TYPE, 4], vec![]];
    assert_eq!(deposit_transactions(&txs), vec![vec![DEPOSIT_TX_TYPE, 3], vec![DEPOSIT_TX_TYPE, 4]]);
    assert_eq!(DEPOSIT_TX_TYPE, 0x7E);
}

#[test]
fn cursor_only_moves_up() {
    let mut cursor = PipelineCursor::new(BlockInfo::default(), tip_at(10));
    let origin = BlockInfo { number: 3, ..Default::default() };
    assert_eq!(cursor.advance(origin, tip_at(10)), Err(CursorError::NotAdvancing));
    assert_eq!(cursor.advance(origin, tip_at(9)), Err(CursorError::NotAdvancing));
    assert_eq!(cursor.tip().l2_safe_head.block_info.number, 10);
    assert_eq!(cursor.origin().number, 0);
    assert_eq!(cursor.advance(origin, tip_at(11)), Ok(()));
    assert_eq!(cursor.l2_safe_head().block_info.number, 11);
    assert_eq!(cursor.origin().number, 3);
}

#[test]
fn channel_byte_cap_follows_fjord() {
    let cfg = RollupConfig { fjord_time: Some(100), holocene_time: None, interop_time: None };
    assert_eq!(cfg.max_rlp_bytes_per_channel(99), 10_000_000);
    assert_eq!(cfg.max_rlp_bytes_per_channel(100), 100_000_000);
    assert!(!cfg.is_holocene_active(u64::MAX));
}

#[test]
fn block_number_is_after_parent() {
    let mut a = attrs(1, vec![]);
    a.parent.block_info.number = 90;
    assert_eq!(a.block_number(), 91);
}
