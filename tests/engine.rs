use kona_node::attributes::{OpAttributesWithParent, PayloadAttributes};
use kona_node::block::{BlockInfo, L2BlockInfo};
use kona_node::consolidate::{
    check_attributes, AttributesMatch, AttributesMismatch, BlockHeader, ConsolidateOutcome, ConsolidatePlan,
    ConsolidateTask, ConsolidateTaskError, FetchedBlock, L2Block,
};
use kona_node::engine::{Engine, EngineState, EngineTask, EngineTaskError};

fn head(number: u64) -> L2BlockInfo {
    let mut h = L2BlockInfo::default();
    h.block_info.number = number;
    h
}

fn state(safe: u64, unsafe_: u64) -> EngineState {
    let mut s = EngineState::default();
    s.safe_head = head(safe);
    s.local_safe_head = head(safe);
    s.unsafe_head = head(unsafe_);
    s
}

fn attrs_on(parent: u64, last_in_span: bool) -> OpAttributesWithParent {
    let mut p = head(parent);
    p.block_info.hash = [parent as u8; 32];
    OpAttributesWithParent {
        inner: PayloadAttributes {
            timestamp: 1000,
            prev_randao: [5; 32],
            suggested_fee_recipient: [6; 20],
            transactions: Some(vec![vec![0x7E, 1], vec![2]]),
            gas_limit: Some(30_000_000),
        },
        parent: p,
        is_last_in_span: last_in_span,
    }
}

fn block_for(a: &OpAttributesWithParent) -> L2Block {
    L2Block {
        header: BlockHeader {
            hash: [9; 32],
            number: a.parent.block_info.number + 1,
            parent_hash: a.parent.block_info.hash,
            timestamp: a.inner.timestamp,
            gas_limit: 30_000_000,
            beneficiary: a.inner.suggested_fee_recipient,
            mix_hash: a.inner.prev_randao,
        },
        transactions: a.inner.transactions.clone().unwrap(),
    }
}

fn info(number: u64) -> L2BlockInfo {
    let mut h = head(number);
    h.block_info = BlockInfo { number, hash: [9; 32], ..Default::default() };
    h
}

#[test]
fn matching_block_advances_safe_head() {
    let mut s = state(90, 100);
    let task = ConsolidateTask::new(attrs_on(90, false), true);
    assert_eq!(task.execute(&s), ConsolidatePlan::FetchUnsafeBlock(91));
    let block = block_for(&task.attributes);
    let r = task.consolidate(&mut s, FetchedBlock::Found { block, info: Some(info(91)) });
    assert_eq!(r, Ok(ConsolidateOutcome::Consolidated));
    assert_eq!(s.safe_head.block_info.number, 91);
    assert_eq!(s.local_safe_head.block_info.number, 91);
    assert_eq!(s.unsafe_head.block_info.number, 100);
}

#[test]
fn last_in_span_asks_for_forkchoice() {
    let mut s = state(90, 100);
    let task = ConsolidateTask::new(attrs_on(90, true), true);
    let block = block_for(&task.attributes);
    let r = task.consolidate(&mut s, FetchedBlock::Found { block, info: Some(info(91)) });
    assert_eq!(r, Ok(ConsolidateOutcome::ConsolidatedThenForkchoice));
    assert_eq!(s.safe_head.block_info.number, 91);
}

#[test]
fn randao_mismatch_builds() {
    let mut s = state(90, 100);
    let task = ConsolidateTask::new(attrs_on(90, false), true);
    let mut block = block_for(&task.attributes);
    block.header.mix_hash = [0; 32];
    assert_eq!(check_attributes(&task.attributes, &block), AttributesMatch::Mismatch(AttributesMismatch::PrevRandao));
    let r = task.consolidate(&mut s, FetchedBlock::Found { block, info: Some(info(91)) });
    assert_eq!(r, Ok(ConsolidateOutcome::Build));
    assert_eq!(s.safe_head.block_info.number, 90);
}

#[test]
fn unbuildable_block_info_builds() {
    let mut s = state(90, 100);
    let task = ConsolidateTask::new(attrs_on(90, false), true);
    let block = block_for(&task.attributes);
    assert_eq!(task.consolidate(&mut s, FetchedBlock::Found { block, info: None }), Ok(ConsolidateOutcome::Build));
    assert_eq!(s.safe_head.block_info.number, 90);
}

#[test]
fn missing_and_failed_fetches_are_errors() {
    let mut s = state(90, 100);
    let task = ConsolidateTask::new(attrs_on(90, false), true);
    assert_eq!(task.consolidate(&mut s, FetchedBlock::Missing), Err(ConsolidateTaskError::MissingUnsafeL2Block(91)));
    assert_eq!(task.consolidate(&mut s, FetchedBlock::Failed), Err(ConsolidateTaskError::FailedToFetchUnsafeL2Block));
    assert_eq!(ConsolidateTaskError::FailedToFetchUnsafeL2Block.severity(), EngineTaskError::Temporary);
    assert_eq!(s.safe_head.block_info.number, 90);
}

#[test]
fn caught_up_safe_head_goes_to_build() {
    let s = state(100, 100);
    let task = ConsolidateTask::new(attrs_on(100, false), true);
    assert_eq!(task.execute(&s), ConsolidatePlan::Build);
}

#[test]
fn each_field_mismatch_is_reported() {
    let a = attrs_on(90, false);
    let good = block_for(&a);
    assert_eq!(check_attributes(&a, &good), AttributesMatch::Match);
    assert!(check_attributes(&a, &good).is_match());

    let mut b = block_for(&a);
    b.header.parent_hash = [1; 32];
    assert_eq!(check_attributes(&a, &b), AttributesMatch::Mismatch(AttributesMismatch::ParentHash));

    let mut b = block_for(&a);
    b.header.timestamp = 1;
    assert_eq!(check_attributes(&a, &b), AttributesMatch::Mismatch(AttributesMismatch::Timestamp));

    let mut b = block_for(&a);
    b.transactions.push(vec![1]);
    assert_eq!(check_attributes(&a, &b), AttributesMatch::Mismatch(AttributesMismatch::TransactionLen(2, 3)));

    let mut b = block_for(&a);
    b.transactions.swap(0, 1);
    assert_eq!(check_attributes(&a, &b), AttributesMatch::Mismatch(AttributesMismatch::TransactionContent));

    let mut b = block_for(&a);
    b.header.gas_limit = 1;
    assert_eq!(check_attributes(&a, &b), AttributesMatch::Mismatch(AttributesMismatch::GasLimit));

    let mut b = block_for(&a);
    b.header.beneficiary = [0; 20];
    assert_eq!(check_attributes(&a, &b), AttributesMatch::Mismatch(AttributesMismatch::FeeRecipient));

    let mut no_gas = attrs_on(90, false);
    no_gas.inner.gas_limit = None;
    assert_eq!(
        check_attributes(&no_gas, &block_for(&a)),
        AttributesMatch::Mismatch(AttributesMismatch::MissingAttributesGasLimit)
    );

    let mut no_txs = attrs_on(90, false);
    no_txs.inner.transactions = None;
    let mut empty = block_for(&a);
    empty.transactions.clear();
    assert_eq!(check_attributes(&no_txs, &empty), AttributesMatch::Match);
}

#[test]
fn tasks_run_in_enqueue_order_on_the_shared_state() {
    let mut engine = Engine::new(state(1, 2));
    engine.enqueue(EngineTask::Consolidate(ConsolidateTask::new(attrs_on(1, false), true)));
    engine.enqueue(EngineTask::Forkchoice);
    assert_eq!(engine.len(), 2);

    let first = engine.next_task();
    assert!(matches!(first, Some(EngineTask::Consolidate(_))));
    // the first task leaves its state
    let mut s = engine.state();
    s.set_safe_head(head(2));
    engine.set_state(s);

    let second = engine.next_task();
    assert!(matches!(second, Some(EngineTask::Forkchoice)));
    // the second task sees exactly what the first left
    assert_eq!(engine.state().safe_head().block_info.number, 2);
    assert!(engine.next_task().is_none());
    assert_eq!(engine.len(), 0);
}

#[test]
fn state_setters_touch_one_head() {
    let mut s = EngineState::default();
    s.set_unsafe_head(head(5));
    s.set_cross_unsafe_head(head(4));
    s.set_local_safe_head(head(3));
    s.set_safe_head(head(2));
    s.set_finalized_head(head(1));
    assert_eq!(s.unsafe_head().block_info.number, 5);
    assert_eq!(s.cross_unsafe_head.block_info.number, 4);
    assert_eq!(s.local_safe_head.block_info.number, 3);
    assert_eq!(s.safe_head().block_info.number, 2);
    assert_eq!(s.finalized_head().block_info.number, 1);
    assert!(!s.el_sync_finished);
}
