//! Consolidation: reconciling derived attributes with the block already on the unsafe chain.

use vstd::prelude::*;

use crate::attributes::{txs_view, Address, OpAttributesWithParent};
use crate::block::{hash_eq, B256, L2BlockInfo};
use crate::engine::{EngineState, EngineTaskError};

verus! {

/// The header fields of an L2 block that attributes determine.
#[derive(Clone, Copy, Debug)]
pub struct BlockHeader {
    /// The block hash.
    pub hash: B256,
    /// The block number.
    pub number: u64,
    /// The parent block hash.
    pub parent_hash: B256,
    /// The block timestamp.
    pub timestamp: u64,
    /// The block gas limit.
    pub gas_limit: u64,
    /// The fee recipient.
    pub beneficiary: Address,
    /// The randomness value.
    pub mix_hash: B256,
}

/// An L2 block: its header and its encoded transactions.
#[derive(Clone, Debug)]
pub struct L2Block {
    /// The header.
    pub header: BlockHeader,
    /// The encoded transactions, in order.
    pub transactions: Vec<Vec<u8>>,
}

/// The first field in which attributes and a block disagree.
#[derive(Clone, Copy, Debug, PartialEq, Eq, Structural)]
pub enum AttributesMismatch {
    /// The block's parent is not the attributes' parent.
    ParentHash,
    /// The timestamps differ.
    Timestamp,
    /// The randomness values differ.
    PrevRandao,
    /// The transaction counts differ: the attributes' count, then the block's.
    TransactionLen(usize, usize),
    /// Some transaction differs.
    TransactionContent,
    /// The attributes set no gas limit.
    MissingAttributesGasLimit,
    /// The gas limits differ.
    GasLimit,
    /// The fee recipients differ.
    FeeRecipient,
}

/// Whether attributes produce a given block.
#[derive(Clone, Copy, Debug, PartialEq, Eq, Structural)]
pub enum AttributesMatch {
    /// The attributes produce the block.
    Match,
    /// The attributes disagree with the block.
    Mismatch(AttributesMismatch),
}

impl AttributesMatch {
    /// Returns whether this is a match.
    pub fn is_match(&self) -> (r: bool)
        ensures
            r == (*self is Match),
    {
        match self {
            AttributesMatch::Match => true,
            AttributesMatch::Mismatch(_) => false,
        }
    }
}

/// The transactions the attributes force, none standing for an empty list.
pub open spec fn forced_txs(a: OpAttributesWithParent) -> Seq<Seq<u8>> {
    match a.inner.transactions {
        Some(t) => txs_view(t@),
        None => Seq::empty(),
    }
}

/// Compares attributes with a block, field by field: parent, timestamp, randomness,
/// transactions (count, then contents in order), gas limit, fee recipient.
pub open spec fn spec_check(a: OpAttributesWithParent, b: L2Block) -> AttributesMatch {
    let at = forced_txs(a);
    let bt = txs_view(b.transactions@);
    if a.parent.block_info.hash@ != b.header.parent_hash@ {
        AttributesMatch::Mismatch(AttributesMismatch::ParentHash)
    } else if a.inner.timestamp != b.header.timestamp {
        AttributesMatch::Mismatch(AttributesMismatch::Timestamp)
    } else if a.inner.prev_randao@ != b.header.mix_hash@ {
        AttributesMatch::Mismatch(AttributesMismatch::PrevRandao)
    } else if at.len() != bt.len() {
        AttributesMatch::Mismatch(AttributesMismatch::TransactionLen(at.len() as usize, bt.len() as usize))
    } else if at != bt {
        AttributesMatch::Mismatch(AttributesMismatch::TransactionContent)
    } else if a.inner.gas_limit is None {
        AttributesMatch::Mismatch(AttributesMismatch::MissingAttributesGasLimit)
    } else if a.inner.gas_limit != Some(b.header.gas_limit) {
        AttributesMatch::Mismatch(AttributesMismatch::GasLimit)
    } else if a.inner.suggested_fee_recipient@ != b.header.beneficiary@ {
        AttributesMatch::Mismatch(AttributesMismatch::FeeRecipient)
    } else {
        AttributesMatch::Match
    }
}

fn address_eq(a: &Address, b: &Address) -> (r: bool)
    ensures
        r == (a@ == b@),
{
    let mut i: usize = 0;
    while i < 20
        invariant
            i <= 20,
            a@.len() == 20,
            b@.len() == 20,
            forall|j: int| 0 <= j < i ==> a@[j] == b@[j],
        decreases 20 - i,
    {
        if a[i] != b[i] {
            return false;
        }
        i = i + 1;
    }
    assert(a@ =~= b@);
    true
}

fn bytes_eq(a: &Vec<u8>, b: &Vec<u8>) -> (r: bool)
    ensures
        r == (a@ == b@),
{
    if a.len() != b.len() {
        return false;
    }
    let mut i: usize = 0;
    while i < a.len()
        invariant
            i <= a@.len(),
            a@.len() == b@.len(),
            forall|j: int| 0 <= j < i ==> a@[j] == b@[j],
        decreases a@.len() - i,
    {
        if a[i] != b[i] {
            return false;
        }
        i = i + 1;
    }
    assert(a@ =~= b@);
    true
}

fn txs_eq(a: &Vec<Vec<u8>>, b: &Vec<Vec<u8>>) -> (r: bool)
    ensures
        r == (txs_view(a@) == txs_view(b@)),
{
    if a.len() != b.len() {
        assert(txs_view(a@).len() != txs_view(b@).len());
        return false;
    }
    let mut i: usize = 0;
    while i < a.len()
        invariant
            i <= a@.len(),
            a@.len() == b@.len(),
            forall|j: int| 0 <= j < i ==> a@[j]@ == b@[j]@,
        decreases a@.len() - i,
    {
        if !bytes_eq(&a[i], &b[i]) {
            assert(txs_view(a@)[i as int] != txs_view(b@)[i as int]);
            return false;
        }
        i = i + 1;
    }
    assert(txs_view(a@) =~= txs_view(b@));
    true
}

/// Checks whether attributes produce the given block.
pub fn check_attributes(a: &OpAttributesWithParent, b: &L2Block) -> (r: AttributesMatch)
    ensures
        r == spec_check(*a, *b),
{
    if !hash_eq(&a.parent.block_info.hash, &b.header.parent_hash) {
        return AttributesMatch::Mismatch(AttributesMismatch::ParentHash);
    }
    if a.inner.timestamp != b.header.timestamp {
        return AttributesMatch::Mismatch(AttributesMismatch::Timestamp);
    }
    if !hash_eq(&a.inner.prev_randao, &b.header.mix_hash) {
        return AttributesMatch::Mismatch(AttributesMismatch::PrevRandao);
    }
    let empty: Vec<Vec<u8>> = Vec::new();
    let at = match &a.inner.transactions {
        Some(t) => t,
        None => &empty,
    };
    assert(txs_view(at@) == forced_txs(*a)) by {
        if a.inner.transactions is None {
            assert(txs_view(empty@) =~= Seq::<Seq<u8>>::empty());
        }
    }
    if at.len() != b.transactions.len() {
        return AttributesMatch::Mismatch(AttributesMismatch::TransactionLen(at.len(), b.transactions.len()));
    }
    if !txs_eq(at, &b.transactions) {
        return AttributesMatch::Mismatch(AttributesMismatch::TransactionContent);
    }
    match a.inner.gas_limit {
        None => {
            return AttributesMatch::Mismatch(AttributesMismatch::MissingAttributesGasLimit);
        },
        Some(g) => {
            if g != b.header.gas_limit {
                return AttributesMatch::Mismatch(AttributesMismatch::GasLimit);
            }
        },
    }
    if !address_eq(&a.inner.suggested_fee_recipient, &b.header.beneficiary) {
        return AttributesMatch::Mismatch(AttributesMismatch::FeeRecipient);
    }
    AttributesMatch::Match
}

/// Why consolidation could not compare the attributes with a block.
#[derive(Clone, Copy, Debug, PartialEq, Eq, Structural)]
pub enum ConsolidateTaskError {
    /// No unsafe block has this number.
    MissingUnsafeL2Block(u64),
    /// Fetching the unsafe block failed.
    FailedToFetchUnsafeL2Block,
}

impl ConsolidateTaskError {
    /// The effect of this error on the engine: both are retried later.
    pub fn severity(&self) -> (r: EngineTaskError)
        ensures
            r == EngineTaskError::Temporary,
    {
        EngineTaskError::Temporary
    }
}

/// What came of fetching the unsafe block after the attributes' parent.
#[derive(Clone, Debug)]
pub enum FetchedBlock {
    /// The block, with its L2 block summary when one could be built from it and the genesis.
    Found { block: L2Block, info: Option<L2BlockInfo> },
    /// No block has that number.
    Missing,
    /// The fetch failed.
    Failed,
}

/// What a consolidate task does first.
#[derive(Clone, Copy, Debug, PartialEq, Eq, Structural)]
pub enum ConsolidatePlan {
    /// Fetch the unsafe block with this number and compare it with the attributes.
    FetchUnsafeBlock(u64),
    /// Nothing to consolidate: build the block from the attributes.
    Build,
}

/// How a consolidation that did not fail ended.
#[derive(Clone, Copy, Debug, PartialEq, Eq, Structural)]
pub enum ConsolidateOutcome {
    /// The safe head advanced; the forkchoice update waits for the end of the span.
    Consolidated,
    /// The safe head advanced and the span ended: run a forkchoice task.
    ConsolidatedThenForkchoice,
    /// The block does not match: build the block from the attributes.
    Build,
}

/// A task that reconciles derived attributes with the unsafe chain, falling back to building
/// the block when they disagree.
#[derive(Clone, Debug)]
pub struct ConsolidateTask {
    /// The attributes to reconcile.
    pub attributes: OpAttributesWithParent,
    /// Whether the attributes were derived from L1 rather than sequenced locally.
    pub is_attributes_derived: bool,
}

impl ConsolidateTask {
    /// Creates a consolidate task.
    pub fn new(attributes: OpAttributesWithParent, is_attributes_derived: bool) -> (r: ConsolidateTask)
        ensures
            r.attributes == attributes,
            r.is_attributes_derived == is_attributes_derived,
    {
        ConsolidateTask { attributes, is_attributes_derived }
    }

    /// Decides the task's first move: consolidate only while the safe head is behind the
    /// unsafe head, fetching the block right after the attributes' parent.
    pub fn execute(&self, state: &EngineState) -> (r: ConsolidatePlan)
        requires
            self.attributes.parent.block_info.number < u64::MAX,
        ensures
            r == if state.safe_head.block_info.number < state.unsafe_head.block_info.number {
                ConsolidatePlan::FetchUnsafeBlock((self.attributes.parent.block_info.number + 1) as u64)
            } else {
                ConsolidatePlan::Build
            },
    {
        if state.safe_head().block_info.number < state.unsafe_head().block_info.number {
            ConsolidatePlan::FetchUnsafeBlock(self.attributes.block_number())
        } else {
            ConsolidatePlan::Build
        }
    }

    /// Consolidates with the fetched block. When the block matches the attributes and its
    /// summary could be built, the local safe and safe heads move to it; otherwise the block
    /// is to be built, and the state is left alone.
    pub fn consolidate(&self, state: &mut EngineState, fetched: FetchedBlock) -> (r: Result<ConsolidateOutcome, ConsolidateTaskError>)
        requires
            self.attributes.parent.block_info.number < u64::MAX,
        ensures
            match fetched {
                FetchedBlock::Missing => r == Err::<ConsolidateOutcome, ConsolidateTaskError>(
                    ConsolidateTaskError::MissingUnsafeL2Block((self.attributes.parent.block_info.number + 1) as u64),
                ) && *final(state) == *old(state),
                FetchedBlock::Failed => r == Err::<ConsolidateOutcome, ConsolidateTaskError>(
                    ConsolidateTaskError::FailedToFetchUnsafeL2Block,
                ) && *final(state) == *old(state),
                FetchedBlock::Found { block, info } => match info {
                    Some(i) if spec_check(self.attributes, block) is Match => {
                        &&& *final(state) == (EngineState { local_safe_head: i, safe_head: i, ..*old(state) })
                        &&& r == Ok::<ConsolidateOutcome, ConsolidateTaskError>(
                            if self.attributes.is_last_in_span {
                                ConsolidateOutcome::ConsolidatedThenForkchoice
                            } else {
                                ConsolidateOutcome::Consolidated
                            },
                        )
                    },
                    _ => r == Ok::<ConsolidateOutcome, ConsolidateTaskError>(ConsolidateOutcome::Build)
                        && *final(state) == *old(state),
                },
            },
    {
        let block_num = self.attributes.block_number();
        match fetched {
            FetchedBlock::Missing => Err(ConsolidateTaskError::MissingUnsafeL2Block(block_num)),
            FetchedBlock::Failed => Err(ConsolidateTaskError::FailedToFetchUnsafeL2Block),
            FetchedBlock::Found { block, info } => {
                if check_attributes(&self.attributes, &block).is_match() {
                    if let Some(i) = info {
                        state.set_local_safe_head(i);
                        state.set_safe_head(i);
                        if self.attributes.is_last_in_span {
                            return Ok(ConsolidateOutcome::ConsolidatedThenForkchoice);
                        } else {
                            return Ok(ConsolidateOutcome::Consolidated);
                        }
                    }
                }
                Ok(ConsolidateOutcome::Build)
            },
        }
    }
}

} // verus!
