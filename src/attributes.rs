//! Payload attributes: the derived inputs to building an L2 block.

use vstd::prelude::*;

use crate::block::{B256, L2BlockInfo};

verus! {

/// The type byte that starts every encoded deposit transaction.
pub const DEPOSIT_TX_TYPE: u8 = 126;

/// A 20-byte account address.
pub type Address = [u8; 20];

/// The inputs to building one L2 block.
#[derive(Clone, Debug)]
pub struct PayloadAttributes {
    /// The block timestamp.
    pub timestamp: u64,
    /// The randomness value of the block.
    pub prev_randao: B256,
    /// The fee recipient of the block.
    pub suggested_fee_recipient: Address,
    /// The encoded transactions to include, if any are forced.
    pub transactions: Option<Vec<Vec<u8>>>,
    /// The gas limit of the block.
    pub gas_limit: Option<u64>,
}

/// Payload attributes with the L2 block they build on.
#[derive(Clone, Debug)]
pub struct OpAttributesWithParent {
    /// The payload attributes.
    pub inner: PayloadAttributes,
    /// The L2 block the attributes build on.
    pub parent: L2BlockInfo,
    /// Whether these are the last attributes of their span batch.
    pub is_last_in_span: bool,
}

impl OpAttributesWithParent {
    /// Returns the number of the block these attributes build.
    pub fn block_number(&self) -> (r: u64)
        requires
            self.parent.block_info.number < u64::MAX,
        ensures
            r == self.parent.block_info.number + 1,
    {
        self.parent.block_info.number + 1
    }
}

/// The byte contents of a list of encoded transactions.
pub open spec fn txs_view(txs: Seq<Vec<u8>>) -> Seq<Seq<u8>> {
    txs.map_values(|t: Vec<u8>| t@)
}

/// Whether an encoded transaction is a deposit: it starts with the deposit type byte.
pub open spec fn is_deposit(tx: Seq<u8>) -> bool {
    tx.len() > 0 && tx[0] == DEPOSIT_TX_TYPE
}

/// The deposits among `txs`, in their order.
pub open spec fn deposits_of(txs: Seq<Seq<u8>>) -> Seq<Seq<u8>>
    decreases txs.len(),
{
    if txs.len() == 0 {
        Seq::empty()
    } else if is_deposit(txs.last()) {
        deposits_of(txs.drop_last()).push(txs.last())
    } else {
        deposits_of(txs.drop_last())
    }
}

proof fn lemma_deposits_only(txs: Seq<Seq<u8>>)
    ensures
        forall|i: int| 0 <= i < deposits_of(txs).len() ==> is_deposit(#[trigger] deposits_of(txs)[i]),
    decreases txs.len(),
{
    if txs.len() > 0 {
        let p = deposits_of(txs.drop_last());
        lemma_deposits_only(txs.drop_last());
        if is_deposit(txs.last()) {
            assert forall|i: int| 0 <= i < p.push(txs.last()).len() implies is_deposit(
                #[trigger] p.push(txs.last())[i],
            ) by {
                if i < p.len() {
                    assert(p.push(txs.last())[i] == p[i]);
                }
            }
        }
    }
}

fn copy_tx(src: &Vec<u8>) -> (r: Vec<u8>)
    ensures
        r@ == src@,
{
    let mut out: Vec<u8> = Vec::with_capacity(src.len());
    let mut i: usize = 0;
    while i < src.len()
        invariant
            i <= src@.len(),
            out@ == src@.subrange(0, i as int),
        decreases src@.len() - i,
    {
        out.push(src[i]);
        i = i + 1;
        assert(out@ =~= src@.subrange(0, i as int));
    }
    assert(src@.subrange(0, src@.len() as int) =~= src@);
    out
}

/// Returns the deposit transactions of `txs`, in their order; every one of them starts with
/// the deposit type byte.
pub fn deposit_transactions(txs: &Vec<Vec<u8>>) -> (r: Vec<Vec<u8>>)
    ensures
        txs_view(r@) == deposits_of(txs_view(txs@)),
        forall|i: int| 0 <= i < r@.len() ==> is_deposit(#[trigger] r@[i]@),
{
    let mut out: Vec<Vec<u8>> = Vec::new();
    let mut i: usize = 0;
    while i < txs.len()
        invariant
            i <= txs@.len(),
            txs_view(out@) == deposits_of(txs_view(txs@.take(i as int))),
        decreases txs@.len() - i,
    {
        let ghost pre = txs@.take(i as int);
        assert(txs_view(txs@.take(i + 1)).drop_last() =~= txs_view(pre));
        assert(txs_view(txs@.take(i + 1)).last() == txs@[i as int]@);
        let tx = &txs[i];
        if tx.len() > 0 && tx[0] == DEPOSIT_TX_TYPE {
            let c = copy_tx(tx);
            out.push(c);
            assert(txs_view(out@) =~= deposits_of(txs_view(pre)).push(c@));
        }
        i = i + 1;
    }
    assert(txs@.take(txs@.len() as int) =~= txs@);
    proof {
        lemma_deposits_only(txs_view(txs@));
        assert forall|i: int| 0 <= i < out@.len() implies is_deposit(#[trigger] out@[i]@) by {
            assert(txs_view(out@)[i] == out@[i]@);
        }
    }
    out
}

/// `d` is `a` with every non-deposit transaction removed: the other fields are kept, and
/// every remaining transaction starts with the deposit type byte.
pub open spec fn deposit_retry_of(a: PayloadAttributes, d: PayloadAttributes) -> bool {
    &&& d.timestamp == a.timestamp
    &&& d.prev_randao == a.prev_randao
    &&& d.suggested_fee_recipient == a.suggested_fee_recipient
    &&& d.gas_limit == a.gas_limit
    &&& match (d.transactions, a.transactions) {
        (None, None) => true,
        (Some(x), Some(y)) => txs_view(x@) == deposits_of(txs_view(y@)),
        _ => false,
    }
    &&& d.transactions matches Some(x) ==> forall|i: int|
        0 <= i < x@.len() ==> is_deposit(#[trigger] x@[i]@)
}

impl PayloadAttributes {
    /// Returns these attributes with every non-deposit transaction removed.
    pub fn deposits_only(&self) -> (r: PayloadAttributes)
        ensures
            deposit_retry_of(*self, r),
    {
        let transactions = match &self.transactions {
            Some(txs) => Some(deposit_transactions(txs)),
            None => None,
        };
        PayloadAttributes {
            timestamp: self.timestamp,
            prev_randao: self.prev_randao,
            suggested_fee_recipient: self.suggested_fee_recipient,
            transactions,
            gas_limit: self.gas_limit,
        }
    }
}

} // verus!
