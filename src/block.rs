//! Block header summaries for L1 and L2 blocks.

use vstd::prelude::*;

verus! {

/// A 32-byte hash.
pub type B256 = [u8; 32];

/// Returns whether two hashes hold the same bytes.
pub fn hash_eq(a: &B256, b: &B256) -> (r: bool)
    ensures
        r == (a@ == b@),
{
    let mut i: usize = 0;
    while i < 32
        invariant
            i <= 32,
            a@.len() == 32,
            b@.len() == 32,
            forall|j: int| 0 <= j < i ==> a@[j] == b@[j],
        decreases 32 - i,
    {
        if a[i] != b[i] {
            return false;
        }
        i = i + 1;
    }
    assert(a@ =~= b@);
    true
}

/// A summary of a block header.
#[derive(Clone, Copy, Debug)]
pub struct BlockInfo {
    /// The block hash.
    pub hash: B256,
    /// The block number.
    pub number: u64,
    /// The parent block hash.
    pub parent_hash: B256,
    /// The block timestamp.
    pub timestamp: u64,
}

impl BlockInfo {
    /// Returns whether two summaries describe the same block.
    pub fn same_as(&self, other: &BlockInfo) -> (r: bool)
        ensures
            r == self.spec_same_as(*other),
    {
        self.number == other.number && self.timestamp == other.timestamp && hash_eq(
            &self.hash,
            &other.hash,
        ) && hash_eq(&self.parent_hash, &other.parent_hash)
    }

    /// Field-wise equality of two summaries.
    pub open spec fn spec_same_as(self, other: BlockInfo) -> bool {
        &&& self.number == other.number
        &&& self.timestamp == other.timestamp
        &&& self.hash@ == other.hash@
        &&& self.parent_hash@ == other.parent_hash@
    }
}

impl Default for BlockInfo {
    fn default() -> (r: BlockInfo)
        ensures
            r.number == 0,
            r.timestamp == 0,
            r.hash@ == seq![0u8; 32],
            r.parent_hash@ == seq![0u8; 32],
    {
        BlockInfo { hash: [0u8; 32], number: 0, parent_hash: [0u8; 32], timestamp: 0 }
    }
}

/// A summary of an L2 block with its L1 origin.
#[derive(Clone, Copy, Debug)]
pub struct L2BlockInfo {
    /// The L2 block itself.
    pub block_info: BlockInfo,
    /// The L1 block the L2 block was derived from.
    pub l1_origin: BlockInfo,
    /// The sequence number of the block within its epoch.
    pub seq_num: u64,
}

impl L2BlockInfo {
    /// Returns whether two summaries describe the same L2 block.
    pub fn same_as(&self, other: &L2BlockInfo) -> (r: bool)
        ensures
            r == self.spec_same_as(*other),
    {
        self.seq_num == other.seq_num && self.block_info.same_as(&other.block_info)
            && self.l1_origin.same_as(&other.l1_origin)
    }

    /// Field-wise equality of two summaries.
    pub open spec fn spec_same_as(self, other: L2BlockInfo) -> bool {
        &&& self.seq_num == other.seq_num
        &&& self.block_info.spec_same_as(other.block_info)
        &&& self.l1_origin.spec_same_as(other.l1_origin)
    }

    /// The L2 block number.
    pub open spec fn spec_number(self) -> u64 {
        self.block_info.number
    }
}

impl Default for L2BlockInfo {
    fn default() -> (r: L2BlockInfo)
        ensures
            r.block_info.number == 0,
            r.l1_origin.number == 0,
            r.seq_num == 0,
    {
        L2BlockInfo { block_info: BlockInfo::default(), l1_origin: BlockInfo::default(), seq_num: 0 }
    }
}

} // verus!
