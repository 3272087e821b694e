//! The pipeline cursor: the current L1 origin and the L2 safe-head tip.

use vstd::prelude::*;

use crate::block::{B256, BlockInfo, L2BlockInfo};

verus! {

/// The L2 safe head with its header summary and output root.
#[derive(Clone, Copy, Debug)]
pub struct TipCursor {
    /// The L2 safe head.
    pub l2_safe_head: L2BlockInfo,
    /// The header summary of the safe head.
    pub l2_safe_head_header: BlockInfo,
    /// The output root at the safe head.
    pub l2_safe_head_output_root: B256,
}

impl TipCursor {
    /// Creates a tip cursor from its parts.
    pub fn new(l2_safe_head: L2BlockInfo, l2_safe_head_header: BlockInfo, l2_safe_head_output_root: B256) -> (r: TipCursor)
        ensures
            r.l2_safe_head == l2_safe_head,
            r.l2_safe_head_header == l2_safe_head_header,
            r.l2_safe_head_output_root == l2_safe_head_output_root,
    {
        TipCursor { l2_safe_head, l2_safe_head_header, l2_safe_head_output_root }
    }
}

/// Refusal to move the cursor.
#[derive(Clone, Copy, Debug, PartialEq, Eq, Structural)]
pub enum CursorError {
    /// The new tip is not above the current one.
    NotAdvancing,
}

/// The derivation pipeline's position: its L1 origin and its L2 tip.
#[derive(Clone, Copy, Debug)]
pub struct PipelineCursor {
    origin: BlockInfo,
    tip: TipCursor,
}

impl PipelineCursor {
    /// The L1 origin.
    pub closed spec fn spec_origin(&self) -> BlockInfo {
        self.origin
    }

    /// The L2 tip.
    pub closed spec fn spec_tip(&self) -> TipCursor {
        self.tip
    }

    /// Creates a cursor at the given origin and tip.
    pub fn new(origin: BlockInfo, tip: TipCursor) -> (r: PipelineCursor)
        ensures
            r.spec_origin() == origin,
            r.spec_tip() == tip,
    {
        PipelineCursor { origin, tip }
    }

    /// Returns the L1 origin.
    pub fn origin(&self) -> (r: BlockInfo)
        ensures
            r == self.spec_origin(),
    {
        self.origin
    }

    /// Returns the L2 tip.
    pub fn tip(&self) -> (r: TipCursor)
        ensures
            r == self.spec_tip(),
    {
        self.tip
    }

    /// Returns the L2 safe head.
    pub fn l2_safe_head(&self) -> (r: L2BlockInfo)
        ensures
            r == self.spec_tip().l2_safe_head,
    {
        self.tip.l2_safe_head
    }

    /// Moves the cursor to a new origin and tip, both at once. A tip that is not above the
    /// current one is refused and leaves the cursor as it was.
    pub fn advance(&mut self, origin: BlockInfo, tip: TipCursor) -> (r: Result<(), CursorError>)
        ensures
            r is Ok <==> tip.l2_safe_head.block_info.number
                > old(self).spec_tip().l2_safe_head.block_info.number,
            r is Ok ==> final(self).spec_origin() == origin && final(self).spec_tip() == tip,
            r is Err ==> *final(self) == *old(self),
    {
        if tip.l2_safe_head.block_info.number <= self.tip.l2_safe_head.block_info.number {
            return Err(CursorError::NotAdvancing);
        }
        self.origin = origin;
        self.tip = tip;
        Ok(())
    }
}

} // verus!
