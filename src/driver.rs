//! The derivation driver's decisions: from the cursor's tip and the pipeline's and executor's
//! answers, what to do next until the target height is reached.

use vstd::prelude::*;

use crate::attributes::{deposit_retry_of, OpAttributesWithParent, PayloadAttributes};
use crate::block::L2BlockInfo;
use crate::config::{active_at, RollupConfig};
use crate::cursor::TipCursor;

verus! {

/// A pipeline failure.
#[derive(Clone, Copy, Debug, PartialEq, Eq, Structural)]
pub enum PipelineError {
    /// The data source is exhausted.
    EndOfSource,
    /// The pipeline has no origin.
    MissingOrigin,
    /// Any other pipeline failure.
    Other,
}

/// A pipeline failure with its severity.
#[derive(Clone, Copy, Debug, PartialEq, Eq, Structural)]
pub enum PipelineErrorKind {
    /// Retrying may succeed.
    Temporary(PipelineError),
    /// Derivation cannot go on.
    Critical(PipelineError),
    /// The pipeline must be reset.
    Reset,
}

/// Why the driver stopped without reaching its target.
#[derive(Clone, Copy, Debug, PartialEq, Eq, Structural)]
pub enum DriverError {
    /// The pipeline failed.
    Pipeline(PipelineErrorKind),
    /// The executor failed on a deposit-only block.
    Executor,
    /// A transaction could not be decoded.
    Rlp,
}

/// Where the driver stands within one iteration of its loop.
#[derive(Clone, Debug)]
pub enum DriverStage {
    /// About to read the cursor's tip.
    ReadTip,
    /// Waiting for the pipeline to produce attributes on top of `tip`.
    Producing { tip: TipCursor },
    /// Waiting for the executor to run `attributes` on top of `tip`; `retried` once the
    /// deposit-only retry has been issued.
    Executing { tip: TipCursor, attributes: PayloadAttributes, retried: bool },
    /// Finished, with a result or an error.
    Done,
}

/// What happened outside since the driver's last step.
#[derive(Clone, Debug)]
pub enum DriverEvent {
    /// The cursor's tip was read.
    Tip(TipCursor),
    /// The pipeline produced attributes.
    Produced(OpAttributesWithParent),
    /// The pipeline failed.
    PipelineFailed(PipelineErrorKind),
    /// The executor ran the attributes.
    Executed,
    /// The executor failed on the attributes.
    ExecutionFailed,
}

/// What the driver asks to be done next.
#[derive(Clone, Debug)]
pub enum DriverAction {
    /// The target is reached: return this tip.
    Finish(TipCursor),
    /// Read the cursor's tip and step again.
    ReadTip,
    /// Ask the pipeline for attributes built on this safe head.
    ProducePayload(L2BlockInfo),
    /// Set the executor's safe head to the tip's header, then execute the attributes held
    /// by the stage.
    Execute,
    /// Signal the pipeline to flush its channel, then execute the deposit-only attributes
    /// held by the stage.
    FlushAndRetry,
    /// Build the block from the execution outcome and these attributes, advance the cursor,
    /// and read the tip again.
    Commit(PayloadAttributes),
    /// Stop with this error.
    Fail(DriverError),
}

/// Whether the driver in `stage` expects `event`.
pub open spec fn expects(stage: DriverStage, event: DriverEvent) -> bool {
    match stage {
        DriverStage::ReadTip => event is Tip,
        DriverStage::Producing { .. } => event is Produced || event is PipelineFailed,
        DriverStage::Executing { .. } => event is Executed || event is ExecutionFailed,
        DriverStage::Done => false,
    }
}

/// The block number of a tip's safe head.
pub open spec fn tip_number(tip: TipCursor) -> u64 {
    tip.l2_safe_head.block_info.number
}

/// The derivation driver: advances the L2 safe head towards a target height.
pub struct Driver {
    /// The rollup configuration.
    pub cfg: RollupConfig,
    /// The target block number, if any.
    pub target: Option<u64>,
    /// The position within the loop.
    pub stage: DriverStage,
}

impl Driver {
    /// Creates a driver that advances to `target`, or as far as the data goes when there is none.
    pub fn new(cfg: RollupConfig, target: Option<u64>) -> (r: Driver)
        ensures
            r.cfg == cfg,
            r.target == target,
            r.stage is ReadTip,
    {
        Driver { cfg, target, stage: DriverStage::ReadTip }
    }

    /// Returns whether the driver expects `event` now.
    pub fn expects(&self, event: &DriverEvent) -> (r: bool)
        ensures
            r == expects(self.stage, *event),
    {
        match (&self.stage, event) {
            (DriverStage::ReadTip, DriverEvent::Tip(_)) => true,
            (DriverStage::Producing { .. }, DriverEvent::Produced(_)) => true,
            (DriverStage::Producing { .. }, DriverEvent::PipelineFailed(_)) => true,
            (DriverStage::Executing { .. }, DriverEvent::Executed) => true,
            (DriverStage::Executing { .. }, DriverEvent::ExecutionFailed) => true,
            _ => false,
        }
    }

    /// Takes one decision of the derivation loop.
    ///
    /// At the top of the loop the target is checked against the tip. When the pipeline runs
    /// dry the target drops to the tip, and derivation stops there unless Interop is active,
    /// which makes it an error. A failed execution after Holocene flushes the channel and
    /// retries with the deposits alone, a second failure being fatal; before Holocene the
    /// attributes are dropped.
    pub fn step(&mut self, event: DriverEvent) -> (r: DriverAction)
        requires
            expects(old(self).stage, event),
        ensures
            final(self).cfg == old(self).cfg,
            match (old(self).stage, event) {
                (DriverStage::ReadTip, DriverEvent::Tip(tip)) => match old(self).target {
                    Some(t) if tip_number(tip) >= t => r == DriverAction::Finish(tip)
                        && final(self).stage is Done && final(self).target == old(self).target,
                    _ => r == DriverAction::ProducePayload(tip.l2_safe_head)
                        && final(self).stage == (DriverStage::Producing { tip })
                        && final(self).target == old(self).target,
                },
                (DriverStage::Producing { tip }, DriverEvent::Produced(a)) => {
                    &&& r == DriverAction::Execute
                    &&& final(self).stage == (DriverStage::Executing { tip, attributes: a.inner, retried: false })
                    &&& final(self).target == old(self).target
                },
                (DriverStage::Producing { tip }, DriverEvent::PipelineFailed(e)) => {
                    if e == PipelineErrorKind::Critical(PipelineError::EndOfSource) {
                        &&& final(self).target == (if old(self).target is Some {
                            Some(tip_number(tip))
                        } else {
                            None
                        })
                        &&& if active_at(old(self).cfg.interop_time, tip_number(tip)) {
                            r == DriverAction::Fail(DriverError::Pipeline(e)) && final(self).stage is Done
                        } else {
                            r == DriverAction::ReadTip && final(self).stage is ReadTip
                        }
                    } else {
                        r == DriverAction::Fail(DriverError::Pipeline(e)) && final(self).stage is Done
                            && final(self).target == old(self).target
                    }
                },
                (DriverStage::Executing { attributes, .. }, DriverEvent::Executed) => {
                    &&& r == DriverAction::Commit(attributes)
                    &&& final(self).stage is ReadTip
                    &&& final(self).target == old(self).target
                },
                (DriverStage::Executing { tip, attributes, retried }, DriverEvent::ExecutionFailed) => {
                    &&& final(self).target == old(self).target
                    &&& if retried {
                        r == DriverAction::Fail(DriverError::Executor) && final(self).stage is Done
                    } else if active_at(old(self).cfg.holocene_time, attributes.timestamp) {
                        &&& r == DriverAction::FlushAndRetry
                        &&& final(self).stage matches DriverStage::Executing { tip: t, attributes: d, retried: true }
                            && t == tip && deposit_retry_of(attributes, d)
                    } else {
                        r == DriverAction::ReadTip && final(self).stage is ReadTip
                    }
                },
                _ => false,
            },
    {
        let mut stage = DriverStage::Done;
        std::mem::swap(&mut self.stage, &mut stage);
        match (stage, event) {
            (DriverStage::ReadTip, DriverEvent::Tip(tip)) => {
                if let Some(t) = self.target {
                    if tip.l2_safe_head.block_info.number >= t {
                        return DriverAction::Finish(tip);
                    }
                }
                self.stage = DriverStage::Producing { tip };
                DriverAction::ProducePayload(tip.l2_safe_head)
            },
            (DriverStage::Producing { tip }, DriverEvent::Produced(a)) => {
                self.stage = DriverStage::Executing { tip, attributes: a.inner, retried: false };
                DriverAction::Execute
            },
            (DriverStage::Producing { tip }, DriverEvent::PipelineFailed(e)) => {
                let tip_number = tip.l2_safe_head.block_info.number;
                match e {
                    PipelineErrorKind::Critical(PipelineError::EndOfSource) => {
                        if self.target.is_some() {
                            self.target = Some(tip_number);
                        }
                        if self.cfg.is_interop_active(tip_number) {
                            DriverAction::Fail(DriverError::Pipeline(e))
                        } else {
                            self.stage = DriverStage::ReadTip;
                            DriverAction::ReadTip
                        }
                    },
                    _ => DriverAction::Fail(DriverError::Pipeline(e)),
                }
            },
            (DriverStage::Executing { attributes, .. }, DriverEvent::Executed) => {
                self.stage = DriverStage::ReadTip;
                DriverAction::Commit(attributes)
            },
            (DriverStage::Executing { tip, attributes, retried }, DriverEvent::ExecutionFailed) => {
                if retried {
                    DriverAction::Fail(DriverError::Executor)
                } else if self.cfg.is_holocene_active(attributes.timestamp) {
                    let d = attributes.deposits_only();
                    self.stage = DriverStage::Executing { tip, attributes: d, retried: true };
                    DriverAction::FlushAndRetry
                } else {
                    self.stage = DriverStage::ReadTip;
                    DriverAction::ReadTip
                }
            },
            _ => DriverAction::ReadTip,
        }
    }
}

} // verus!
