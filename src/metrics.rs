//! The node service's counters: which to describe and which to start at zero.

use vstd::prelude::*;

verus! {

/// The counter of L1 reorganisations.
pub const L1_REORG_COUNT: &'static str = "kona_node_l1_reorg_count";

/// The counter that tracks the L1 origin of the derivation pipeline.
pub const DERIVATION_L1_ORIGIN: &'static str = "kona_node_derivation_l1_origin";

/// The unit of a counter.
#[derive(Clone, Copy, Debug, PartialEq, Eq, Structural)]
pub enum Unit {
    /// A plain count.
    Count,
}

/// How a counter is described to the metrics recorder.
#[derive(Clone, Copy, Debug)]
pub struct CounterDescription {
    /// The counter's name.
    pub name: &'static str,
    /// The counter's unit, if it has one.
    pub unit: Option<Unit>,
    /// What the counter counts.
    pub description: &'static str,
}

/// A counter set to a value.
#[derive(Clone, Copy, Debug)]
pub struct CounterValue {
    /// The counter's name.
    pub name: &'static str,
    /// The value.
    pub value: u64,
}

/// Everything the recorder must be told when the service starts.
#[derive(Clone, Debug)]
pub struct MetricsSetup {
    /// The counters to describe.
    pub descriptions: Vec<CounterDescription>,
    /// The counters to set, so that they can be queried at once.
    pub values: Vec<CounterValue>,
}

/// The node service's metrics.
#[derive(Clone, Copy, Debug)]
pub struct Metrics;

impl Metrics {
    /// The descriptions of the service's counters.
    pub fn describe() -> (r: Vec<CounterDescription>)
        ensures
            r@ == seq![
                CounterDescription { name: L1_REORG_COUNT, unit: Some(Unit::Count), description: "L1 reorg count" },
                CounterDescription { name: DERIVATION_L1_ORIGIN, unit: None, description: "Derivation pipeline L1 origin" },
            ],
    {
        let mut r: Vec<CounterDescription> = Vec::new();
        r.push(CounterDescription { name: L1_REORG_COUNT, unit: Some(Unit::Count), description: "L1 reorg count" });
        r.push(CounterDescription { name: DERIVATION_L1_ORIGIN, unit: None, description: "Derivation pipeline L1 origin" });
        assert(r@ =~= seq![
            CounterDescription { name: L1_REORG_COUNT, unit: Some(Unit::Count), description: "L1 reorg count" },
            CounterDescription { name: DERIVATION_L1_ORIGIN, unit: None, description: "Derivation pipeline L1 origin" },
        ]);
        r
    }

    /// The counters that start at zero.
    pub fn zero() -> (r: Vec<CounterValue>)
        ensures
            r@ == seq![CounterValue { name: L1_REORG_COUNT, value: 0 }],
    {
        let mut r: Vec<CounterValue> = Vec::new();
        r.push(CounterValue { name: L1_REORG_COUNT, value: 0 });
        assert(r@ =~= seq![CounterValue { name: L1_REORG_COUNT, value: 0 }]);
        r
    }

    /// Describes the service's counters and starts the reorg counter at zero.
    pub fn init() -> (r: MetricsSetup)
        ensures
            r.descriptions@.len() == 2,
            r.descriptions@[0] == (CounterDescription { name: L1_REORG_COUNT, unit: Some(Unit::Count), description: "L1 reorg count" }),
            r.descriptions@[1] == (CounterDescription { name: DERIVATION_L1_ORIGIN, unit: None, description: "Derivation pipeline L1 origin" }),
            r.values@ == seq![CounterValue { name: L1_REORG_COUNT, value: 0 }],
    {
        MetricsSetup { descriptions: Self::describe(), values: Self::zero() }
    }
}

} // verus!
