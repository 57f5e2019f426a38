//! The vocabulary shared between instruments and backends: metric kinds,
//! sampling rates, and the two-variant command sent to a scope function.

use vstd::prelude::*;

verus! {

/// The semantic role of a metric, fixed when the metric is created.
#[derive(Clone, Copy, PartialEq, Eq, Debug)]
pub enum Kind {
    /// A unit event marker: every record is a fixed increment of one.
    Marker,
    /// A counter recording non-negative amounts.
    Counter,
    /// A gauge recording instantaneous values.
    Gauge,
    /// A timer recording microsecond intervals.
    Timer,
}

/// A sampling rate, stated in millionths so that it is a plain integer.
///
/// A rate of [`Rate::full`] (1_000_000 millionths, that is one) means every
/// value is recorded.
#[derive(Clone, Copy, PartialEq, Eq, Debug)]
pub struct Rate {
    /// Millionths of the sampling fraction: 1_000_000 stands for 1.0.
    pub millionths: u32,
}

impl Rate {
    /// The full sampling rate: record every value.
    pub fn full() -> (r: Rate)
        ensures
            r.millionths == 1_000_000u32,
    {
        Rate { millionths: 1_000_000 }
    }
}

/// The entire vocabulary an instrument may use to talk to a backend:
/// write one value against one metric identity, or flush pending state.
#[derive(Clone, Copy, PartialEq, Eq, Debug)]
pub enum ScopeCommand<M> {
    /// Record one value against the identity held in the first field.
    Write(M, u64),
    /// Ask the backend to flush anything pending; idempotent by contract.
    Flush,
}

/// The write command carrying a mathematical value `value`, as dispatched by
/// every instrument once its input has been coerced to the transmission
/// magnitude.
pub open spec fn spec_write<M>(metric: M, value: int) -> ScopeCommand<M> {
    ScopeCommand::Write(metric, value as u64)
}

} // verus!
