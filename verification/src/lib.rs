//! A backend-agnostic instrumentation facade.
//!
//! Application code obtains named metric instruments (markers, counters,
//! gauges, timers) from an [`AppMetrics`](facade::AppMetrics) facade and
//! records values through them; storage and transmission of those values is
//! delegated to a pluggable backend reached through the
//! [`Sink`](sink::Sink) / [`ScopeFn`](scope::ScopeFn) protocol.

pub mod command;
pub mod facade;
pub mod instruments;
pub mod registry;
pub mod scope;
pub mod sink;
pub mod time;
pub mod value;

pub use command::Kind;
pub use command::Rate;
pub use command::ScopeCommand;
pub use facade::AppMetrics;
pub use facade::metrics;
pub use instruments::Counter;
pub use instruments::Gauge;
pub use instruments::Marker;
pub use instruments::Timer;
pub use registry::Instrument;
pub use registry::build_instruments;
pub use scope::ScopeFn;
pub use scope::ScopeTarget;
pub use sink::Sink;
pub use time::TimeHandle;
pub use value::ToValue;
