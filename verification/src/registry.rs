//! The declarative registration surface: a builder that, given a facade and a
//! list of requested instruments, creates every one of them in order. Each
//! entry expands to exactly one instrument-factory call on the facade, so a
//! block of declarations and a sequence of individual calls produce the same
//! instruments.

use vstd::prelude::*;

use crate::command::Kind;
use crate::command::ScopeCommand;
use crate::facade::AppMetrics;
use crate::facade::spec_qualified;
use crate::instruments::Counter;
use crate::instruments::Gauge;
use crate::instruments::Marker;
use crate::instruments::Timer;
use crate::sink::Sink;

verus! {

/// One ready-made instrument of any kind.
pub enum Instrument<M, T> {
    /// An event marker.
    Marker(Marker<M, T>),
    /// A counter.
    Counter(Counter<M, T>),
    /// A gauge.
    Gauge(Gauge<M, T>),
    /// A timer.
    Timer(Timer<M, T>),
}

/// The instrument answers one request: it is of the requested kind, is
/// registered under the requested name qualified by the facade's prefix, and
/// has dispatched nothing yet.
pub open spec fn instrument_matches<M, T>(
    instrument: Instrument<M, T>,
    kind: Kind,
    prefix: Seq<char>,
    name: Seq<char>,
) -> bool {
    match instrument {
        Instrument::Marker(m) => kind == Kind::Marker && m.name() == spec_qualified(prefix, name)
            && m.commands() == Seq::<ScopeCommand<M>>::empty(),
        Instrument::Counter(c) => kind == Kind::Counter && c.name() == spec_qualified(prefix, name)
            && c.commands() == Seq::<ScopeCommand<M>>::empty(),
        Instrument::Gauge(g) => kind == Kind::Gauge && g.name() == spec_qualified(prefix, name)
            && g.commands() == Seq::<ScopeCommand<M>>::empty(),
        Instrument::Timer(t) => kind == Kind::Timer && t.name() == spec_qualified(prefix, name)
            && t.commands() == Seq::<ScopeCommand<M>>::empty(),
    }
}

/// Create one instrument on the facade for each requested `(kind, name)`
/// pair, in order. Every entry becomes exactly one factory call, so the
/// result holds one matching instrument per request.
pub fn build_instruments<M: Copy, S: Sink<M>>(
    metrics: &AppMetrics<M, S>,
    requests: &Vec<(Kind, String)>,
) -> (r: Vec<Instrument<M, S::Target>>)
    ensures
        r.len() == requests.len(),
        forall|i: int|
            0 <= i < r.len() ==> instrument_matches(
                #[trigger] r[i],
                requests[i].0,
                metrics.prefix(),
                requests[i].1@,
            ),
{
    let mut built: Vec<Instrument<M, S::Target>> = Vec::new();
    let mut index: usize = 0;
    while index < requests.len()
        invariant
            index <= requests.len(),
            built.len() == index,
            forall|i: int|
                0 <= i < built.len() ==> instrument_matches(
                    #[trigger] built[i],
                    requests[i].0,
                    metrics.prefix(),
                    requests[i].1@,
                ),
        decreases requests.len() - index,
    {
        let name: &str = requests[index].1.as_str();
        let instrument = match requests[index].0 {
            Kind::Marker => Instrument::Marker(metrics.marker(name)),
            Kind::Counter => Instrument::Counter(metrics.counter(name)),
            Kind::Gauge => Instrument::Gauge(metrics.gauge(name)),
            Kind::Timer => Instrument::Timer(metrics.timer(name)),
        };
        built.push(instrument);
        index = index + 1;
    }
    built
}

} // verus!
