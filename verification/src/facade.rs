//! The application-facing facade: a name prefix, a shared sink, and a bound
//! scope function. It qualifies names, creates instruments, and can fork
//! itself under a different prefix without touching instruments already
//! issued.

use std::sync::Arc;

use vstd::prelude::*;
use vstd::string::StringExecFns;

use crate::command::Kind;
use crate::command::Rate;
use crate::command::ScopeCommand;
use crate::instruments::Counter;
use crate::instruments::Gauge;
use crate::instruments::Marker;
use crate::instruments::Timer;
use crate::scope::ScopeFn;
use crate::sink::Sink;

verus! {

/// The qualified name of a metric: the requested name with the facade's
/// prefix prepended verbatim, or the name unchanged when the prefix is empty.
/// Qualification is pure concatenation and always succeeds; any separator
/// belongs inside the prefix itself.
pub open spec fn spec_qualified(prefix: Seq<char>, name: Seq<char>) -> Seq<char> {
    if prefix.len() == 0 {
        name
    } else {
        prefix + name
    }
}

/// Relies on `alloc::sync::Arc::clone`: the clone shares the same allocation
/// as the original, so it holds the same value.
#[verifier::external_body]
fn share_sink<S>(sink: &Arc<S>) -> (r: Arc<S>)
    ensures
        r == *sink,
{
    Arc::clone(sink)
}

/// Wrap a metrics backend in an application-friendly facade with an empty
/// prefix and a freshly opened auto-flushing scope.
pub fn metrics<M: Copy, S: Sink<M>>(sink: S) -> (a: AppMetrics<M, S>)
    ensures
        a.prefix() == Seq::<char>::empty(),
        a.sink() == sink,
        a.auto_flushing(),
        a.commands() == Seq::<ScopeCommand<M>>::empty(),
{
    let static_scope = sink.new_scope(true);
    AppMetrics { prefix: String::new(), scope: static_scope, sink: Arc::new(sink) }
}

/// The user-facing handle combining a name prefix, a shared sink, and a bound
/// scope function. Immutable once constructed: "changing" the prefix forks a
/// new facade and leaves this one, and every instrument already issued,
/// untouched.
pub struct AppMetrics<M, S: Sink<M>> {
    prefix: String,
    sink: Arc<S>,
    scope: ScopeFn<M, S::Target>,
}

impl<M: Copy, S: Sink<M>> AppMetrics<M, S> {
    /// The prefix prepended to every requested metric name.
    pub closed spec fn prefix(&self) -> Seq<char> {
        self.prefix@
    }

    /// The backend this facade's lineage owns, behind its shared handle.
    pub closed spec fn sink(&self) -> S {
        *self.sink
    }

    /// Whether this facade's scope was requested with the auto-flush policy.
    pub closed spec fn auto_flushing(&self) -> bool {
        self.scope.auto_flushing()
    }

    /// The commands this facade has dispatched through its own scope
    /// function, oldest first.
    pub closed spec fn commands(&self) -> Seq<ScopeCommand<M>> {
        self.scope.commands()
    }

    /// The requested name under this facade's prefix: the prefix prepended
    /// verbatim, or the name unchanged when the prefix is empty.
    pub fn qualified_name(&self, name: &str) -> (r: String)
        ensures
            r@ == spec_qualified(self.prefix(), name@),
    {
        if self.prefix.as_str().is_empty() {
            return name.to_owned();
        }
        let mut buf: String = self.prefix.clone();
        buf.append(name);
        buf
    }

    /// Create an event marker of the provided name: register the qualified
    /// name with the sink under the marker kind at the full sampling rate,
    /// and bind the returned identity to a fork of this facade's scope
    /// function.
    pub fn marker(&self, name: &str) -> (m: Marker<M, S::Target>)
        ensures
            m.name() == spec_qualified(self.prefix(), name@),
            m.commands() == Seq::<ScopeCommand<M>>::empty(),
    {
        let qualified = self.qualified_name(name);
        let metric = self.sink.new_metric(Kind::Marker, qualified.as_str(), Rate::full());
        Marker::new(metric, self.scope.fork(), Ghost(qualified@))
    }

    /// Create a counter of the provided name: register the qualified name
    /// with the sink under the counter kind at the full sampling rate, and
    /// bind the returned identity to a fork of this facade's scope function.
    pub fn counter(&self, name: &str) -> (c: Counter<M, S::Target>)
        ensures
            c.name() == spec_qualified(self.prefix(), name@),
            c.commands() == Seq::<ScopeCommand<M>>::empty(),
    {
        let qualified = self.qualified_name(name);
        let metric = self.sink.new_metric(Kind::Counter, qualified.as_str(), Rate::full());
        Counter::new(metric, self.scope.fork(), Ghost(qualified@))
    }

    /// Create a timer of the provided name: register the qualified name with
    /// the sink under the timer kind at the full sampling rate, and bind the
    /// returned identity to a fork of this facade's scope function.
    pub fn timer(&self, name: &str) -> (t: Timer<M, S::Target>)
        ensures
            t.name() == spec_qualified(self.prefix(), name@),
            t.commands() == Seq::<ScopeCommand<M>>::empty(),
    {
        let qualified = self.qualified_name(name);
        let metric = self.sink.new_metric(Kind::Timer, qualified.as_str(), Rate::full());
        Timer::new(metric, self.scope.fork(), Ghost(qualified@))
    }

    /// Create a gauge of the provided name: register the qualified name with
    /// the sink under the gauge kind at the full sampling rate, and bind the
    /// returned identity to a fork of this facade's scope function.
    pub fn gauge(&self, name: &str) -> (g: Gauge<M, S::Target>)
        ensures
            g.name() == spec_qualified(self.prefix(), name@),
            g.commands() == Seq::<ScopeCommand<M>>::empty(),
    {
        let qualified = self.qualified_name(name);
        let metric = self.sink.new_metric(Kind::Gauge, qualified.as_str(), Rate::full());
        Gauge::new(metric, self.scope.fork(), Ghost(qualified@))
    }

    /// Fork this facade under another prefix. The new prefix replaces the
    /// old one entirely, it is not appended to it; the fork shares this
    /// facade's sink and dispatch target. Neither this facade nor any
    /// instrument already obtained from it is affected.
    pub fn with_prefix(&self, prefix: &str) -> (a: Self)
        ensures
            a.prefix() == prefix@,
            a.sink() == self.sink(),
            a.auto_flushing() == self.auto_flushing(),
            a.commands() == Seq::<ScopeCommand<M>>::empty(),
    {
        AppMetrics {
            prefix: prefix.to_owned(),
            sink: share_sink(&self.sink),
            scope: self.scope.fork(),
        }
    }

    /// Forcefully flush the backing scope: dispatch exactly one flush
    /// command, and no write, through this facade's own scope function.
    /// Usually unnecessary, since the facade's scope is opened auto-flushing.
    pub fn flush_scope(&mut self)
        ensures
            final(self).prefix() == old(self).prefix(),
            final(self).sink() == old(self).sink(),
            final(self).auto_flushing() == old(self).auto_flushing(),
            final(self).commands() == old(self).commands().push(ScopeCommand::Flush),
    {
        self.scope.call(ScopeCommand::Flush);
    }
}

} // verus!
