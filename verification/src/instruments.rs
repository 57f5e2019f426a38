//! The four instrument wrappers. Each pairs one backend-issued metric
//! identity with its own fork of a scope function and exposes a narrow,
//! kind-appropriate recording API; every record becomes exactly one write
//! command dispatched through the instrument's scope function.

use vstd::prelude::*;

use crate::command::ScopeCommand;
use crate::command::spec_write;
use crate::scope::ScopeFn;
use crate::scope::ScopeTarget;
use crate::time::TimeHandle;
use crate::value::ToValue;

verus! {

/// A unit event marker.
///
/// A record is always the fixed increment one; the operation is deliberately
/// parameterless to prevent accidentally mis-valued events.
pub struct Marker<M, T> {
    metric: M,
    scope: ScopeFn<M, T>,
    name: Ghost<Seq<char>>,
}

impl<M, T> Marker<M, T> {
    /// The backend-issued identity this instrument writes against.
    pub closed spec fn metric(&self) -> M {
        self.metric
    }

    /// The commands this instrument has dispatched, oldest first.
    pub closed spec fn commands(&self) -> Seq<ScopeCommand<M>> {
        self.scope.commands()
    }

    /// The qualified name this instrument was registered under, captured at
    /// creation time and never changed afterwards.
    pub closed spec fn name(&self) -> Seq<char> {
        self.name@
    }
}

impl<M: Copy, T: ScopeTarget<M>> Marker<M, T> {
    pub(crate) fn new(metric: M, scope: ScopeFn<M, T>, name: Ghost<Seq<char>>) -> (m: Self)
        ensures
            m.metric() == metric,
            m.commands() == scope.commands(),
            m.name() == name@,
    {
        Marker { metric, scope, name }
    }

    /// Record a single event occurrence: dispatch exactly one write of the
    /// fixed value one against this instrument's identity.
    pub fn mark(&mut self)
        ensures
            final(self).metric() == old(self).metric(),
            final(self).name() == old(self).name(),
            final(self).commands() == old(self).commands().push(
                spec_write(old(self).metric(), 1),
            ),
    {
        self.scope.call(ScopeCommand::Write(self.metric, 1));
    }
}

/// A counter recording non-negative amounts.
pub struct Counter<M, T> {
    metric: M,
    scope: ScopeFn<M, T>,
    name: Ghost<Seq<char>>,
}

impl<M, T> Counter<M, T> {
    /// The backend-issued identity this instrument writes against.
    pub closed spec fn metric(&self) -> M {
        self.metric
    }

    /// The commands this instrument has dispatched, oldest first.
    pub closed spec fn commands(&self) -> Seq<ScopeCommand<M>> {
        self.scope.commands()
    }

    /// The qualified name this instrument was registered under, captured at
    /// creation time and never changed afterwards.
    pub closed spec fn name(&self) -> Seq<char> {
        self.name@
    }
}

impl<M: Copy, T: ScopeTarget<M>> Counter<M, T> {
    pub(crate) fn new(metric: M, scope: ScopeFn<M, T>, name: Ghost<Seq<char>>) -> (c: Self)
        ensures
            c.metric() == metric,
            c.commands() == scope.commands(),
            c.name() == name@,
    {
        Counter { metric, scope, name }
    }

    /// Record an amount: dispatch exactly one write of the coerced value
    /// against this instrument's identity. The input must be coercible, that
    /// is its mathematical value must lie in `0 ..= u64::MAX`.
    pub fn count<V: ToValue>(&mut self, count: V)
        requires
            0 <= count.as_int() <= u64::MAX as int,
        ensures
            final(self).metric() == old(self).metric(),
            final(self).name() == old(self).name(),
            final(self).commands() == old(self).commands().push(
                spec_write(old(self).metric(), count.as_int()),
            ),
    {
        let value = count.to_value();
        self.scope.call(ScopeCommand::Write(self.metric, value));
    }
}

/// A gauge recording instantaneous values.
pub struct Gauge<M, T> {
    metric: M,
    scope: ScopeFn<M, T>,
    name: Ghost<Seq<char>>,
}

impl<M, T> Gauge<M, T> {
    /// The backend-issued identity this instrument writes against.
    pub closed spec fn metric(&self) -> M {
        self.metric
    }

    /// The commands this instrument has dispatched, oldest first.
    pub closed spec fn commands(&self) -> Seq<ScopeCommand<M>> {
        self.scope.commands()
    }

    /// The qualified name this instrument was registered under, captured at
    /// creation time and never changed afterwards.
    pub closed spec fn name(&self) -> Seq<char> {
        self.name@
    }
}

impl<M: Copy, T: ScopeTarget<M>> Gauge<M, T> {
    pub(crate) fn new(metric: M, scope: ScopeFn<M, T>, name: Ghost<Seq<char>>) -> (g: Self)
        ensures
            g.metric() == metric,
            g.commands() == scope.commands(),
            g.name() == name@,
    {
        Gauge { metric, scope, name }
    }

    /// Record a value point: dispatch exactly one write of the coerced value
    /// against this instrument's identity. The input must be coercible, that
    /// is its mathematical value must lie in `0 ..= u64::MAX`.
    pub fn value<V: ToValue>(&mut self, value: V)
        requires
            0 <= value.as_int() <= u64::MAX as int,
        ensures
            final(self).metric() == old(self).metric(),
            final(self).name() == old(self).name(),
            final(self).commands() == old(self).commands().push(
                spec_write(old(self).metric(), value.as_int()),
            ),
    {
        let magnitude = value.to_value();
        self.scope.call(ScopeCommand::Write(self.metric, magnitude));
    }
}

/// A timer recording microsecond intervals.
///
/// Intervals can be recorded in three ways: with an externally measured
/// microsecond value through [`Timer::interval_us`], with a
/// [`Timer::start`] / [`Timer::stop`] pair around the operation to time, or
/// with [`Timer::time`], which wraps a closure with `start` and `stop`.
pub struct Timer<M, T> {
    metric: M,
    scope: ScopeFn<M, T>,
    name: Ghost<Seq<char>>,
}

impl<M, T> Timer<M, T> {
    /// The backend-issued identity this instrument writes against.
    pub closed spec fn metric(&self) -> M {
        self.metric
    }

    /// The commands this instrument has dispatched, oldest first.
    pub closed spec fn commands(&self) -> Seq<ScopeCommand<M>> {
        self.scope.commands()
    }

    /// The qualified name this instrument was registered under, captured at
    /// creation time and never changed afterwards.
    pub closed spec fn name(&self) -> Seq<char> {
        self.name@
    }
}

impl<M: Copy, T: ScopeTarget<M>> Timer<M, T> {
    pub(crate) fn new(metric: M, scope: ScopeFn<M, T>, name: Ghost<Seq<char>>) -> (t: Self)
        ensures
            t.metric() == metric,
            t.commands() == scope.commands(),
            t.name() == name@,
    {
        Timer { metric, scope, name }
    }

    /// Record an externally measured microsecond interval: dispatch exactly
    /// one write of the coerced value against this instrument's identity and
    /// return the input unchanged, so that calls can be chained. The input
    /// must be coercible, that is its mathematical value must lie in
    /// `0 ..= u64::MAX`.
    pub fn interval_us<V: ToValue>(&mut self, interval_us: V) -> (r: V)
        requires
            0 <= interval_us.as_int() <= u64::MAX as int,
        ensures
            r == interval_us,
            final(self).metric() == old(self).metric(),
            final(self).name() == old(self).name(),
            final(self).commands() == old(self).commands().push(
                spec_write(old(self).metric(), interval_us.as_int()),
            ),
    {
        let value = interval_us.to_value();
        self.scope.call(ScopeCommand::Write(self.metric, value));
        interval_us
    }

    /// Capture an opaque handle to the current instant, to be handed back to
    /// [`Timer::stop`]. Handles are not bound to this specific timer.
    pub fn start(&self) -> TimeHandle {
        TimeHandle::now()
    }

    /// Record the microseconds elapsed since the handle was captured:
    /// dispatch exactly one write of the elapsed value against this
    /// instrument's identity and return that value. The same handle may be
    /// passed again later; each call reports the interval since the handle's
    /// original capture.
    pub fn stop(&mut self, start_time: TimeHandle) -> (r: u64)
        ensures
            final(self).metric() == old(self).metric(),
            final(self).name() == old(self).name(),
            final(self).commands() == old(self).commands().push(
                spec_write(old(self).metric(), r as int),
            ),
    {
        let elapsed_us = start_time.elapsed_us();
        self.interval_us(elapsed_us)
    }

    /// Run the operation and record the time it took: dispatch exactly one
    /// write of the elapsed microseconds against this instrument's identity,
    /// after the operation returns, and hand the operation's result through.
    pub fn time<F: FnOnce() -> R, R>(&mut self, operations: F) -> (r: R)
        requires
            call_requires(operations, ()),
        ensures
            call_ensures(operations, (), r),
            final(self).metric() == old(self).metric(),
            final(self).name() == old(self).name(),
            exists|elapsed: u64|
                final(self).commands() == old(self).commands().push(
                    spec_write(old(self).metric(), elapsed as int),
                ),
    {
        let start_time = self.start();
        let value: R = operations();
        self.stop(start_time);
        value
    }
}

} // verus!
