//! The dispatch side of the protocol: a backend-supplied target that accepts
//! commands, and the shareable scope function handle that instruments hold.

use vstd::prelude::*;

use crate::command::ScopeCommand;

verus! {

/// A backend's dispatch target: the one channel through which every write and
/// flush reaches the backend.
///
/// Backends implement this trait; the effect of `accept` (aggregation,
/// encoding, transmission) is entirely the backend's concern and is opaque to
/// this crate. Implementations must tolerate concurrent invocation and must
/// not panic on any command. Cloning a target must share the underlying
/// backend state, not duplicate it.
pub trait ScopeTarget<M>: Clone {
    /// Perform the backend effect of one command.
    fn accept(&self, command: &ScopeCommand<M>);
}

/// A shareable scope function: one handle to a backend dispatch target.
///
/// Every instrument holds its own `ScopeFn` handle, forked from the handle of
/// the facade that created it, so all of them feed the same backend target.
/// Each handle keeps a ghost record of the commands dispatched through it,
/// which is what the contracts of the instruments speak about.
pub struct ScopeFn<M, T> {
    target: T,
    auto_flush: bool,
    history: Ghost<Seq<ScopeCommand<M>>>,
}

impl<M, T> ScopeFn<M, T> {
    /// The commands dispatched through this handle, oldest first.
    pub closed spec fn commands(&self) -> Seq<ScopeCommand<M>> {
        self.history@
    }

    /// Whether this scope was requested with the auto-flush policy: the
    /// backend flushes after every write.
    pub closed spec fn auto_flushing(&self) -> bool {
        self.auto_flush
    }
}

impl<M, T: ScopeTarget<M>> ScopeFn<M, T> {
    /// Bind a fresh scope function to a backend target, recording the
    /// flush policy it was requested with.
    pub fn new(target: T, auto_flush: bool) -> (s: Self)
        ensures
            s.commands() == Seq::<ScopeCommand<M>>::empty(),
            s.auto_flushing() == auto_flush,
    {
        ScopeFn { target, auto_flush, history: Ghost(Seq::empty()) }
    }

    /// A new handle to the same backend target, with its own empty record
    /// and the same flush policy.
    ///
    /// Forking is cheap and shares the underlying dispatch target, so every
    /// fork feeds the same backend.
    pub fn fork(&self) -> (s: Self)
        ensures
            s.commands() == Seq::<ScopeCommand<M>>::empty(),
            s.auto_flushing() == self.auto_flushing(),
    {
        ScopeFn {
            target: self.target.clone(),
            auto_flush: self.auto_flush,
            history: Ghost(Seq::empty()),
        }
    }

    /// Dispatch one command to the backend target.
    pub fn call(&mut self, command: ScopeCommand<M>)
        ensures
            final(self).commands() == old(self).commands().push(command),
            final(self).auto_flushing() == old(self).auto_flushing(),
    {
        self.history = Ghost(self.history@.push(command));
        self.target.accept(&command);
    }
}

} // verus!
