//! The backend capability: a factory for metric identities and scope
//! functions. Backends implement it; the facade consumes it.

use vstd::prelude::*;

use crate::command::Kind;
use crate::command::Rate;
use crate::command::ScopeCommand;
use crate::scope::ScopeFn;
use crate::scope::ScopeTarget;

verus! {

/// A metrics backend, seen through the only two operations the core needs:
/// registering a named metric and opening a dispatch scope.
///
/// `M` is the backend-defined identity token for one named metric; the core
/// never inspects it. The core does not deduplicate: registering the same
/// qualified name twice may return two distinct identities.
pub trait Sink<M>: Sized {
    /// The backend's dispatch target type.
    type Target: ScopeTarget<M>;

    /// Register one metric of the given kind under the given qualified name,
    /// to be sampled at the given rate, and return its identity token.
    fn new_metric(&self, kind: Kind, name: &str, rate: Rate) -> M;

    /// Open a dispatch scope bound to this backend. With `auto_flush` the
    /// backend flushes after every write; without it the caller intends to
    /// batch writes and flush explicitly.
    fn new_scope(&self, auto_flush: bool) -> (s: ScopeFn<M, Self::Target>)
        ensures
            s.commands() == Seq::<ScopeCommand<M>>::empty(),
            s.auto_flushing() == auto_flush,
    ;
}

} // verus!
