use vstd::prelude::*;
use crate::scope::ScopeRef;

verus! {

/// What keeps a trace of changes: a change `change` to the value `new_value`,
/// made at `location`, is appended to the trace.
pub trait TracedChange<TC, NV, L> {
    fn change(&mut self, change: TC, new_value: NV, location: L);
}

/// What can bind a value into one of its scopes: the scope's own value of that
/// identity where it has one, else a copy that the scope gets for itself.
pub trait BindableScope<T> {
    fn bind(&mut self, scope: ScopeRef, value: &T) -> T;
}

} // verus!
