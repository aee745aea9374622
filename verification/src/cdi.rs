//! Dependency injection: a context hands out the parts that an operation needs.

use vstd::prelude::*;

verus! {

/// The context that holds what every request shares.
#[derive(Debug, Clone, Copy, PartialEq, Eq)]
pub struct GlobalContext;

/// A context from which a `Ty` can be had.
pub trait Injects<'a, Ty: Sized + 'a>: Sized + 'a {
    fn inject(&'a self) -> Ty;
}

} // verus!
