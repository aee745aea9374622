//! Messages that the service takes from the broker are read through a
//! `Delegate`, which stands for the message it wraps.

use vstd::prelude::*;

use crate::client::ClientEvent;

verus! {

/// A wrapper that stands for its value.
pub struct Delegate<T>(T);

/// A client's event as the service receives it.
pub type ClientDelegate<T> = Delegate<ClientEvent<T>>;

impl<T> Delegate<T> {
    /// The value that the wrapper stands for.
    pub closed spec fn inner(self) -> T {
        self.0
    }

    /// Gives the wrapped value back.
    pub fn into_owned(self) -> (t: T)
        ensures
            t == self.inner(),
    {
        self.0
    }

    /// Wraps `value`.
    pub fn new(value: T) -> (d: Self)
        ensures
            d.inner() == value,
    {
        Delegate(value)
    }

}

impl<T> core::ops::Deref for Delegate<T> {
    type Target = T;

    fn deref(&self) -> (t: &T)
        ensures
            *t == self.inner(),
    {
        &self.0
    }
}

} // verus!
