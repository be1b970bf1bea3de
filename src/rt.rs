//! A transparent wrapper around an I/O transport. It never touches the bytes:
//! it only holds the transport and hands it back.

use vstd::prelude::*;

verus! {

/// A wrapper that carries an I/O transport unchanged.
#[derive(Debug)]
pub struct TokioIo<T> {
    inner: T,
}

impl<T> TokioIo<T> {
    /// The transport held.
    pub closed spec fn wrapped(&self) -> T {
        self.inner
    }

    /// Wrap a transport.
    pub fn new(inner: T) -> (r: Self)
        ensures
            r.wrapped() == inner,
    {
        TokioIo { inner }
    }

    /// Borrow the inner type.
    pub fn inner(&self) -> (r: &T)
        ensures
            *r == self.wrapped(),
    {
        &self.inner
    }

    /// Mutably borrow the inner type.
    pub fn inner_mut(&mut self) -> (r: &mut T)
        ensures
            *r == old(self).wrapped(),
            final(self).wrapped() == *final(r),
    {
        &mut self.inner
    }

    /// Consume this wrapper and get the inner type.
    pub fn into_inner(self) -> (r: T)
        ensures
            r == self.wrapped(),
    {
        self.inner
    }
}

} // verus!
