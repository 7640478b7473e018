use vstd::prelude::*;
use crate::caps::Readable;
use crate::caps::Writable;

verus! {

/// A container that owns its value outright.
///
/// The holder grants read and write access to the value it stores, and hands
/// the value back by move when consumed. Its lifetime is exactly the value's
/// lifetime, so no borrow bookkeeping is needed.
#[derive(Clone, Copy)]
pub struct Own<T> {
    inner: T,
}

impl<T> View for Own<T> {
    type V = T;

    closed spec fn view(&self) -> T {
        self.inner
    }
}

impl<T> Own<T> {
    /// Takes ownership of the given value.
    pub fn new(inner: T) -> (r: Self)
        ensures
            r@ == inner,
    {
        Own { inner }
    }

    /// Returns a read-only borrow of the owned value.
    pub fn get(&self) -> (r: &T)
        ensures
            *r == self@,
    {
        &self.inner
    }

    /// Returns an exclusive borrow of the owned value.
    pub fn get_mut(&mut self) -> (r: &mut T)
        ensures
            *r == old(self)@,
            final(self)@ == *final(r),
    {
        &mut self.inner
    }

    /// Returns the owned value, consuming the holder.
    pub fn into_inner(self) -> (r: T)
        ensures
            r == self@,
    {
        self.inner
    }
}

impl<T> Readable<T> for Own<T> {
    open spec fn read_view(&self) -> T {
        self@
    }

    fn as_read(&self) -> (r: &T)
        ensures
            *r == self.read_view(),
    {
        self.get()
    }
}

impl<T> Writable<T> for Own<T> {
    fn as_write(&mut self) -> (r: &mut T)
        ensures
            *r == old(self).read_view(),
            final(self).read_view() == *final(r),
    {
        self.get_mut()
    }
}

/// Law: a holder hands back exactly the value it was given.
pub fn own_round_trip<T>(v: T) -> (r: T)
    ensures
        r == v,
{
    Own::new(v).into_inner()
}

/// Law: reading through the read capability of an `Own` observes exactly the
/// value that `get` returns.
pub proof fn lemma_own_read_agrees<T>(o: Own<T>)
    ensures
        o.read_view() == o@,
{
}

} // verus!
