use vstd::prelude::*;
use crate::caps::Readable;
use crate::caps::Writable;

verus! {

/// A non-owning, exclusive view of a value.
///
/// The view stands between its holder and the wrapped exclusive reference:
/// reads observe the value currently behind it, writes through `get_mut` or
/// the write capability land in the underlying storage. The view cannot be
/// duplicated; that would break the exclusivity a mutable borrow promises.
pub struct Mut<'a, T> {
    /// The exclusive reference the view stands for; exposed so that contracts
    /// can relate the value behind it before and after writes through the
    /// view.
    pub inner: &'a mut T,
}

impl<'a, T> Mut<'a, T> {
    /// The value currently behind the view.
    pub open spec fn value(self) -> T {
        *self.inner
    }

    /// Wraps the given exclusive reference.
    pub fn new(inner: &'a mut T) -> (r: Self)
        ensures
            r.value() == *old(inner),
            *final(r.inner) == *final(inner),
    {
        Mut { inner }
    }

    /// Returns a read-only borrow of the value behind the view.
    pub fn get(&self) -> (r: &T)
        ensures
            *r == self.value(),
    {
        &*self.inner
    }

    /// Returns an exclusive borrow of the value behind the view.
    pub fn get_mut(&mut self) -> (r: &mut T)
        ensures
            *r == old(self).value(),
            final(self).value() == *final(r),
            *final(final(self).inner) == *final(old(self).inner),
    {
        &mut *self.inner
    }

    /// Returns the wrapped reference, consuming the view.
    pub fn into_inner(self) -> (r: &'a mut T)
        ensures
            *r == self.value(),
            *final(r) == *final(self.inner),
    {
        self.inner
    }
}

impl<'a, T> Readable<T> for Mut<'a, T> {
    open spec fn read_view(&self) -> T {
        self.value()
    }

    fn as_read(&self) -> (r: &T)
        ensures
            *r == self.read_view(),
    {
        self.get()
    }
}

impl<'a, T> Writable<T> for Mut<'a, T> {
    fn as_write(&mut self) -> (r: &mut T)
        ensures
            *r == old(self).read_view(),
            final(self).read_view() == *final(r),
    {
        self.get_mut()
    }
}

/// Law: a value written through `get_mut` is what a subsequent `into_inner`
/// reads, and what the underlying storage holds once every borrow is done.
pub fn write_then_take<'a, T>(target: &'a mut T, v: T) -> (r: &'a mut T)
    ensures
        *r == v,
        *final(target) == *final(r),
{
    let mut m = Mut::new(target);
    *m.get_mut() = v;
    m.into_inner()
}

/// Law: reading through the read capability of a `Mut` observes exactly the
/// value that `get` returns.
pub proof fn lemma_mut_read_agrees<T>(m: Mut<T>)
    ensures
        m.read_view() == m.value(),
{
}

} // verus!
