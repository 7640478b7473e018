use vstd::prelude::*;
use crate::caps::Readable;

verus! {

/// A non-owning, read-only view of a value, which may be unsized.
///
/// Wrapping a shared reference costs nothing and changes nothing: every
/// accessor hands the wrapped reference back as it was given. Any number of
/// `Ref`s over the same data may coexist, so the view can be duplicated
/// freely.
pub struct Ref<'a, T: ?Sized> {
    inner: &'a T,
}

impl<'a, T: ?Sized> Ref<'a, T> {
    /// The reference the view stands for.
    pub closed spec fn target(self) -> &'a T {
        self.inner
    }

    /// Wraps the given shared reference.
    pub fn new(inner: &'a T) -> (r: Self)
        ensures
            r.target() == inner,
    {
        Ref { inner }
    }

    /// Returns the wrapped reference.
    pub fn get(&self) -> (r: &'a T)
        ensures
            r == self.target(),
    {
        self.inner
    }

    /// Returns the wrapped reference, consuming the view.
    pub fn into_inner(self) -> (r: &'a T)
        ensures
            r == self.target(),
    {
        self.inner
    }
}

impl<'a, T> View for Ref<'a, T> {
    type V = T;

    closed spec fn view(&self) -> T {
        *self.inner
    }
}

impl<'a, T: ?Sized> Clone for Ref<'a, T> {
    /// Duplicates the view; both views stand for the same reference.
    fn clone(&self) -> (r: Self)
        ensures
            r.target() == self.target(),
    {
        Ref { inner: self.inner }
    }
}

impl<'a, T> Readable<T> for Ref<'a, T> {
    open spec fn read_view(&self) -> T {
        self@
    }

    fn as_read(&self) -> (r: &T)
        ensures
            *r == self.read_view(),
    {
        self.get()
    }
}

/// Law: a read view is identity-preserving. Wrapping a reference and reading
/// it back yields the original reference, for sized and unsized targets
/// alike, a slice or a zero-sized value included.
pub fn view_round_trip<T: ?Sized>(v: &T) -> (r: &T)
    ensures
        r == v,
{
    Ref::new(v).get()
}

/// Law: reading through the read capability of a `Ref` observes exactly the
/// value that `get` returns.
pub proof fn lemma_ref_read_agrees<T>(r: Ref<T>)
    ensures
        r.read_view() == r@,
{
}

} // verus!
