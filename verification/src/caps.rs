use vstd::prelude::*;

verus! {

/// Read capability: any source of a read-only borrow of a `T`.
///
/// `read_view` is the value such a borrow observes; every implementation
/// promises that `as_read` returns exactly that value.
pub trait Readable<T> {
    /// The value a read through the capability observes.
    spec fn read_view(&self) -> T;

    /// Returns a read-only borrow of the underlying value.
    fn as_read(&self) -> (r: &T)
        ensures
            *r == self.read_view(),
    ;
}

/// Write capability: any source of an exclusive borrow of a `T`.
///
/// The borrow that `as_write` returns starts at the value `read_view`
/// observes, and whatever the caller leaves behind it is what the capability
/// reads afterwards.
pub trait Writable<T>: Readable<T> {
    /// Returns an exclusive borrow of the underlying value.
    fn as_write(&mut self) -> (r: &mut T)
        ensures
            *r == old(self).read_view(),
            final(self).read_view() == *final(r),
    ;
}

} // verus!
