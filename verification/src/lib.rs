//! Reference capabilities: a uniform way to hand generic code read access,
//! or read and write access, to data that is borrowed immutably, borrowed
//! exclusively, or owned outright.
//!
//! Three wrapper types carry the capabilities: [`Ref`] wraps a shared
//! reference and grants read access; [`Mut`] wraps an exclusive reference and
//! grants read and write access; [`Own`] holds a value by ownership and grants
//! both as well. The [`Readable`] and [`Writable`] traits are the capability
//! contracts that generic code can bound on.
//!
//! Each wrapper stores a genuine reference, or the value itself, so a wrapper
//! is exactly as safe to move across threads, or to share between them, as
//! what it wraps: the compiler derives the wrapper's thread-safety markers
//! from the wrapped type, with nothing re-asserted by hand.

pub mod caps;
pub mod own;
pub mod read;
pub mod write;

pub use caps::Readable;
pub use caps::Writable;
pub use own::Own;
pub use read::Ref;
pub use write::Mut;
