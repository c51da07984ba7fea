//! A slot that holds at most one value and can be filled late, through a
//! reference that promises never to move what the slot holds.

pub mod compare;
pub mod laws;
pub mod slot;

pub use slot::LazyPinned;
