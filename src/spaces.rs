//! Slot representations that share the capability of being built empty.
use vstd::prelude::*;

pub mod container;
pub mod empty;

pub use container::ContainerSpace;
pub use container::NoElementError;
pub use empty::EmptySpace;

verus! {

/// A space on a board, that may contain an element of type `T`.
pub trait Space<T: Sized> {
    /// Whether the space holds no element.
    spec fn is_vacant(&self) -> bool;

    /// Creates a space that holds no element.
    fn new() -> (r: Self)
        where Self: Sized
        ensures
            r.is_vacant(),
    ;
}

} // verus!
