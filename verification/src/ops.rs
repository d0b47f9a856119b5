//! The two ways in which values are held: a container of one value, and a
//! space of bytes reached by address.

use vstd::prelude::*;
use crate::error::EngineError;

verus! {

/// Something that holds one unsigned value of a fixed width and hands it out
/// and takes it back whole.
pub trait ByteContainer {
    /// The width of the value held.
    type W;

    /// The value held.
    spec fn value(&self) -> Self::W;

    fn get(&self) -> (v: Self::W)
        ensures
            v == self.value(),
    ;

    fn set(&mut self, v: Self::W)
        ensures
            final(self).value() == v,
    ;
}

/// A space of bytes of fixed size, read and written in units of width `W`
/// at 16-bit addresses. An access that does not lie wholly inside the space
/// is refused and changes nothing.
pub trait Addressable<W>: Sized {
    /// Whether a unit of width `W` that starts at `addr` lies wholly inside
    /// the space.
    spec fn holds(&self, addr: u16) -> bool;

    /// The unit of width `W` that starts at `addr`.
    spec fn at(&self, addr: u16) -> W;

    fn get(&self, addr: u16) -> (r: Result<W, EngineError>)
        ensures
            self.holds(addr) ==> r == Ok::<W, EngineError>(self.at(addr)),
            !self.holds(addr) ==> r == Err::<W, EngineError>(EngineError::OutOfBounds),
    ;

    fn set(&mut self, addr: u16, v: W) -> (r: Result<(), EngineError>)
        ensures
            old(self).holds(addr) ==> r is Ok && final(self).at(addr) == v,
            !old(self).holds(addr) ==> r == Err::<(), EngineError>(EngineError::OutOfBounds)
                && *final(self) == *old(self),
            forall|a: u16| final(self).holds(a) == old(self).holds(a),
    ;
}

} // verus!
