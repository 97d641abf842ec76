//! Behaviour shared by the coded attributes.
use vstd::prelude::*;

verus! {

/// Anything that stands for one numeric SGR code.
pub trait Coded {
    /// The code, as a mathematical value.
    spec fn spec_code(&self) -> u8;

    /// The primary SGR code.
    fn code(&self) -> (r: u8)
        ensures
            r == self.spec_code(),
    ;
}

} // verus!
