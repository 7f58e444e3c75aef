//! Carvers. The library reads none of their fields.

use vstd::prelude::*;

verus! {

/// A carver as an element of a datapack.
#[derive(Debug, Clone, Copy, PartialEq, Eq, Structural)]
pub struct CarverElement {}

/// The fields of a carver.
#[derive(Debug, Clone, Copy, PartialEq, Eq, Structural)]
pub struct CarverData {}

} // verus!
