//! The decision logic of a free-fly camera controller: which movements and
//! turns the held keys ask for, the order in which one frame applies them
//! together with mouse look, and when the pointer is captured.
use vstd::prelude::*;

pub mod controls;
pub mod cursor;
pub mod frame;

verus! {

} // verus!
