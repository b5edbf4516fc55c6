//! Player controls for a small planet-gravity demo: key input mapped to thrust
//! and rotation steps, with the mapping proved exact.
use vstd::prelude::*;

pub mod controls;

verus! {

} // verus!
