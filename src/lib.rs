//! Drivers for small environmental sensors and switches, with the logic
//! that turns register bytes into readings stated and proved.
use vstd::prelude::*;

pub mod sensor;

verus! {

} // verus!
