//! One module per device, and the pieces they share.
use vstd::prelude::*;

pub mod aht30;
pub mod bits;
pub mod bme280;
pub mod button;
pub mod dht11;
pub mod hx711;
pub mod pin;

verus! {

} // verus!
