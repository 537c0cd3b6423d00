//! Logic levels of a digital pin, as the LED, switch, relay and button
//! drivers use them.
use vstd::prelude::*;

verus! {

/// A digital pin level.
#[derive(Clone, Copy, Debug, PartialEq, Eq, Structural)]
pub enum Level {
    Low,
    High,
}

impl Level {
    /// The other level: what a pin is driven to in order to switch off a
    /// load that this level switches on.
    pub fn opposite(self) -> (r: Level)
        ensures
            r != self,
    {
        match self {
            Level::High => Level::Low,
            Level::Low => Level::High,
        }
    }
}

/// Whether an input that reads `is_high` is at the `active` level.
pub fn is_active(is_high: bool, active: Level) -> (r: bool)
    ensures
        r == (is_high == (active == Level::High)),
{
    is_high == (active == Level::High)
}

} // verus!
