//! Debouncing of a push button: a reading is taken as eight samples, and
//! only eight equal samples count as a stable state.
use vstd::prelude::*;

use crate::sensor::pin::Level;

verus! {

/// Samples in one reading.
pub const SAMPLES: usize = 8;
/// Readings tried when the driver starts, before it gives up.
pub const INIT_ATTEMPTS: usize = 10;

/// Anti-shake button sensor error; `E` is the pin's own error.
pub enum AntishakeDriverError<E> {
    /// Sensor raw error
    Raw(E),
    /// Sensor not ready
    NotReady,
}

/// Shift one sample into the window of the last eight: a high sample
/// enters as a 1 bit.
pub fn shift_sample(window: u8, is_high: bool) -> (r: u8)
    ensures
        r == (window as int * 2) % 256 + (if is_high { 1int } else { 0 }),
{
    let r = if is_high {
        (window << 1u8) | 1
    } else {
        window << 1u8
    };
    assert(((window << 1u8) | 1) == (window as int * 2) % 256 + 1) by (bit_vector);
    assert((window << 1u8) == (window as int * 2) % 256) by (bit_vector);
    r
}

/// The state that a window of eight samples shows: pressed or released
/// where all eight are equal, `None` while the input bounces.
pub open spec fn stable_state(window: u8, in_level: Level) -> Option<bool> {
    if window == 0xFF {
        Some(in_level == Level::High)
    } else if window == 0 {
        Some(in_level == Level::Low)
    } else {
        None
    }
}

/// Read the state of the button from a window of eight samples.
///
/// - Some(true): the button is pressed
/// - Some(false): the button is released
/// - None: the samples disagree, read again
pub fn classify(window: u8, in_level: Level) -> (r: Option<bool>)
    ensures
        r == stable_state(window, in_level),
{
    if window == 0xFF {
        Some(in_level == Level::High)
    } else if window == 0x00 {
        Some(in_level == Level::Low)
    } else {
        None
    }
}

/// The state that a driver reports after a reading: the stable state read,
/// or the last one while the input bounces.
pub fn next_state(last_state: bool, reading: Option<bool>) -> (r: bool)
    ensures
        r == match reading {
            Some(s) => s,
            None => last_state,
        },
{
    match reading {
        Some(s) => s,
        None => last_state,
    }
}

/// What a driver that is starting does after a reading.
#[derive(Clone, Copy, Debug, PartialEq, Eq, Structural)]
pub enum Startup {
    /// The reading was stable: start with this state (true: pressed).
    Ready(bool),
    /// The input bounced: take another reading.
    Retry,
    /// The input bounced on every one of the `INIT_ATTEMPTS` readings.
    NotReady,
}

/// The decision after the `attempt`-th reading (counting from 1) of a
/// starting driver: a stable reading starts it, a bouncing one is retried
/// until `INIT_ATTEMPTS` readings have been taken.
pub fn startup_step(attempt: usize, reading: Option<bool>) -> (r: Startup)
    requires
        attempt >= 1,
    ensures
        r == match reading {
            Some(s) => Startup::Ready(s),
            None => if attempt < INIT_ATTEMPTS {
                Startup::Retry
            } else {
                Startup::NotReady
            },
        },
{
    match reading {
        Some(s) => Startup::Ready(s),
        None => if attempt < INIT_ATTEMPTS {
            Startup::Retry
        } else {
            Startup::NotReady
        },
    }
}

} // verus!
