//! The delay timer: a value and the instant at which it was set. Reading it
//! takes off one for every full period of wall-clock time gone by since.

use crate::machine::{timer_remaining, TIMER_PERIOD_MS};
use std::time::{Duration, Instant};
use vstd::prelude::*;

verus! {

/// `std::time::Instant`, a point on the monotonic clock. Nothing of it is
/// modelled: it is kept and handed back to the clock.
#[verifier::external_type_specification]
#[verifier::external_body]
pub struct ExInstant(Instant);

/// `Instant::now` reads the clock: nothing is claimed of the instant it returns.
pub assume_specification[ Instant::now ]() -> Instant;

/// `Instant::elapsed` reads the clock: nothing is claimed of the duration it
/// returns.
pub assume_specification[ Instant::elapsed ](start: &Instant) -> Duration;

/// `Duration::as_millis` gives the whole milliseconds in a duration, whose
/// contents are not modelled: nothing is claimed of the number.
pub assume_specification[ Duration::as_millis ](duration: &Duration) -> u128;

/// A countdown that runs in real time.
pub struct Timer {
    value: u8,
    start_time: Instant,
}

impl Timer {
    /// The value the timer was last set to, or zero once it was found to have
    /// run out.
    pub closed spec fn view(&self) -> u8 {
        self.value
    }

    /// A timer that has run out.
    pub fn new() -> (timer: Timer)
        ensures
            timer@ == 0,
    {
        Timer { value: 0, start_time: Instant::now() }
    }

    /// The value the timer was last set to, or zero once it was found to have
    /// run out.
    pub fn setting(&self) -> (value: u8)
        ensures
            value == self@,
    {
        self.value
    }

    /// What a timer set to `value` reads `elapsed_ms` milliseconds later.
    pub fn value_after(value: u8, elapsed_ms: u128) -> (left: u8)
        ensures
            left == timer_remaining(value, elapsed_ms as nat),
    {
        let periods: u128 = elapsed_ms / TIMER_PERIOD_MS;
        if periods >= value as u128 {
            0
        } else {
            value - (periods as u8)
        }
    }

    /// The milliseconds of wall-clock time since the timer was set.
    pub fn elapsed_ms(&self) -> u128 {
        let elapsed = self.start_time.elapsed();
        elapsed.as_millis()
    }

    /// Reads the timer as of `elapsed_ms` milliseconds after it was set. A
    /// timer that has run out is set to zero.
    pub fn get_value_after(&mut self, elapsed_ms: u128) -> (left: u8)
        ensures
            left == timer_remaining(old(self)@, elapsed_ms as nat),
            final(self)@ == if left == 0 {
                0
            } else {
                old(self)@
            },
    {
        let left = Self::value_after(self.value, elapsed_ms);
        if left == 0 {
            self.value = 0;
        }
        left
    }

    /// Reads the timer now. Whatever the clock says, the value read is what
    /// some amount of elapsed time leaves of the value set.
    pub fn get_value(&mut self) -> (left: u8)
        ensures
            exists|elapsed_ms: nat| left == timer_remaining(old(self)@, elapsed_ms),
            left <= old(self)@,
            final(self)@ == if left == 0 {
                0
            } else {
                old(self)@
            },
    {
        let elapsed_ms = self.elapsed_ms();
        let left = self.get_value_after(elapsed_ms);
        assert(left == timer_remaining(old(self)@, elapsed_ms as nat));
        left
    }

    /// Sets the timer to `value` and restarts its clock.
    pub fn set_value(&mut self, value: u8)
        ensures
            final(self)@ == value,
    {
        self.value = value;
        self.start_time = Instant::now();
    }
}

} // verus!
