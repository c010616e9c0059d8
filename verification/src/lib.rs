//! A small model of two hardware-description assignment semantics inside one
//! synchronous process: immediate ("variable") assignment, delta-delayed
//! ("signal") assignment, and an asynchronous reset that overrides both.
//!
//! A [`CounterUnit`] holds three byte-wide registers. One clock cycle is two
//! phases: [`CounterUnit::update`] evaluates the process (reset and enable
//! logic; the next signal value is only buffered), and
//! [`CounterUnit::apply_signal_update`] commits the buffered value at the
//! clock edge.

use vstd::prelude::*;

verus! {

/// State of the asynchronous reset line.
///
/// An explicit two-state value instead of a bare boolean, so that no caller
/// has to remember whether the line is active-low or active-high.
#[derive(Clone, Copy, PartialEq, Eq, Structural, Debug)]
pub enum Reset {
    /// Reset is asserted: the process clears all registers.
    Asserted,
    /// Reset is released: the process runs normally.
    Released,
}

/// A synchronous process with three byte-wide registers.
///
/// `variable_counter` models a variable: it changes immediately inside the
/// evaluation phase. `signal_counter` models a signal: during evaluation its
/// next value is only parked in `signal_buffer`, and it takes that value at
/// the commit point. All arithmetic wraps past 255 back to 0.
#[derive(Clone, Copy, PartialEq, Eq, Structural, Debug)]
pub struct CounterUnit {
    /// Immediate-assignment register: advances inside the evaluation phase.
    pub variable_counter: u8,
    /// Delayed-assignment register: changes only at the commit point.
    pub signal_counter: u8,
    /// Holds the next value of `signal_counter` until it is committed.
    pub signal_buffer: u8,
}

/// The next value of a byte-wide register: one more, wrapping past 255 to 0.
pub open spec fn wrap_inc(x: u8) -> u8 {
    if x == 255 {
        0
    } else {
        (x + 1) as u8
    }
}

/// The state with all three registers cleared.
pub open spec fn zero_state() -> CounterUnit {
    CounterUnit { variable_counter: 0, signal_counter: 0, signal_buffer: 0 }
}

/// The state after one evaluation phase from `u` with the given inputs.
///
/// Reset has highest priority and clears every register. Otherwise, when
/// enabled, the variable register advances immediately and the next signal
/// value is buffered while the signal register itself stays put. When
/// disabled, the process holds its state.
pub open spec fn evaluated(u: CounterUnit, reset: Reset, enable: bool) -> CounterUnit {
    if reset == Reset::Asserted {
        zero_state()
    } else if enable {
        CounterUnit {
            variable_counter: wrap_inc(u.variable_counter),
            signal_counter: u.signal_counter,
            signal_buffer: wrap_inc(u.signal_counter),
        }
    } else {
        u
    }
}

/// The state after the commit point: the signal register takes the buffered
/// value; nothing else changes.
pub open spec fn committed(u: CounterUnit) -> CounterUnit {
    CounterUnit {
        variable_counter: u.variable_counter,
        signal_counter: u.signal_buffer,
        signal_buffer: u.signal_buffer,
    }
}

impl CounterUnit {
    /// Creates a unit with all three registers at 0.
    pub fn new() -> (unit: CounterUnit)
        ensures
            unit == zero_state(),
    {
        CounterUnit { variable_counter: 0, signal_counter: 0, signal_buffer: 0 }
    }

    /// One evaluation phase of the process.
    ///
    /// Reset, when asserted, unconditionally clears all three registers,
    /// whatever `enable` says. With reset released and `enable` true, the
    /// variable register advances by one (wrapping) and the next signal value
    /// is buffered, while the signal register is left unchanged. With reset
    /// released and `enable` false, nothing changes.
    pub fn update(&mut self, reset: Reset, enable: bool)
        ensures
            *final(self) == evaluated(*old(self), reset, enable),
    {
        match reset {
            Reset::Asserted => {
                self.variable_counter = 0;
                self.signal_counter = 0;
                self.signal_buffer = 0;
            }
            Reset::Released => {
                if enable {
                    self.variable_counter = if self.variable_counter == 255 {
                        0
                    } else {
                        self.variable_counter + 1
                    };
                    self.signal_buffer = if self.signal_counter == 255 {
                        0
                    } else {
                        self.signal_counter + 1
                    };
                }
            },
        }
    }

    /// The commit point at the clock edge: the signal register takes the
    /// value the buffer held immediately before the call. The call cannot
    /// fail and is idempotent (see [`lemma_commit_idempotent`]).
    pub fn apply_signal_update(&mut self)
        ensures
            *final(self) == committed(*old(self)),
    {
        self.signal_counter = self.signal_buffer;
    }
}

/// Reset priority: for every prior state and every value of `enable`, an
/// evaluation with reset asserted clears all three registers.
pub proof fn lemma_reset_priority(u: CounterUnit, enable: bool)
    ensures
        evaluated(u, Reset::Asserted, enable) == zero_state(),
{
}

/// Enabled advance: with reset released and the process enabled, the variable
/// register and the buffer advance by one (wrapping) while the signal
/// register keeps its old value.
pub proof fn lemma_enabled_advance(u: CounterUnit)
    ensures
        evaluated(u, Reset::Released, true).variable_counter == wrap_inc(u.variable_counter),
        evaluated(u, Reset::Released, true).signal_counter == u.signal_counter,
        evaluated(u, Reset::Released, true).signal_buffer == wrap_inc(u.signal_counter),
{
}

/// Held state: with reset released and the process disabled, an evaluation
/// changes nothing.
pub proof fn lemma_held_state(u: CounterUnit)
    ensures
        evaluated(u, Reset::Released, false) == u,
{
}

/// Commit idempotence: committing twice in a row leaves the same state as
/// committing once, since the first commit already equates the signal
/// register with the buffer.
pub proof fn lemma_commit_idempotent(u: CounterUnit)
    ensures
        committed(committed(u)) == committed(u),
{
}

} // verus!
