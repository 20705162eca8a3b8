//! The debounced binary sensor: filters a raw two-valued reading into a
//! stable one, suppressing flips faster than a fixed settle time.
//!
//! The hardware read itself lives with the caller; the sensor core takes the
//! polarity-normalized reading and the current monotonic time (microseconds)
//! as plain arguments, so its behaviour is a function of its inputs alone.

use vstd::prelude::*;

verus! {

/// A reading of a reed-switch circuit. `Uninitialized` means no reading has
/// been accepted yet.
#[derive(Debug, Clone, Copy, PartialEq, Eq, Structural)]
pub enum SwitchState {
    CircuitOpen,
    CircuitClosed,
    Uninitialized,
}

/// Minimum stable interval before a new reading is accepted, in microseconds.
pub const DEBOUNCE_DELAY_US: u64 = 50_000;

/// A debounced sensor: the stable reading, the reading it replaced (kept for
/// diagnostics only), and when the stable reading last changed.
pub struct ReedSwitch {
    pub state: SwitchState,
    pub prev_state: Option<SwitchState>,
    pub last_changed: u64,
}

/// Whether a raw reading taken at `read_time` is accepted as a change: it
/// must differ from the stored reading, and the debounce window since the
/// last accepted change must have fully elapsed.
pub open spec fn spec_accepts(sw: ReedSwitch, reading: SwitchState, read_time: u64) -> bool {
    reading != sw.state && read_time - sw.last_changed > DEBOUNCE_DELAY_US
}

/// The sensor after one update: on acceptance the reading is stored and the
/// settle clock restarts; on rejection nothing moves.
pub open spec fn spec_step(sw: ReedSwitch, reading: SwitchState, read_time: u64) -> ReedSwitch {
    if spec_accepts(sw, reading, read_time) {
        ReedSwitch {
            state: reading,
            prev_state: Some(sw.state),
            last_changed: read_time,
        }
    } else {
        sw
    }
}

impl ReedSwitch {
    /// A fresh sensor: no reading yet, settle clock started at `now_us`.
    pub fn new(now_us: u64) -> (r: Self)
        ensures
            r.state == SwitchState::Uninitialized,
            r.prev_state is None,
            r.last_changed == now_us,
    {
        ReedSwitch {
            state: SwitchState::Uninitialized,
            prev_state: None,
            last_changed: now_us,
        }
    }

    /// Feeds one raw reading to the sensor; returns whether it was accepted.
    /// `read_time` comes from a monotonic clock, so it never precedes the
    /// stored change time.
    pub fn update(&mut self, new_reading: SwitchState, read_time: u64) -> (changed: bool)
        requires
            old(self).last_changed <= read_time,
        ensures
            *final(self) == spec_step(*old(self), new_reading, read_time),
            changed == spec_accepts(*old(self), new_reading, read_time),
    {
        let elapsed = read_time - self.last_changed;

        if new_reading != self.state && elapsed > DEBOUNCE_DELAY_US {
            self.prev_state = Some(self.state);
            self.state = new_reading;
            self.last_changed = read_time;
            true
        } else {
            false
        }
    }

    /// The current stable reading.
    pub fn state(&self) -> (r: SwitchState)
        ensures
            r == self.state,
    {
        self.state
    }
}

/// Two raw flips inside the debounce window register no accepted change:
/// whatever the two readings are, both updates are rejected and the sensor
/// is left exactly as it was.
pub proof fn lemma_flips_within_window_rejected(
    sw: ReedSwitch,
    r1: SwitchState,
    t1: u64,
    r2: SwitchState,
    t2: u64,
)
    requires
        t1 <= sw.last_changed + DEBOUNCE_DELAY_US,
        t2 <= sw.last_changed + DEBOUNCE_DELAY_US,
    ensures
        !spec_accepts(sw, r1, t1),
        !spec_accepts(spec_step(sw, r1, t1), r2, t2),
        spec_step(spec_step(sw, r1, t1), r2, t2) == sw,
{
}

/// A flip held stable past the debounce window registers exactly once: the
/// first update accepts it, and a later update with the same raw reading is
/// rejected and leaves the sensor unchanged.
pub proof fn lemma_stable_flip_registers_once(
    sw: ReedSwitch,
    reading: SwitchState,
    t1: u64,
    t2: u64,
)
    requires
        reading != sw.state,
        sw.last_changed + DEBOUNCE_DELAY_US < t1,
    ensures
        spec_accepts(sw, reading, t1),
        spec_step(sw, reading, t1).state == reading,
        !spec_accepts(spec_step(sw, reading, t1), reading, t2),
        spec_step(spec_step(sw, reading, t1), reading, t2) == spec_step(sw, reading, t1),
{
}

} // verus!
