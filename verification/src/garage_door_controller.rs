//! The per-cycle orchestration: debounce both sensors, resolve the door
//! position, apply the transition-timeout watchdog, and step the state
//! machine, tracking when the state last changed.

use vstd::prelude::*;
use crate::reed_switch::{ReedSwitch, SwitchState, spec_step};
use crate::state_machine::{DoorPosition, GDState, GDStateMachine, spec_transition};

verus! {

/// Maximum time a transitioning state may persist before the sensors are no
/// longer trusted, in microseconds (20 seconds).
pub const TRANSITION_TIMEOUT_US: u64 = 20_000_000;

/// Combines the two sensor readings into a door position. Both sensors
/// closed is physically contradictory and yields `Unknown`, as does any
/// uninitialized reading.
pub open spec fn spec_resolve(open: SwitchState, closed: SwitchState) -> DoorPosition {
    match (open, closed) {
        (SwitchState::CircuitClosed, SwitchState::CircuitOpen) => DoorPosition::FullyOpen,
        (SwitchState::CircuitOpen, SwitchState::CircuitClosed) => DoorPosition::FullyClosed,
        (SwitchState::CircuitOpen, SwitchState::CircuitOpen) => DoorPosition::Moving,
        (SwitchState::CircuitClosed, SwitchState::CircuitClosed) => DoorPosition::Unknown,
        _ => DoorPosition::Unknown,
    }
}

/// Drives the whole inference pipeline once per polling cycle.
pub struct GarageDoorController {
    pub open_switch: ReedSwitch,
    pub closed_switch: ReedSwitch,
    pub state_machine: GDStateMachine,
    pub last_state_change: u64,
}

/// Whether the watchdog fires at `now`: the door has been in a transitioning
/// state for strictly longer than the transition timeout.
pub open spec fn spec_timeout_expired(c: GarageDoorController, now: u64) -> bool {
    &&& (c.state_machine.state == GDState::Opening || c.state_machine.state == GDState::Closing)
    &&& now - c.last_state_change > TRANSITION_TIMEOUT_US
}

/// The position fed to the state machine at `now`: the resolved sensor
/// position, unless the watchdog fires, in which case `Unknown` overrides
/// whatever the sensors say.
pub open spec fn spec_checked_position(c: GarageDoorController, now: u64) -> DoorPosition {
    if spec_timeout_expired(c, now) {
        DoorPosition::Unknown
    } else {
        spec_resolve(c.open_switch.state, c.closed_switch.state)
    }
}

/// The controller after both sensors have debounced the cycle's raw
/// readings, before the state machine steps.
pub open spec fn spec_sensed(
    c: GarageDoorController,
    open_reading: SwitchState,
    closed_reading: SwitchState,
    now: u64,
) -> GarageDoorController {
    GarageDoorController {
        open_switch: spec_step(c.open_switch, open_reading, now),
        closed_switch: spec_step(c.closed_switch, closed_reading, now),
        ..c
    }
}

/// One full cycle: debounce, resolve with the watchdog override, step the
/// state machine, and restamp the change time exactly when the state moved.
pub open spec fn spec_tick(
    c: GarageDoorController,
    open_reading: SwitchState,
    closed_reading: SwitchState,
    now: u64,
) -> GarageDoorController {
    let sensed = spec_sensed(c, open_reading, closed_reading, now);
    let position = spec_checked_position(sensed, now);
    let next = spec_transition(sensed.state_machine.state, position);
    GarageDoorController {
        state_machine: GDStateMachine { state: next },
        last_state_change: if next != sensed.state_machine.state {
            now
        } else {
            sensed.last_state_change
        },
        ..sensed
    }
}

impl GarageDoorController {
    /// All stored timestamps are no later than `now`; holds whenever `now`
    /// comes from the same monotonic clock that produced them.
    pub open spec fn times_le(self, now: u64) -> bool {
        &&& self.open_switch.last_changed <= now
        &&& self.closed_switch.last_changed <= now
        &&& self.last_state_change <= now
    }

    /// A fresh controller around two sensors: state starts `Unknown`, and
    /// the watchdog clock starts at `now_us`.
    pub fn new(open_switch: ReedSwitch, closed_switch: ReedSwitch, now_us: u64) -> (r: Self)
        ensures
            r.open_switch == open_switch,
            r.closed_switch == closed_switch,
            r.state_machine.state == GDState::Unknown,
            r.last_state_change == now_us,
    {
        GarageDoorController {
            open_switch,
            closed_switch,
            state_machine: GDStateMachine::new(),
            last_state_change: now_us,
        }
    }

    /// The door position the current (already debounced) sensor readings
    /// imply, before any watchdog override.
    pub fn read_position(&self) -> (r: DoorPosition)
        ensures
            r == spec_resolve(self.open_switch.state, self.closed_switch.state),
    {
        match (self.open_switch.state(), self.closed_switch.state()) {
            (SwitchState::CircuitClosed, SwitchState::CircuitOpen) => DoorPosition::FullyOpen,
            (SwitchState::CircuitOpen, SwitchState::CircuitClosed) => DoorPosition::FullyClosed,
            (SwitchState::CircuitOpen, SwitchState::CircuitOpen) => DoorPosition::Moving,
            (SwitchState::CircuitClosed, SwitchState::CircuitClosed) => DoorPosition::Unknown,
            _ => DoorPosition::Unknown,
        }
    }

    /// The position to feed the state machine: the resolved position, or
    /// `Unknown` when the door has been transitioning for too long.
    pub fn check_door_position(&self, current_us: u64) -> (r: DoorPosition)
        requires
            self.last_state_change <= current_us,
        ensures
            r == spec_checked_position(*self, current_us),
    {
        let position = self.read_position();
        let elapsed = current_us - self.last_state_change;

        match self.state_machine.state() {
            GDState::Opening | GDState::Closing => {
                if elapsed > TRANSITION_TIMEOUT_US {
                    DoorPosition::Unknown
                } else {
                    position
                }
            },
            _ => position,
        }
    }

    /// Runs one polling cycle on the raw sensor readings taken at `now_us`;
    /// returns whether the door state changed.
    pub fn update(
        &mut self,
        open_reading: SwitchState,
        closed_reading: SwitchState,
        now_us: u64,
    ) -> (changed: bool)
        requires
            old(self).times_le(now_us),
        ensures
            *final(self) == spec_tick(*old(self), open_reading, closed_reading, now_us),
            changed == (final(self).state_machine.state != old(self).state_machine.state),
            final(self).times_le(now_us),
    {
        self.open_switch.update(open_reading, now_us);
        self.closed_switch.update(closed_reading, now_us);

        let position = self.check_door_position(now_us);

        let state_changed = self.state_machine.update(position);

        if state_changed {
            self.last_state_change = now_us;
        }

        state_changed
    }

    /// The current door state.
    pub fn state(&self) -> (r: GDState)
        ensures
            r == self.state_machine.state,
    {
        self.state_machine.state()
    }

    /// The door is safe exactly when its state is known.
    pub fn is_safe(&self) -> (r: bool)
        ensures
            r == (self.state_machine.state != GDState::Unknown),
    {
        !matches!(self.state(), GDState::Unknown)
    }
}

/// The watchdog bounds trust in a stalled motor: from `Opening`, once more
/// than the transition timeout has passed since the last state change, the
/// next cycle feeds the state machine `Unknown` regardless of what the
/// sensors read, and the door lands in `SafetyStoppedWhileOpening`.
pub proof fn lemma_watchdog_forces_unknown(
    c: GarageDoorController,
    open_reading: SwitchState,
    closed_reading: SwitchState,
    now: u64,
)
    requires
        c.state_machine.state == GDState::Opening,
        now - c.last_state_change > TRANSITION_TIMEOUT_US,
    ensures
        spec_checked_position(spec_sensed(c, open_reading, closed_reading, now), now)
            == DoorPosition::Unknown,
        spec_tick(c, open_reading, closed_reading, now).state_machine.state
            == GDState::SafetyStoppedWhileOpening,
{
}

} // verus!
