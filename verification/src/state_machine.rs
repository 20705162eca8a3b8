//! The door state machine: a pure, total transducer from (state, position)
//! to the next state.

use vstd::prelude::*;

verus! {

/// Where the door is, as far as the two end-stop sensors can tell.
/// Recomputed every cycle; never stored.
#[derive(Debug, Clone, Copy, PartialEq, Eq, Structural)]
pub enum DoorPosition {
    FullyClosed,
    FullyOpen,
    Moving,
    Unknown,
}

/// The persistent state of the door. The safety-stopped states model a door
/// reversing mid-travel after hitting an obstruction.
#[derive(Debug, Clone, Copy, PartialEq, Eq, Structural)]
pub enum GDState {
    Open,
    Closed,
    Opening,
    Closing,
    SafetyStoppedWhileOpening,
    SafetyStoppedWhileClosing,
    Unknown,
}

/// The transition table. Every one of the 7 x 4 (state, position) pairs has
/// a defined successor; ambiguous input folds into `Unknown` rather than
/// failing.
pub open spec fn spec_transition(state: GDState, position: DoorPosition) -> GDState {
    match (state, position) {
        (GDState::Unknown, DoorPosition::FullyOpen) => GDState::Open,
        (GDState::Unknown, DoorPosition::FullyClosed) => GDState::Closed,
        (GDState::Unknown, DoorPosition::Moving) => GDState::Unknown,
        (GDState::Unknown, DoorPosition::Unknown) => GDState::Unknown,

        (GDState::Closed, DoorPosition::FullyOpen) => GDState::Open,
        (GDState::Closed, DoorPosition::FullyClosed) => GDState::Closed,
        (GDState::Closed, DoorPosition::Moving) => GDState::Opening,
        (GDState::Closed, DoorPosition::Unknown) => GDState::Unknown,

        (GDState::Open, DoorPosition::FullyOpen) => GDState::Open,
        (GDState::Open, DoorPosition::FullyClosed) => GDState::Closed,
        (GDState::Open, DoorPosition::Moving) => GDState::Closing,
        (GDState::Open, DoorPosition::Unknown) => GDState::Unknown,

        (GDState::Closing, DoorPosition::FullyOpen) => GDState::SafetyStoppedWhileClosing,
        (GDState::Closing, DoorPosition::FullyClosed) => GDState::Closed,
        (GDState::Closing, DoorPosition::Moving) => GDState::Closing,
        (GDState::Closing, DoorPosition::Unknown) => GDState::SafetyStoppedWhileClosing,

        (GDState::Opening, DoorPosition::FullyOpen) => GDState::Open,
        (GDState::Opening, DoorPosition::FullyClosed) => GDState::SafetyStoppedWhileOpening,
        (GDState::Opening, DoorPosition::Moving) => GDState::Opening,
        (GDState::Opening, DoorPosition::Unknown) => GDState::SafetyStoppedWhileOpening,

        (GDState::SafetyStoppedWhileClosing, DoorPosition::FullyOpen) => GDState::Open,
        (GDState::SafetyStoppedWhileClosing, DoorPosition::FullyClosed) => GDState::Closed,
        (GDState::SafetyStoppedWhileClosing, DoorPosition::Moving) => GDState::Opening,
        (GDState::SafetyStoppedWhileClosing, DoorPosition::Unknown) => GDState::SafetyStoppedWhileClosing,

        (GDState::SafetyStoppedWhileOpening, DoorPosition::FullyOpen) => GDState::Open,
        (GDState::SafetyStoppedWhileOpening, DoorPosition::FullyClosed) => GDState::Closed,
        (GDState::SafetyStoppedWhileOpening, DoorPosition::Moving) => GDState::Closing,
        (GDState::SafetyStoppedWhileOpening, DoorPosition::Unknown) => GDState::SafetyStoppedWhileOpening,
    }
}

impl GDState {
    /// The textual name of the state, as published on the telemetry channel.
    pub open spec fn spec_name(self) -> Seq<char> {
        match self {
            GDState::Open => "Open"@,
            GDState::Closed => "Closed"@,
            GDState::Opening => "Opening"@,
            GDState::Closing => "Closing"@,
            GDState::SafetyStoppedWhileOpening => "SafetyStoppedWhileOpening"@,
            GDState::SafetyStoppedWhileClosing => "SafetyStoppedWhileClosing"@,
            GDState::Unknown => "Unknown"@,
        }
    }

    /// UTF-8 state name for publishing.
    pub fn name(&self) -> (r: &'static str)
        ensures
            r@ == self.spec_name(),
    {
        match self {
            GDState::Open => "Open",
            GDState::Closed => "Closed",
            GDState::Opening => "Opening",
            GDState::Closing => "Closing",
            GDState::SafetyStoppedWhileOpening => "SafetyStoppedWhileOpening",
            GDState::SafetyStoppedWhileClosing => "SafetyStoppedWhileClosing",
            GDState::Unknown => "Unknown",
        }
    }
}

/// The state machine holds nothing but the current state.
pub struct GDStateMachine {
    pub state: GDState,
}

impl GDStateMachine {
    /// The starting state is always `Unknown` before any update.
    pub fn new() -> (r: Self)
        ensures
            r.state == GDState::Unknown,
    {
        GDStateMachine {
            state: GDState::Unknown,
        }
    }

    /// Steps the machine by the transition table; returns whether the state
    /// changed (a self-loop is not a change).
    pub fn update(&mut self, position: DoorPosition) -> (changed: bool)
        ensures
            final(self).state == spec_transition(old(self).state, position),
            changed == (final(self).state != old(self).state),
    {
        let og_state = self.state;
        match (self.state, position) {
            (GDState::Unknown, p) => match p {
                DoorPosition::FullyOpen => self.state = GDState::Open,
                DoorPosition::FullyClosed => self.state = GDState::Closed,
                DoorPosition::Moving => self.state = GDState::Unknown,
                DoorPosition::Unknown => (),
            },
            (GDState::Closed, p) => match p {
                DoorPosition::FullyOpen => self.state = GDState::Open,
                DoorPosition::FullyClosed => (),
                DoorPosition::Moving => self.state = GDState::Opening,
                DoorPosition::Unknown => self.state = GDState::Unknown,
            },
            (GDState::Open, p) => match p {
                DoorPosition::FullyOpen => (),
                DoorPosition::FullyClosed => self.state = GDState::Closed,
                DoorPosition::Moving => self.state = GDState::Closing,
                DoorPosition::Unknown => self.state = GDState::Unknown,
            },
            (GDState::Closing, p) => match p {
                DoorPosition::FullyOpen => self.state = GDState::SafetyStoppedWhileClosing,
                DoorPosition::FullyClosed => self.state = GDState::Closed,
                DoorPosition::Moving => (),
                DoorPosition::Unknown => self.state = GDState::SafetyStoppedWhileClosing,
            },
            (GDState::Opening, p) => match p {
                DoorPosition::FullyOpen => self.state = GDState::Open,
                DoorPosition::FullyClosed => self.state = GDState::SafetyStoppedWhileOpening,
                DoorPosition::Moving => (),
                DoorPosition::Unknown => self.state = GDState::SafetyStoppedWhileOpening,
            },
            (GDState::SafetyStoppedWhileClosing, p) => match p {
                DoorPosition::FullyOpen => self.state = GDState::Open,
                DoorPosition::FullyClosed => self.state = GDState::Closed,
                DoorPosition::Moving => self.state = GDState::Opening,
                DoorPosition::Unknown => (),
            },
            (GDState::SafetyStoppedWhileOpening, p) => match p {
                DoorPosition::FullyOpen => self.state = GDState::Open,
                DoorPosition::FullyClosed => self.state = GDState::Closed,
                DoorPosition::Moving => self.state = GDState::Closing,
                DoorPosition::Unknown => (),
            },
        };

        og_state != self.state
    }

    /// The current state.
    pub fn state(&self) -> (r: GDState)
        ensures
            r == self.state,
    {
        self.state
    }
}

} // verus!
