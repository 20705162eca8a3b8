//! Inbound command tokens, and the single-slot, last-write-wins holder
//! through which the telemetry channel hands them to the polling loop.

use vstd::prelude::*;
use vstd::slice::slice_index_get;

verus! {

/// A command the door can be asked to carry out.
#[derive(Debug, Clone, Copy, PartialEq, Eq, Structural)]
pub enum GarageCommand {
    Open,
    Close,
}

/// The byte string `"open"` that commands the door open.
pub open spec fn open_token() -> Seq<u8> {
    seq![111u8, 112u8, 101u8, 110u8]
}

/// The byte string `"close"` that commands the door closed.
pub open spec fn close_token() -> Seq<u8> {
    seq![99u8, 108u8, 111u8, 115u8, 101u8]
}

/// The command a payload carries: exactly `"open"` or `"close"`; any other
/// payload is ignored and yields no command.
pub open spec fn spec_command_of(bytes: Seq<u8>) -> Option<GarageCommand> {
    if bytes == open_token() {
        Some(GarageCommand::Open)
    } else if bytes == close_token() {
        Some(GarageCommand::Close)
    } else {
        None
    }
}

impl GarageCommand {
    /// Parses an inbound payload into a command.
    pub fn from_bytes(bytes: &[u8]) -> (r: Option<Self>)
        ensures
            r == spec_command_of(bytes@),
    {
        if bytes.len() == 4
            && *slice_index_get(bytes, 0) == 111u8
            && *slice_index_get(bytes, 1) == 112u8
            && *slice_index_get(bytes, 2) == 101u8
            && *slice_index_get(bytes, 3) == 110u8
        {
            proof {
                assert(bytes@ =~= open_token());
            }
            Some(GarageCommand::Open)
        } else if bytes.len() == 5
            && *slice_index_get(bytes, 0) == 99u8
            && *slice_index_get(bytes, 1) == 108u8
            && *slice_index_get(bytes, 2) == 111u8
            && *slice_index_get(bytes, 3) == 115u8
            && *slice_index_get(bytes, 4) == 101u8
        {
            proof {
                assert(bytes@ =~= close_token());
            }
            Some(GarageCommand::Close)
        } else {
            None
        }
    }
}

/// A single-slot command holder with overwrite semantics: the producer's
/// latest command wins, and the consumer drains at most one per cycle. The
/// mutual exclusion around it belongs to the caller; the slot itself is just
/// the value and its draining rule.
pub struct CommandSlot {
    pub command: Option<GarageCommand>,
}

impl CommandSlot {
    /// An empty slot.
    pub fn new() -> (r: Self)
        ensures
            r.command is None,
    {
        CommandSlot { command: None }
    }

    /// Stores a command, replacing whatever was pending.
    pub fn put(&mut self, cmd: GarageCommand)
        ensures
            final(self).command == Some(cmd),
    {
        self.command = Some(cmd);
    }

    /// Drains the pending command, leaving the slot empty.
    pub fn take(&mut self) -> (r: Option<GarageCommand>)
        ensures
            r == old(self).command,
            final(self).command is None,
    {
        let r = self.command;
        self.command = None;
        r
    }
}

} // verus!
