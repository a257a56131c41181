//! The command line's data.
//!
//! Parsing arguments is the embedding program's work; this module owns the
//! values that parsing produces.

use vstd::prelude::*;

verus! {

/// An identifier of a drawing room, as entered on the command line.
#[derive(Clone, Debug, PartialEq, Eq)]
pub struct RoomId(pub String);

/// What to do right after startup.
pub enum Commands {
    /// Host a room when started.
    HostRoom,
    /// Join a room when started.
    JoinRoom {
        /// The room to join.
        room_id: RoomId,
    },
}

/// The command line: an optional Chromium trace dump path, and an optional
/// startup command.
pub struct Cli {
    /// Dump a Chromium .json trace to the given file.
    pub trace: Option<String>,
    /// Host or join a room when started.
    pub command: Option<Commands>,
}

} // verus!
