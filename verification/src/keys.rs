//! Key events and the error type shared by all capture operations.

use vstd::prelude::*;

verus! {

/// One discrete keyboard input unit, as delivered by a raw-mode terminal.
///
/// A capture loop consumes these one at a time: printable characters are
/// appended to the password buffer, `Backspace` edits it, `Enter` confirms,
/// and `Unknown` stands for any unrecognized key, which is ignored.
#[derive(Clone, Copy, Debug)]
pub enum Key {
    /// A printable character.
    Char(char),
    /// The backspace key: removes the last buffered character, if any.
    Backspace,
    /// The enter/confirm key: ends the capture successfully.
    Enter,
    /// Any other key: ignored by the capture loop.
    Unknown,
}

/// What a terminal should show in reaction to one consumed key event.
///
/// [`crate::Yapp::push_key`] hands one of these back for every key it
/// processes, so a caller that runs the raw key loop itself performs exactly
/// the output the capture state machine calls for.
#[derive(Clone, Copy, Debug, PartialEq, Eq)]
pub enum Feedback {
    /// Show the masking symbol for an accepted character.
    Echo(char),
    /// Erase one previously echoed masking symbol.
    Erase,
    /// The capture is complete: show the final newline.
    Confirm,
    /// Nothing to show.
    Silent,
}

/// Why a capture operation failed.
#[derive(Clone, Copy, Debug, PartialEq, Eq)]
pub enum ReadError {
    /// An underlying platform I/O operation (read, write or flush) failed.
    Io,
    /// The key source ran out before a confirm key arrived. A live terminal
    /// never runs out of keys, so this signals a programming or environment
    /// error rather than an ordinary I/O failure.
    Exhausted,
}

} // verus!
