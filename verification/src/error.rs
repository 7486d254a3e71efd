//! The ways in which a command can fail.

use vstd::prelude::*;

verus! {

/// Why a command was given up.
#[derive(Debug, Clone, Copy, PartialEq, Eq, Structural)]
pub enum Fail {
    /// A second first response was asked of one interaction: a mistake of
    /// the handler, never of the network.
    AlreadyResponded,
    /// The link that the user gave is no absolute URL.
    InvalidLink,
    /// The attachment that the user gave is no image.
    InvalidAttachment,
    /// The user gave neither a link nor an attachment.
    NoReferenceProvided,
    /// A call to the platform failed; the interaction is abandoned.
    Transport,
    /// The caller reported something that the command was not waiting for.
    UnexpectedEvent,
}

impl Fail {
    /// The message that goes to the log with this failure.
    pub fn describe(&self) -> (text: &'static str)
        ensures
            text@ == self.description(),
    {
        match self {
            Fail::AlreadyResponded => "already responded to this interaction",
            Fail::InvalidLink => "invalid link provided",
            Fail::InvalidAttachment => "invalid attachment provided",
            Fail::NoReferenceProvided => "no image was provided",
            Fail::Transport => "a call to the platform failed",
            Fail::UnexpectedEvent => "the command was not waiting for this",
        }
    }

    pub open spec fn description(&self) -> Seq<char> {
        match self {
            Fail::AlreadyResponded => "already responded to this interaction"@,
            Fail::InvalidLink => "invalid link provided"@,
            Fail::InvalidAttachment => "invalid attachment provided"@,
            Fail::NoReferenceProvided => "no image was provided"@,
            Fail::Transport => "a call to the platform failed"@,
            Fail::UnexpectedEvent => "the command was not waiting for this"@,
        }
    }
}

} // verus!
