//! The error kinds a command can surface, and their user-visible texts.

use vstd::prelude::*;

verus! {

/// Why a command was refused.  Every kind is recovered at the command
/// boundary and shown to the user as a short text; none aborts the
/// handling task.
#[derive(Clone, Copy, Debug, PartialEq, Eq, Structural)]
pub enum CommandError {
    /// The issuer occupies no voice channel in the session scope.
    NotInVoice,
    /// The issuer's channel differs from the active session's channel.
    VoiceMismatch,
    /// The voice transport rejected a join.
    JoinFailed,
    /// The voice transport rejected a teardown.
    LeaveFailed,
    /// The voice transport rejected a skip.
    SkipFailed,
    /// The queue was empty for a query or a skip.
    NothingToPlay,
    /// The media resolver found nothing for the given term.
    NoMatch,
    /// The command carried no usable argument.
    MissingArgument,
}

/// The short text shown to the user for each error kind.
pub open spec fn spec_error_text(e: CommandError) -> Seq<char> {
    match e {
        CommandError::NotInVoice => "Not in a voice channel"@,
        CommandError::VoiceMismatch => "You're not in the voice channel"@,
        CommandError::JoinFailed => "Not in a voice channel"@,
        CommandError::LeaveFailed => "Error leaving channel"@,
        CommandError::SkipFailed => "Nothing to skip"@,
        CommandError::NothingToPlay => "Queue is empty"@,
        CommandError::NoMatch => "No match for the search term"@,
        CommandError::MissingArgument => "No search term or URL in request"@,
    }
}

impl CommandError {
    /// The user-visible text for this error.
    pub fn message(&self) -> (r: String)
        ensures
            r@ == spec_error_text(*self),
    {
        match self {
            CommandError::NotInVoice => "Not in a voice channel".to_owned(),
            CommandError::VoiceMismatch => "You're not in the voice channel".to_owned(),
            CommandError::JoinFailed => "Not in a voice channel".to_owned(),
            CommandError::LeaveFailed => "Error leaving channel".to_owned(),
            CommandError::SkipFailed => "Nothing to skip".to_owned(),
            CommandError::NothingToPlay => "Queue is empty".to_owned(),
            CommandError::NoMatch => "No match for the search term".to_owned(),
            CommandError::MissingArgument => "No search term or URL in request".to_owned(),
        }
    }
}

} // verus!
