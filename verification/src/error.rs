//! Typed failures for command resolution, completion and execution.
//!
//! Every fallible path in the crate returns one of these kinds; the core
//! never panics on a command error. Completion failures degrade to "no
//! suggestions" at the UI boundary, while execution failures propagate as the
//! visible terminal failure of the invocation, with the underlying message
//! preserved for diagnostics.

use vstd::prelude::*;

verus! {

/// A failure raised while resolving, completing or running a slash command.
#[derive(PartialEq, Eq, Debug)]
pub enum SlashCommandError {
    /// The typed name does not resolve in the dispatch registry.
    UnknownCommand,
    /// The command requires an argument and none was given, or the command
    /// itself found the argument list unacceptable.
    InvalidArguments,
    /// The command's underlying content-production step failed; the message
    /// carries the upstream diagnostic.
    GenerationFailure(String),
    /// The request was abandoned through its cancellation token before it
    /// finished.
    Cancelled,
    /// A required collaborator (workspace, document, language service) could
    /// not be resolved.
    ContextUnavailable,
}

/// The mathematical model of a [`SlashCommandError`]: the same variants,
/// with the generation failure's diagnostic message as a character sequence,
/// so that contracts can state which error comes back — message included.
#[verifier::ext_equal]
pub enum ErrorModel {
    UnknownCommand,
    InvalidArguments,
    GenerationFailure(Seq<char>),
    Cancelled,
    ContextUnavailable,
}

impl View for SlashCommandError {
    type V = ErrorModel;

    open spec fn view(&self) -> ErrorModel {
        match self {
            SlashCommandError::UnknownCommand => ErrorModel::UnknownCommand,
            SlashCommandError::InvalidArguments => ErrorModel::InvalidArguments,
            SlashCommandError::GenerationFailure(message) => ErrorModel::GenerationFailure(
                message@,
            ),
            SlashCommandError::Cancelled => ErrorModel::Cancelled,
            SlashCommandError::ContextUnavailable => ErrorModel::ContextUnavailable,
        }
    }
}

impl Clone for SlashCommandError {
    fn clone(&self) -> (copy: Self)
        ensures
            copy == self,
    {
        match self {
            SlashCommandError::UnknownCommand => SlashCommandError::UnknownCommand,
            SlashCommandError::InvalidArguments => SlashCommandError::InvalidArguments,
            SlashCommandError::GenerationFailure(message) => SlashCommandError::GenerationFailure(
                message.clone(),
            ),
            SlashCommandError::Cancelled => SlashCommandError::Cancelled,
            SlashCommandError::ContextUnavailable => SlashCommandError::ContextUnavailable,
        }
    }
}

impl SlashCommandError {
    /// A short diagnostic string naming the error; carries the generation
    /// failure's upstream message.
    pub fn message(&self) -> (text: String)
        ensures
            text@ == match *self {
                SlashCommandError::UnknownCommand => "unknown command"@,
                SlashCommandError::InvalidArguments => "invalid arguments"@,
                SlashCommandError::GenerationFailure(message) => message@,
                SlashCommandError::Cancelled => "cancelled"@,
                SlashCommandError::ContextUnavailable => "context unavailable"@,
            },
    {
        match self {
            SlashCommandError::UnknownCommand => "unknown command".to_owned(),
            SlashCommandError::InvalidArguments => "invalid arguments".to_owned(),
            SlashCommandError::GenerationFailure(message) => message.clone(),
            SlashCommandError::Cancelled => "cancelled".to_owned(),
            SlashCommandError::ContextUnavailable => "context unavailable".to_owned(),
        }
    }
}

} // verus!
