//! The command contract: the uniform capability surface — identify,
//! complete, execute — through which the rest of the system treats all slash
//! commands polymorphically.
//!
//! Separating [`SlashCommand::complete_argument`] (cheap, interactive,
//! invoked while typing) from [`SlashCommand::run`] (potentially slower,
//! invoked once per accepted invocation) lets the UI remain responsive.
//! Each implementation carries a specification-level model of both
//! operations, so callers — the completion and execution engines and the
//! dispatcher — can state exactly what an invocation returns.

use vstd::prelude::*;

use crate::cancel::CancellationToken;
use crate::error::{ErrorModel, SlashCommandError};
use crate::output::{OutputModel, SectionModel, SlashCommandOutput, SlashCommandOutputSection};

verus! {

/// A single argument-completion candidate: the replacement text, whether
/// further arguments are expected after accepting it, and a label for
/// display. Candidates are produced as an ordered sequence; order is display
/// order.
#[derive(Debug)]
pub struct ArgumentCompletion {
    pub new_text: String,
    pub expects_more_arguments: bool,
    pub label: String,
}

impl Clone for ArgumentCompletion {
    fn clone(&self) -> (copy: Self)
        ensures
            copy@ == self@,
    {
        ArgumentCompletion {
            new_text: self.new_text.clone(),
            expects_more_arguments: self.expects_more_arguments,
            label: self.label.clone(),
        }
    }
}

/// The mathematical model of an [`ArgumentCompletion`].
#[verifier::ext_equal]
pub struct CompletionModel {
    pub new_text: Seq<char>,
    pub expects_more_arguments: bool,
    pub label: Seq<char>,
}

impl View for ArgumentCompletion {
    type V = CompletionModel;

    open spec fn view(&self) -> CompletionModel {
        CompletionModel {
            new_text: self.new_text@,
            expects_more_arguments: self.expects_more_arguments,
            label: self.label@,
        }
    }
}

/// An immutable, point-in-time view of the host text buffer, passed to a
/// command for contextual awareness. Commands must not assume it reflects
/// later edits; the host document is mutated only by the caller after the
/// command output is consumed, never by a command itself.
#[derive(Debug)]
pub struct DocumentSnapshot {
    pub text: String,
}

impl Clone for DocumentSnapshot {
    fn clone(&self) -> (copy: Self)
        ensures
            copy == self,
    {
        DocumentSnapshot { text: self.text.clone() }
    }
}

impl View for DocumentSnapshot {
    type V = Seq<char>;

    open spec fn view(&self) -> Seq<char> {
        self.text@
    }
}

/// Collaborator availability for one invocation. The workspace is reached
/// through a weak, non-owning reference whose resolution may fail; the
/// language-service delegate is optional. Commands must tolerate either
/// being absent — absence is "context unavailable", never a crash.
#[derive(Clone, Copy, PartialEq, Eq, Structural, Debug)]
pub struct CommandContext {
    pub workspace_available: bool,
    pub language_service_available: bool,
}

/// The views of an argument list: each raw token as a character sequence.
pub open spec fn argument_views(arguments: Seq<String>) -> Seq<Seq<char>> {
    arguments.map_values(|argument: String| argument@)
}

/// Whether an executable completion result realizes its model: same
/// success-or-failure shape, candidates matching the modeled sequence, and
/// the error matching the modeled error, message included.
pub open spec fn completions_match(
    result: Result<Vec<ArgumentCompletion>, SlashCommandError>,
    model: Result<Seq<CompletionModel>, ErrorModel>,
) -> bool {
    match result {
        Ok(candidates) => model matches Ok(modeled) && candidates@.map_values(
            |candidate: ArgumentCompletion| candidate@,
        ) == modeled,
        Err(error) => model matches Err(modeled) && error@ == modeled,
    }
}

/// Whether an executable run result realizes its model: same
/// success-or-failure shape, output matching the modeled output, and the
/// error matching the modeled kind.
pub open spec fn run_matches(
    result: Result<SlashCommandOutput, SlashCommandError>,
    model: Result<OutputModel, ErrorModel>,
) -> bool {
    match result {
        Ok(output) => model matches Ok(modeled) && output@ == modeled,
        Err(error) => model matches Err(modeled) && error@ == modeled,
    }
}

/// The contract every slash command implements.
///
/// A command is identified by a stable, case-sensitive name; declares
/// whether it requires at least one argument; offers argument completions
/// while the user types; and executes against a document snapshot to produce
/// a [`SlashCommandOutput`]. Commands are stateless or hold only immutable
/// configuration captured at construction, so one instance may serve many
/// concurrent invocations.
pub trait SlashCommand: Sized {
    /// The model of the command's stable name.
    spec fn spec_name(&self) -> Seq<char>;

    /// The model of whether the command requires at least one argument.
    spec fn spec_requires_argument(&self) -> bool;

    /// The model of the command's human-readable description.
    spec fn spec_description(&self) -> Seq<char>;

    /// The model of the command's menu label.
    spec fn spec_menu_text(&self) -> Seq<char>;

    /// The model of argument completion: the candidates (or error) for a
    /// given argument list and context.
    spec fn spec_completions(&self, arguments: Seq<Seq<char>>, context: CommandContext) -> Result<
        Seq<CompletionModel>,
        ErrorModel,
    >;

    /// The model of execution: the output (or error) for a given argument
    /// list, prior sections, snapshot and context.
    spec fn spec_run(
        &self,
        arguments: Seq<Seq<char>>,
        prior_sections: Seq<SectionModel>,
        snapshot: Seq<char>,
        context: CommandContext,
    ) -> Result<OutputModel, ErrorModel>;

    /// The stable unique identifier; matches the token the user types.
    fn name(&self) -> (name: String)
        ensures
            name@ == self.spec_name(),
    ;

    /// A human-readable description of the command.
    fn description(&self) -> (text: String)
        ensures
            text@ == self.spec_description(),
    ;

    /// The label shown for the command in a menu; may equal the description.
    fn menu_text(&self) -> (text: String)
        ensures
            text@ == self.spec_menu_text(),
    ;

    /// Whether execution with an empty argument list must be rejected.
    /// Enforcement is the dispatcher's concern, not this contract's.
    fn requires_argument(&self) -> (required: bool)
        ensures
            required == self.spec_requires_argument(),
    ;

    /// Computes completion candidates for the currently-typed arguments
    /// (possibly a partial final token). An empty candidate sequence means
    /// no completions apply; it is not an error.
    ///
    /// The operation observes `cancel` cooperatively: while the token is
    /// unset it returns exactly its modeled result; once the token is set it
    /// may instead abandon the work with a cancellation error, whose result
    /// the caller discards.
    fn complete_argument(
        &self,
        arguments: &Vec<String>,
        cancel: &CancellationToken,
        context: &CommandContext,
    ) -> (result: Result<Vec<ArgumentCompletion>, SlashCommandError>)
        ensures
            !cancel.spec_is_set() ==> completions_match(
                result,
                self.spec_completions(argument_views(arguments@), *context),
            ),
            cancel.spec_is_set() ==> completions_match(
                result,
                self.spec_completions(argument_views(arguments@), *context),
            ) || (result matches Err(error) && error@ == ErrorModel::Cancelled),
    ;

    /// Executes the command against a point-in-time document snapshot.
    /// Output sections from earlier invocations in the same conversation are
    /// passed for commands that compose on history. Returns exactly the
    /// modeled result; on success the output is well-formed — every
    /// section's range lies within the generated text.
    fn run(
        &self,
        arguments: &Vec<String>,
        prior_sections: &Vec<SlashCommandOutputSection>,
        snapshot: &DocumentSnapshot,
        context: &CommandContext,
    ) -> (result: Result<SlashCommandOutput, SlashCommandError>)
        ensures
            run_matches(
                result,
                self.spec_run(
                    argument_views(arguments@),
                    prior_sections@.map_values(|section: SlashCommandOutputSection| section@),
                    snapshot@,
                    *context,
                ),
            ),
            result matches Ok(output) ==> output.wf(),
    ;
}

} // verus!
