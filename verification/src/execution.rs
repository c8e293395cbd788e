//! The execution engine: runs a command invocation as a suspended unit of
//! work.
//!
//! Submitting an invocation does not run the command; it yields a pending
//! computation whose completion is observed later, so execution never blocks
//! the editing surface. The invocation moves `Pending -> Running ->
//! {Succeeded, Failed}`. Cancellation is cooperative and best-effort: the
//! engine checks the request's token when the invocation resumes, and a
//! token set before that point makes the invocation terminate with a
//! cancellation failure, leaving every external collaborator untouched. The
//! engine never retries internally; retry policy is a caller concern.

use vstd::prelude::*;

use crate::cancel::CancellationToken;
use crate::command::{argument_views, CommandContext, DocumentSnapshot, SlashCommand};
use crate::error::{ErrorModel, SlashCommandError};
use crate::output::{SlashCommandOutput, SlashCommandOutputSection};

verus! {

/// Where one command invocation stands: submitted but not yet started,
/// started but not yet resolved, or resolved with its terminal output or
/// failure.
pub enum ExecutionState {
    Pending,
    Running,
    Succeeded(SlashCommandOutput),
    Failed(SlashCommandError),
}

impl ExecutionState {
    /// Whether the invocation has reached a terminal state.
    pub open spec fn is_terminal(self) -> bool {
        self is Succeeded || self is Failed
    }
}

/// One command invocation: the argument list it was submitted with and the
/// state of its asynchronous computation. Each invocation owns its argument
/// list and eventual output; the command instance itself is shared and
/// referenced only while the invocation resumes.
pub struct Invocation {
    pub arguments: Vec<String>,
    pub state: ExecutionState,
}

impl Invocation {
    /// Whether the executable state realizes the modeled terminal result:
    /// success carries an output matching the model, failure exactly the
    /// modeled error, diagnostic message included.
    pub open spec fn resolved_to(
        self,
        model: Result<crate::output::OutputModel, ErrorModel>,
    ) -> bool {
        match self.state {
            ExecutionState::Succeeded(output) => model matches Ok(modeled) && output@ == modeled,
            ExecutionState::Failed(error) => model matches Err(modeled) && error@ == modeled,
            _ => false,
        }
    }

    /// Submits an invocation: the returned computation is pending, not yet
    /// running — the caller observes its completion later.
    pub fn submit(arguments: Vec<String>) -> (invocation: Invocation)
        ensures
            invocation.state is Pending,
            invocation.arguments == arguments,
    {
        Invocation { arguments, state: ExecutionState::Pending }
    }

    /// Starts a pending invocation: the scheduler has picked the suspended
    /// unit of work up.
    pub fn begin(&mut self)
        requires
            old(self).state is Pending,
        ensures
            final(self).state is Running,
            final(self).arguments == old(self).arguments,
    {
        self.state = ExecutionState::Running;
    }

    /// Resumes a running invocation to its terminal state.
    ///
    /// If the cancellation token was set before this resumption, the
    /// invocation terminates with a cancellation failure and the command is
    /// not consulted — nothing outside the invocation's own state changes.
    /// Otherwise the command runs against the snapshot and the invocation
    /// resolves to exactly the command's modeled result; on success the
    /// output is well-formed.
    pub fn resume<Command: SlashCommand>(
        &mut self,
        command: &Command,
        cancel: &CancellationToken,
        prior_sections: &Vec<SlashCommandOutputSection>,
        snapshot: &DocumentSnapshot,
        context: &CommandContext,
    )
        requires
            old(self).state is Running,
        ensures
            final(self).arguments == old(self).arguments,
            final(self).state.is_terminal(),
            cancel.spec_is_set() ==> (final(self).state matches ExecutionState::Failed(error)
                && error@ == ErrorModel::Cancelled),
            !cancel.spec_is_set() ==> final(self).resolved_to(
                command.spec_run(
                    argument_views(old(self).arguments@),
                    prior_sections@.map_values(
                        |section: SlashCommandOutputSection| section@,
                    ),
                    snapshot@,
                    *context,
                ),
            ),
            !cancel.spec_is_set() ==> (final(self).state matches ExecutionState::Succeeded(output)
                ==> output.wf()),
    {
        if cancel.is_set() {
            self.state = ExecutionState::Failed(SlashCommandError::Cancelled);
            return ;
        }
        let result = command.run(&self.arguments, prior_sections, snapshot, context);
        match result {
            Ok(output) => {
                self.state = ExecutionState::Succeeded(output);
            },
            Err(error) => {
                self.state = ExecutionState::Failed(error);
            },
        }
    }
}

/// Submits, starts and resumes one invocation in a single step: the whole
/// `Pending -> Running -> terminal` lifecycle for a caller with no work to
/// interleave. The returned invocation is terminal, cancelled invocations
/// fail with a cancellation error, and uncancelled ones resolve to exactly
/// the command's modeled result.
pub fn execute<Command: SlashCommand>(
    command: &Command,
    arguments: Vec<String>,
    cancel: &CancellationToken,
    prior_sections: &Vec<SlashCommandOutputSection>,
    snapshot: &DocumentSnapshot,
    context: &CommandContext,
) -> (invocation: Invocation)
    ensures
        invocation.arguments == arguments,
        invocation.state.is_terminal(),
        cancel.spec_is_set() ==> (invocation.state matches ExecutionState::Failed(error)
            && error@ == ErrorModel::Cancelled),
        !cancel.spec_is_set() ==> invocation.resolved_to(
            command.spec_run(
                argument_views(arguments@),
                prior_sections@.map_values(|section: SlashCommandOutputSection| section@),
                snapshot@,
                *context,
            ),
        ),
        !cancel.spec_is_set() ==> (invocation.state matches ExecutionState::Succeeded(output)
            ==> output.wf()),
{
    let mut invocation = Invocation::submit(arguments);
    invocation.begin();
    invocation.resume(command, cancel, prior_sections, snapshot, context);
    invocation
}

} // verus!
