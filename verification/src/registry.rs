//! The dispatch registry: resolves a typed command from its textual name.
//!
//! The registry owns the long-lived command instances; names are
//! case-sensitive and unique within a registry, so a name identifies at
//! most one command. Lookup failure — an unknown name — is a distinct error
//! kind from any failure raised inside a resolved command, and dispatching
//! an unregistered name always yields that error, never a silent no-op.

use vstd::prelude::*;

use crate::cancel::CancellationToken;
use crate::command::{argument_views, CommandContext, DocumentSnapshot, SlashCommand};
use crate::error::{ErrorModel, SlashCommandError};
use crate::execution::{execute, ExecutionState};
use crate::output::{SlashCommandOutput, SlashCommandOutputSection};

verus! {

/// Maps command names to the long-lived command instances that serve every
/// invocation.
pub struct CommandRegistry<Command: SlashCommand> {
    commands: Vec<Command>,
}

impl<Command: SlashCommand> CommandRegistry<Command> {
    /// The registered commands, in registration order.
    pub closed spec fn spec_commands(self) -> Seq<Command> {
        self.commands@
    }

    /// Well-formedness: a name identifies at most one command.
    pub open spec fn wf(self) -> bool {
        forall|i: int, j: int|
            0 <= i < j < self.spec_commands().len() ==> #[trigger] self.spec_commands()[i].spec_name()
                != #[trigger] self.spec_commands()[j].spec_name()
    }

    /// Whether some registered command bears this name.
    pub open spec fn contains_name(self, name: Seq<char>) -> bool {
        exists|i: int|
            0 <= i < self.spec_commands().len() && #[trigger] self.spec_commands()[i].spec_name()
                == name
    }

    /// The registered command bearing this name; meaningful when the name
    /// is contained in a well-formed registry.
    pub open spec fn spec_get(self, name: Seq<char>) -> Command {
        self.spec_commands()[choose|i: int|
            0 <= i < self.spec_commands().len() && #[trigger] self.spec_commands()[i].spec_name()
                == name]
    }

    /// An empty registry.
    pub fn new() -> (registry: CommandRegistry<Command>)
        ensures
            registry.wf(),
            registry.spec_commands().len() == 0,
            forall|name: Seq<char>| !registry.contains_name(name),
    {
        CommandRegistry { commands: Vec::new() }
    }

    /// The index of the command bearing this name, when one is registered.
    fn find_index(&self, name: &String) -> (found: Option<usize>)
        ensures
            found matches Some(index) ==> index < self.spec_commands().len()
                && self.spec_commands()[index as int].spec_name() == name@,
            found is None ==> !self.contains_name(name@),
    {
        let mut index: usize = 0;
        while index < self.commands.len()
            invariant
                index <= self.spec_commands().len(),
                forall|i: int|
                    0 <= i < index ==> #[trigger] self.spec_commands()[i].spec_name() != name@,
            decreases self.spec_commands().len() - index,
        {
            let candidate = self.commands[index].name();
            if candidate.eq(name) {
                return Some(index);
            }
            index = index + 1;
        }
        None
    }

    /// Registers a command under its own name, replacing any command the
    /// name already resolved to. Afterwards the name resolves to exactly
    /// this command, and every other name resolves as before.
    pub fn register(&mut self, command: Command)
        requires
            old(self).wf(),
        ensures
            final(self).wf(),
            final(self).contains_name(command.spec_name()),
            final(self).spec_get(command.spec_name()) == command,
            forall|name: Seq<char>|
                name != command.spec_name() ==> (#[trigger] final(self).contains_name(name)
                    == old(self).contains_name(name)),
            forall|name: Seq<char>|
                name != command.spec_name() && old(self).contains_name(name)
                    ==> #[trigger] final(self).spec_get(name) == old(self).spec_get(name),
    {
        let name = command.name();
        let found = self.find_index(&name);
        match found {
            Some(index) => {
                self.commands.set(index, command);
                proof {
                    self.lemma_registration(*old(self), command, index as int);
                }
            },
            None => {
                let ghost index = self.commands@.len() as int;
                self.commands.push(command);
                proof {
                    assert(self.spec_commands() =~= old(self).spec_commands().push(command));
                    self.lemma_registration(*old(self), command, index);
                }
            },
        }
    }

    /// After writing `command` at `index` of a registry whose other entries
    /// are unchanged and carried no entry named like `command`, the registry
    /// is well-formed and resolves names as `register` promises.
    proof fn lemma_registration(
        self,
        prior: CommandRegistry<Command>,
        command: Command,
        index: int,
    )
        requires
            prior.wf(),
            0 <= index < self.spec_commands().len(),
            self.spec_commands().len() == if index < prior.spec_commands().len() {
                prior.spec_commands().len()
            } else {
                prior.spec_commands().len() + 1
            },
            self.spec_commands()[index] == command,
            index < prior.spec_commands().len() ==> prior.spec_commands()[index].spec_name()
                == command.spec_name(),
            forall|i: int|
                0 <= i < self.spec_commands().len() && i != index
                    ==> #[trigger] self.spec_commands()[i] == prior.spec_commands()[i],
            forall|i: int|
                0 <= i < prior.spec_commands().len() && i != index
                    ==> #[trigger] prior.spec_commands()[i].spec_name() != command.spec_name(),
        ensures
            self.wf(),
            self.contains_name(command.spec_name()),
            self.spec_get(command.spec_name()) == command,
            forall|name: Seq<char>|
                name != command.spec_name() ==> (#[trigger] self.contains_name(name)
                    == prior.contains_name(name)),
            forall|name: Seq<char>|
                name != command.spec_name() && prior.contains_name(name)
                    ==> #[trigger] self.spec_get(name) == prior.spec_get(name),
    {
        assert(self.contains_name(command.spec_name())) by {
            assert(self.spec_commands()[index].spec_name() == command.spec_name());
        }
        assert forall|name: Seq<char>| name != command.spec_name() implies (
        #[trigger] self.contains_name(name) == prior.contains_name(name)) by {
            if self.contains_name(name) {
                let i = choose|i: int|
                    0 <= i < self.spec_commands().len()
                        && #[trigger] self.spec_commands()[i].spec_name() == name;
                assert(i != index);
                assert(prior.spec_commands()[i].spec_name() == name);
            }
            if prior.contains_name(name) {
                let i = choose|i: int|
                    0 <= i < prior.spec_commands().len()
                        && #[trigger] prior.spec_commands()[i].spec_name() == name;
                assert(i != index);
                assert(self.spec_commands()[i].spec_name() == name);
            }
        }
        assert forall|name: Seq<char>|
            name != command.spec_name() && prior.contains_name(name) implies #[trigger] self.spec_get(
            name,
        ) == prior.spec_get(name) by {
            let j = choose|i: int|
                0 <= i < prior.spec_commands().len()
                    && #[trigger] prior.spec_commands()[i].spec_name() == name;
            assert(j != index);
            assert(self.spec_commands()[j].spec_name() == name);
            let i = choose|i: int|
                0 <= i < self.spec_commands().len() && #[trigger] self.spec_commands()[i].spec_name()
                    == name;
            assert(i != index);
            if i != j {
                assert(prior.spec_commands()[i].spec_name() == prior.spec_commands()[j].spec_name());
                assert(false);
            }
        }
    }

    /// Resolves a name to its registered command. An unknown name yields
    /// the distinct unknown-command error — never a silent no-op — if and
    /// only if no registered command bears the name.
    pub fn lookup<'registry>(&'registry self, name: &String) -> (resolved: Result<
        &'registry Command,
        SlashCommandError,
    >)
        requires
            self.wf(),
        ensures
            resolved matches Ok(command) ==> self.contains_name(name@) && *command == self.spec_get(
                name@,
            ),
            resolved matches Err(error) ==> !self.contains_name(name@) && error
                == SlashCommandError::UnknownCommand,
    {
        let found = self.find_index(name);
        match found {
            Some(index) => {
                let command = &self.commands[index];
                proof {
                    let chosen = choose|i: int|
                        0 <= i < self.spec_commands().len()
                            && #[trigger] self.spec_commands()[i].spec_name() == name@;
                    if chosen != index as int {
                        assert(self.spec_commands()[chosen].spec_name() == self.spec_commands()[
                            index as int].spec_name());
                        assert(false);
                    }
                }
                Ok(command)
            },
            None => Err(SlashCommandError::UnknownCommand),
        }
    }
}

/// The dispatcher's argument rule: an invocation is rejected with an
/// invalid-arguments error exactly when the command declared an argument
/// required and the argument list is empty; no other invocation is rejected
/// by this rule alone.
pub fn validate_argument_presence(argument_required: bool, arguments: &Vec<String>) -> (result:
    Result<(), SlashCommandError>)
    ensures
        result is Ok <==> !(argument_required && arguments@.len() == 0),
        result matches Err(error) ==> error == SlashCommandError::InvalidArguments,
{
    if argument_required && arguments.len() == 0 {
        Err(SlashCommandError::InvalidArguments)
    } else {
        Ok(())
    }
}

/// The dispatcher's argument check against what a command declares: rejects
/// a command requiring an argument exactly when the argument list is empty.
pub fn check_arguments<Command: SlashCommand>(command: &Command, arguments: &Vec<String>) -> (result:
    Result<(), SlashCommandError>)
    ensures
        result is Ok <==> !(command.spec_requires_argument() && arguments@.len() == 0),
        result matches Err(error) ==> error == SlashCommandError::InvalidArguments,
{
    validate_argument_presence(command.requires_argument(), arguments)
}

/// Resolves a name against the registry and runs the command through the
/// execution engine.
///
/// Exactly one of the following holds of the result:
/// - the name resolves to no registered command, and the result is the
///   unknown-command error;
/// - the name resolves, the command requires an argument, the argument list
///   is empty, and the result is the invalid-arguments error;
/// - the invocation's token was set before it resumed, and the result is a
///   cancellation failure;
/// - the resolved command ran, and the result is exactly its modeled output
///   or failure — on success a well-formed output.
pub fn dispatch<Command: SlashCommand>(
    registry: &CommandRegistry<Command>,
    name: &String,
    arguments: Vec<String>,
    cancel: &CancellationToken,
    prior_sections: &Vec<SlashCommandOutputSection>,
    snapshot: &DocumentSnapshot,
    context: &CommandContext,
) -> (result: Result<SlashCommandOutput, SlashCommandError>)
    requires
        registry.wf(),
    ensures
        !registry.contains_name(name@) ==> result == Err::<SlashCommandOutput, SlashCommandError>(
            SlashCommandError::UnknownCommand,
        ),
        registry.contains_name(name@) && registry.spec_get(name@).spec_requires_argument()
            && arguments@.len() == 0 ==> result == Err::<SlashCommandOutput, SlashCommandError>(
            SlashCommandError::InvalidArguments,
        ),
        registry.contains_name(name@) && !(registry.spec_get(name@).spec_requires_argument()
            && arguments@.len() == 0) && cancel.spec_is_set() ==> (result matches Err(error)
            && error@ == ErrorModel::Cancelled),
        registry.contains_name(name@) && !(registry.spec_get(name@).spec_requires_argument()
            && arguments@.len() == 0) && !cancel.spec_is_set() ==> crate::command::run_matches(
            result,
            registry.spec_get(name@).spec_run(
                argument_views(arguments@),
                prior_sections@.map_values(|section: SlashCommandOutputSection| section@),
                snapshot@,
                *context,
            ),
        ),
        result matches Ok(output) ==> output.wf(),
{
    let command = match registry.lookup(name) {
        Ok(command) => command,
        Err(error) => {
            return Err(error);
        },
    };
    match check_arguments(command, &arguments) {
        Ok(_) => {},
        Err(error) => {
            return Err(error);
        },
    }
    let invocation = execute(command, arguments, cancel, prior_sections, snapshot, context);
    match invocation.state {
        ExecutionState::Succeeded(output) => Ok(output),
        ExecutionState::Failed(error) => Err(error),
        _ => {
            proof {
                assert(false);
            }
            Err(SlashCommandError::ContextUnavailable)
        },
    }
}

} // verus!
