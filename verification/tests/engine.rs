use slash_command::cancel::CancellationToken;
use slash_command::command::{ArgumentCompletion, CommandContext, DocumentSnapshot};
use slash_command::completion::{CompletionSite, CompletionState};
use slash_command::error::SlashCommandError;
use slash_command::execution::{execute, ExecutionState, Invocation};
use slash_command::output::{IconName, SlashCommandOutput, SlashCommandOutputSection};
use slash_command::registry::{check_arguments, dispatch, validate_argument_presence, CommandRegistry};
use slash_command::workflow::{PromptBuilder, WorkflowSlashCommand};

fn context() -> CommandContext {
    CommandContext {
        workspace_available: true,
        language_service_available: false,
    }
}

fn snapshot() -> DocumentSnapshot {
    DocumentSnapshot {
        text: String::from("surrounding document content"),
    }
}

fn workflow_with_prompt(prompt: &str) -> WorkflowSlashCommand {
    WorkflowSlashCommand::new(PromptBuilder::new(Some(String::from(prompt))))
}

#[test]
fn cancellation_is_idempotent() {
    let mut once = CancellationToken::new();
    assert!(!once.is_set());
    once.set();
    let mut twice = once;
    twice.set();
    assert!(once.is_set());
    assert!(twice.is_set());
    assert_eq!(once, twice);
}

#[test]
fn full_text_output_has_one_bounded_section() {
    let output = SlashCommandOutput::from_full_text(
        String::from("hello"),
        IconName::File,
        String::from("Greeting"),
    );
    assert_eq!(output.sections.len(), 1);
    let section = &output.sections[0];
    assert_eq!(section.start, 0);
    assert_eq!(section.end, output.text.chars().count());
    assert!(section.start <= section.end && section.end <= output.text.chars().count());
    assert_eq!(section.label, "Greeting");
    assert!(!output.run_commands_in_text);
}

#[test]
fn full_section_slice_round_trips() {
    let output = SlashCommandOutput::from_full_text(
        String::from("the whole text"),
        IconName::Route,
        String::from("All"),
    );
    assert_eq!(output.section_text(0), "the whole text");
}

#[test]
fn inner_section_slice_is_the_annotated_range() {
    let output = SlashCommandOutput {
        text: String::from("alpha beta gamma"),
        sections: vec![SlashCommandOutputSection {
            start: 6,
            end: 10,
            icon: IconName::Search,
            label: String::from("Middle"),
            metadata: Some(String::from("free-form")),
        }],
        run_commands_in_text: false,
    };
    assert_eq!(output.section_text(0), "beta");
    let copy = output.clone();
    assert_eq!(copy.text, output.text);
    assert_eq!(copy.section_text(0), "beta");
    assert_eq!(copy.sections[0].metadata, output.sections[0].metadata);
}

#[test]
fn overlapping_sections_are_permitted() {
    let output = SlashCommandOutput {
        text: String::from("abcdef"),
        sections: vec![
            SlashCommandOutputSection {
                start: 0,
                end: 4,
                icon: IconName::Library,
                label: String::from("Head"),
                metadata: None,
            },
            SlashCommandOutputSection {
                start: 2,
                end: 6,
                icon: IconName::Library,
                label: String::from("Tail"),
                metadata: None,
            },
        ],
        run_commands_in_text: false,
    };
    assert_eq!(output.section_text(0), "abcd");
    assert_eq!(output.section_text(1), "cdef");
}

#[test]
fn invocation_walks_pending_running_succeeded() {
    let command = workflow_with_prompt("prompt body");
    let mut invocation = Invocation::submit(Vec::new());
    assert!(matches!(invocation.state, ExecutionState::Pending));
    invocation.begin();
    assert!(matches!(invocation.state, ExecutionState::Running));
    let cancel = CancellationToken::new();
    invocation.resume(&command, &cancel, &Vec::new(), &snapshot(), &context());
    match &invocation.state {
        ExecutionState::Succeeded(output) => assert_eq!(output.text, "prompt body"),
        _ => panic!("expected the invocation to succeed"),
    }
}

#[test]
fn token_set_before_resume_fails_with_cancelled() {
    let command = workflow_with_prompt("prompt body");
    let mut cancel = CancellationToken::new();
    cancel.set();
    let invocation = execute(
        &command,
        Vec::new(),
        &cancel,
        &Vec::new(),
        &snapshot(),
        &context(),
    );
    match invocation.state {
        ExecutionState::Failed(error) => assert_eq!(error, SlashCommandError::Cancelled),
        _ => panic!("cancelled invocation must fail"),
    }
}

#[test]
fn generation_failure_propagates_with_message() {
    let command = WorkflowSlashCommand::new(PromptBuilder::new(None));
    let cancel = CancellationToken::new();
    let invocation = execute(
        &command,
        Vec::new(),
        &cancel,
        &Vec::new(),
        &snapshot(),
        &context(),
    );
    match invocation.state {
        ExecutionState::Failed(SlashCommandError::GenerationFailure(message)) => {
            assert_eq!(message, "workflow prompt template unavailable");
        }
        _ => panic!("missing template must fail generation"),
    }
}

#[test]
fn new_completion_request_supersedes_the_old_one() {
    let mut site = CompletionSite::new();
    assert!(matches!(site.state, CompletionState::Idle));
    let first = site.begin_request();
    assert!(first.is_none());
    assert!(matches!(site.state, CompletionState::Requested));
    let superseded = site.begin_request();
    let stale = superseded.expect("an outstanding request must be superseded");
    assert!(stale.is_set());
    assert!(!site.token.is_set());
    assert!(matches!(site.state, CompletionState::Requested));
}

#[test]
fn cancelled_completion_request_resolves_cancelled() {
    let command = workflow_with_prompt("prompt body");
    let mut site = CompletionSite::new();
    site.begin_request();
    site.cancel();
    site.cancel();
    assert!(site.token.is_set());
    site.resolve(&command, &Vec::new(), &context());
    assert!(matches!(site.state, CompletionState::Cancelled));
    let candidates: Vec<ArgumentCompletion> = site.suggestions();
    assert!(candidates.is_empty());
}

#[test]
fn uncancelled_completion_request_resolves_with_candidates() {
    let command = workflow_with_prompt("prompt body");
    let mut site = CompletionSite::new();
    site.begin_request();
    site.resolve(&command, &vec![String::from("partial")], &context());
    match &site.state {
        CompletionState::Completed(candidates) => assert!(candidates.is_empty()),
        _ => panic!("an uncancelled request must complete"),
    }
    assert!(site.suggestions().is_empty());
}

#[test]
fn dispatch_of_unregistered_name_is_unknown_command() {
    let mut registry: CommandRegistry<WorkflowSlashCommand> = CommandRegistry::new();
    registry.register(workflow_with_prompt("prompt body"));
    let cancel = CancellationToken::new();
    let result = dispatch(
        &registry,
        &String::from("wrkflow"),
        Vec::new(),
        &cancel,
        &Vec::new(),
        &snapshot(),
        &context(),
    );
    assert_eq!(result.unwrap_err(), SlashCommandError::UnknownCommand);
}

#[test]
fn lookup_resolves_only_registered_names() {
    let mut registry: CommandRegistry<WorkflowSlashCommand> = CommandRegistry::new();
    let empty_lookup = registry.lookup(&String::from("workflow"));
    match empty_lookup {
        Err(error) => assert_eq!(error, SlashCommandError::UnknownCommand),
        Ok(_) => panic!("nothing is registered yet"),
    }
    registry.register(workflow_with_prompt("prompt body"));
    let resolved = registry.lookup(&String::from("workflow"));
    assert!(resolved.is_ok());
}

#[test]
fn registering_a_name_again_replaces_the_command() {
    let mut registry: CommandRegistry<WorkflowSlashCommand> = CommandRegistry::new();
    registry.register(workflow_with_prompt("first prompt"));
    registry.register(workflow_with_prompt("second prompt"));
    let cancel = CancellationToken::new();
    let result = dispatch(
        &registry,
        &String::from("workflow"),
        Vec::new(),
        &cancel,
        &Vec::new(),
        &snapshot(),
        &context(),
    );
    assert_eq!(result.unwrap().text, "second prompt");
}

#[test]
fn argument_check_accepts_commands_without_required_argument() {
    let command = workflow_with_prompt("prompt body");
    assert!(check_arguments(&command, &Vec::new()).is_ok());
    assert!(check_arguments(&command, &vec![String::from("extra")]).is_ok());
}

#[test]
fn required_argument_rejects_only_the_empty_list() {
    let rejected = validate_argument_presence(true, &Vec::new());
    assert_eq!(rejected.unwrap_err(), SlashCommandError::InvalidArguments);
    assert!(validate_argument_presence(true, &vec![String::from("arg")]).is_ok());
    assert!(validate_argument_presence(false, &Vec::new()).is_ok());
    assert!(validate_argument_presence(false, &vec![String::from("arg")]).is_ok());
}

#[test]
fn error_messages_name_their_kind() {
    assert_eq!(
        SlashCommandError::UnknownCommand.message(),
        "unknown command"
    );
    assert_eq!(
        SlashCommandError::InvalidArguments.message(),
        "invalid arguments"
    );
    assert_eq!(SlashCommandError::Cancelled.message(), "cancelled");
    assert_eq!(
        SlashCommandError::ContextUnavailable.message(),
        "context unavailable"
    );
    assert_eq!(
        SlashCommandError::GenerationFailure(String::from("template missing")).message(),
        "template missing"
    );
}
