use slash_command::cancel::CancellationToken;
use slash_command::command::{CommandContext, DocumentSnapshot, SlashCommand};
use slash_command::error::SlashCommandError;
use slash_command::output::IconName;
use slash_command::registry::{dispatch, CommandRegistry};
use slash_command::workflow::{PromptBuilder, WorkflowSlashCommand};

fn context() -> CommandContext {
    CommandContext {
        workspace_available: false,
        language_service_available: false,
    }
}

fn snapshot() -> DocumentSnapshot {
    DocumentSnapshot {
        text: String::from("conversation so far"),
    }
}

fn workflow() -> WorkflowSlashCommand {
    WorkflowSlashCommand::new(PromptBuilder::new(Some(String::from(
        "Opt into the edit workflow as follows.",
    ))))
}

#[test]
fn prompt_builder_hands_out_its_configured_prompt() {
    let builder = PromptBuilder::new(Some(String::from("the prompt")));
    assert_eq!(builder.generate_workflow_prompt().unwrap(), "the prompt");
    let copy = builder.clone();
    assert_eq!(copy.generate_workflow_prompt().unwrap(), "the prompt");
    let empty = PromptBuilder::new(None);
    match empty.generate_workflow_prompt() {
        Err(SlashCommandError::GenerationFailure(message)) => {
            assert_eq!(message, "workflow prompt template unavailable");
        }
        _ => panic!("an unavailable template must fail generation"),
    }
}

#[test]
fn workflow_identity() {
    let command = workflow();
    assert_eq!(command.name(), "workflow");
    assert_eq!(
        command.description(),
        "Insert prompt to opt into the edit workflow"
    );
    assert_eq!(command.menu_text(), command.description());
    assert!(!command.requires_argument());
}

#[test]
fn workflow_with_empty_arguments_succeeds_with_one_full_section() {
    let mut registry: CommandRegistry<WorkflowSlashCommand> = CommandRegistry::new();
    registry.register(workflow());
    let cancel = CancellationToken::new();
    let output = dispatch(
        &registry,
        &String::from("workflow"),
        Vec::new(),
        &cancel,
        &Vec::new(),
        &snapshot(),
        &context(),
    )
    .expect("a registered no-argument command must run on an empty argument list");
    assert!(!output.text.is_empty());
    assert_eq!(output.text, "Opt into the edit workflow as follows.");
    assert_eq!(output.sections.len(), 1);
    let section = &output.sections[0];
    assert_eq!(section.start, 0);
    assert_eq!(section.end, output.text.chars().count());
    assert_eq!(section.label, "Workflow");
    assert_eq!(section.icon, IconName::Route);
    assert!(section.metadata.is_none());
    assert!(!output.run_commands_in_text);
}

#[test]
fn workflow_run_with_token_already_set_terminates_with_cancelled() {
    let mut registry: CommandRegistry<WorkflowSlashCommand> = CommandRegistry::new();
    registry.register(workflow());
    let mut cancel = CancellationToken::new();
    cancel.set();
    let result = dispatch(
        &registry,
        &String::from("workflow"),
        Vec::new(),
        &cancel,
        &Vec::new(),
        &snapshot(),
        &context(),
    );
    assert_eq!(result.unwrap_err(), SlashCommandError::Cancelled);
}

#[test]
fn workflow_completions_are_empty_not_an_error() {
    let command = workflow();
    let cancel = CancellationToken::new();
    let no_arguments: Vec<String> = Vec::new();
    let candidates = command
        .complete_argument(&no_arguments, &cancel, &context())
        .expect("zero completions is not an error");
    assert!(candidates.is_empty());
    let some_arguments = vec![String::from("one"), String::from("two")];
    let candidates = command
        .complete_argument(&some_arguments, &cancel, &context())
        .expect("zero completions is not an error");
    assert!(candidates.is_empty());
}

#[test]
fn workflow_round_trips_its_single_section() {
    let mut registry: CommandRegistry<WorkflowSlashCommand> = CommandRegistry::new();
    registry.register(workflow());
    let cancel = CancellationToken::new();
    let output = dispatch(
        &registry,
        &String::from("workflow"),
        Vec::new(),
        &cancel,
        &Vec::new(),
        &snapshot(),
        &context(),
    )
    .expect("the workflow command must run");
    assert_eq!(output.section_text(0), output.text);
}

#[test]
fn workflow_without_template_reports_generation_failure() {
    let mut registry: CommandRegistry<WorkflowSlashCommand> = CommandRegistry::new();
    registry.register(WorkflowSlashCommand::new(PromptBuilder::new(None)));
    let cancel = CancellationToken::new();
    let result = dispatch(
        &registry,
        &String::from("workflow"),
        Vec::new(),
        &cancel,
        &Vec::new(),
        &snapshot(),
        &context(),
    );
    match result {
        Err(SlashCommandError::GenerationFailure(message)) => {
            assert_eq!(message, "workflow prompt template unavailable");
        }
        _ => panic!("a missing template must surface as a generation failure"),
    }
}
