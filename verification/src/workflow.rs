//! The workflow command: a static prompt-insertion command.
//!
//! `/workflow` takes no arguments, offers no completions, and inserts the
//! prompt that opts the conversation into the edit workflow. The prompt text
//! itself comes from a [`PromptBuilder`] captured at construction; the
//! command annotates the generated text with a single section spanning all
//! of it, labeled with a fixed display name.

use vstd::prelude::*;

use crate::cancel::CancellationToken;
use crate::command::{ArgumentCompletion, CommandContext, CompletionModel, SlashCommand};
use crate::command::DocumentSnapshot;
use crate::error::{ErrorModel, SlashCommandError};
use crate::output::{IconName, OutputModel, SectionModel, SlashCommandOutput};
use crate::output::SlashCommandOutputSection;

verus! {

/// Supplies the rendered workflow prompt. The builder holds the prompt as
/// immutable configuration; when the underlying template source was
/// unavailable at construction it holds nothing, and prompt generation
/// reports a generation failure.
#[derive(Debug)]
pub struct PromptBuilder {
    workflow_prompt: Option<String>,
}

impl Clone for PromptBuilder {
    fn clone(&self) -> (copy: Self)
        ensures
            copy == self,
    {
        proof {
            use_type_invariant(&*self);
        }
        PromptBuilder {
            workflow_prompt: match &self.workflow_prompt {
                Some(prompt) => Some(prompt.clone()),
                None => None,
            },
        }
    }
}

impl PromptBuilder {
    /// The modeled prompt: the rendered text, when one is available.
    pub closed spec fn spec_workflow_prompt(self) -> Option<Seq<char>> {
        match self.workflow_prompt {
            Some(prompt) => Some(prompt@),
            None => None,
        }
    }

    /// A rendered prompt is never the empty string: a template source that
    /// produced nothing holds no prompt at all. Every builder carries this
    /// invariant from construction.
    #[verifier::type_invariant]
    pub closed spec fn wf(self) -> bool {
        match self.workflow_prompt {
            Some(prompt) => prompt@.len() > 0,
            None => true,
        }
    }

    /// A builder holding the given rendered prompt, or none when the
    /// template source was unavailable. A present prompt must be non-empty.
    pub fn new(workflow_prompt: Option<String>) -> (builder: PromptBuilder)
        requires
            workflow_prompt matches Some(prompt) ==> prompt@.len() > 0,
        ensures
            builder.spec_workflow_prompt() == match workflow_prompt {
                Some(prompt) => Some(prompt@),
                None => None::<Seq<char>>,
            },
    {
        PromptBuilder { workflow_prompt }
    }

    /// The workflow prompt text — non-empty by the builder's invariant — or
    /// a generation failure naming the unavailable template.
    pub fn generate_workflow_prompt(&self) -> (result: Result<String, SlashCommandError>)
        ensures
            match self.spec_workflow_prompt() {
                Some(prompt) => result matches Ok(text) && text@ == prompt,
                None => result matches Err(error) && error@ == ErrorModel::GenerationFailure(
                    "workflow prompt template unavailable"@,
                ),
            },
            result matches Ok(text) ==> text@.len() > 0,
    {
        proof {
            use_type_invariant(&*self);
        }
        match &self.workflow_prompt {
            Some(prompt) => Ok(prompt.clone()),
            None => Err(
                SlashCommandError::GenerationFailure(
                    "workflow prompt template unavailable".to_owned(),
                ),
            ),
        }
    }
}

/// The `/workflow` slash command: inserts the prompt that opts into the
/// edit workflow.
pub struct WorkflowSlashCommand {
    prompt_builder: PromptBuilder,
}

impl WorkflowSlashCommand {
    /// The builder this command was constructed with.
    pub closed spec fn spec_prompt_builder(self) -> PromptBuilder {
        self.prompt_builder
    }

    /// The modeled output of running this command: the prompt text with one
    /// section spanning all of it, or a generation failure.
    pub open spec fn spec_output(self) -> Result<OutputModel, ErrorModel> {
        match self.spec_prompt_builder().spec_workflow_prompt() {
            Some(prompt) => Ok(
                OutputModel {
                    text: prompt,
                    sections: seq![
                        SectionModel {
                            start: 0,
                            end: prompt.len() as int,
                            icon: IconName::Route,
                            label: "Workflow"@,
                            metadata: None,
                        },
                    ],
                    run_commands_in_text: false,
                },
            ),
            None => Err(ErrorModel::GenerationFailure("workflow prompt template unavailable"@)),
        }
    }

    /// A workflow command holding the given prompt builder as its only,
    /// immutable configuration.
    pub fn new(prompt_builder: PromptBuilder) -> (command: WorkflowSlashCommand)
        ensures
            command.spec_prompt_builder() == prompt_builder,
    {
        WorkflowSlashCommand { prompt_builder }
    }
}

impl SlashCommand for WorkflowSlashCommand {
    open spec fn spec_name(&self) -> Seq<char> {
        "workflow"@
    }

    open spec fn spec_requires_argument(&self) -> bool {
        false
    }

    open spec fn spec_description(&self) -> Seq<char> {
        "Insert prompt to opt into the edit workflow"@
    }

    /// The menu shows the description itself: the default where the menu
    /// label equals the description.
    open spec fn spec_menu_text(&self) -> Seq<char> {
        self.spec_description()
    }

    /// No completions ever apply, whatever the argument list: the command
    /// takes no arguments, so the candidate sequence is always empty.
    open spec fn spec_completions(&self, arguments: Seq<Seq<char>>, context: CommandContext) -> Result<
        Seq<CompletionModel>,
        ErrorModel,
    > {
        Ok(Seq::empty())
    }

    /// Execution ignores arguments, prior sections, snapshot and context:
    /// the output depends on the captured prompt builder alone.
    open spec fn spec_run(
        &self,
        arguments: Seq<Seq<char>>,
        prior_sections: Seq<SectionModel>,
        snapshot: Seq<char>,
        context: CommandContext,
    ) -> Result<OutputModel, ErrorModel> {
        self.spec_output()
    }

    fn name(&self) -> (name: String) {
        "workflow".to_owned()
    }

    fn description(&self) -> (text: String) {
        "Insert prompt to opt into the edit workflow".to_owned()
    }

    fn menu_text(&self) -> (text: String) {
        self.description()
    }

    fn requires_argument(&self) -> (required: bool) {
        false
    }

    fn complete_argument(
        &self,
        arguments: &Vec<String>,
        cancel: &CancellationToken,
        context: &CommandContext,
    ) -> (result: Result<Vec<ArgumentCompletion>, SlashCommandError>) {
        let candidates: Vec<ArgumentCompletion> = Vec::new();
        proof {
            assert(candidates@.map_values(|candidate: ArgumentCompletion| candidate@)
                =~= Seq::<CompletionModel>::empty());
        }
        Ok(candidates)
    }

    /// Beyond the trait contract: a successful run never hands back empty
    /// text — the builder's invariant keeps every rendered prompt non-empty.
    fn run(
        &self,
        arguments: &Vec<String>,
        prior_sections: &Vec<SlashCommandOutputSection>,
        snapshot: &DocumentSnapshot,
        context: &CommandContext,
    ) -> (result: Result<SlashCommandOutput, SlashCommandError>)
        ensures
            result matches Ok(output) ==> output@.text.len() > 0,
    {
        let text = match self.prompt_builder.generate_workflow_prompt() {
            Ok(text) => text,
            Err(error) => {
                return Err(error);
            },
        };
        let output = SlashCommandOutput::from_full_text(
            text,
            IconName::Route,
            "Workflow".to_owned(),
        );
        proof {
            let modeled = self.spec_output()->Ok_0;
            assert(output@.sections =~= modeled.sections);
            assert(output@ =~= modeled);
        }
        Ok(output)
    }
}

} // verus!
