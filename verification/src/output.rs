//! Structured command output: generated text annotated with sections.
//!
//! A command produces a text string together with an ordered sequence of
//! [`SlashCommandOutputSection`]s, each a half-open character range into that
//! text carrying a display icon, a short label and optional free-form
//! metadata (opaque to the core, consumed by rendering). Every section's
//! range must lie within the bounds of the same output's text; sections may
//! overlap or nest — the core imposes no disjointness constraint. Ranges are
//! always expressed relative to the command's own output text, never the
//! host document's coordinate space; translating them into document
//! coordinates when the output is spliced in is the document component's job.

use vstd::prelude::*;

verus! {

/// A display icon attached to an output section, consumed by rendering.
#[derive(Clone, Copy, PartialEq, Eq, Structural, Debug)]
pub enum IconName {
    Route,
    File,
    Search,
    Library,
}

/// A labeled, range-addressed annotation over a command's generated text.
///
/// `start..end` is a half-open character range into the output text the
/// section belongs to.
#[derive(Debug)]
pub struct SlashCommandOutputSection {
    pub start: usize,
    pub end: usize,
    pub icon: IconName,
    pub label: String,
    pub metadata: Option<String>,
}

impl Clone for SlashCommandOutputSection {
    fn clone(&self) -> (copy: Self)
        ensures
            copy == self,
    {
        SlashCommandOutputSection {
            start: self.start,
            end: self.end,
            icon: self.icon,
            label: self.label.clone(),
            metadata: match &self.metadata {
                Some(text) => Some(text.clone()),
                None => None,
            },
        }
    }
}

/// The mathematical model of a [`SlashCommandOutputSection`].
#[verifier::ext_equal]
pub struct SectionModel {
    pub start: int,
    pub end: int,
    pub icon: IconName,
    pub label: Seq<char>,
    pub metadata: Option<Seq<char>>,
}

impl View for SlashCommandOutputSection {
    type V = SectionModel;

    open spec fn view(&self) -> SectionModel {
        SectionModel {
            start: self.start as int,
            end: self.end as int,
            icon: self.icon,
            label: self.label@,
            metadata: match self.metadata {
                Some(text) => Some(text@),
                None => None,
            },
        }
    }
}

impl SectionModel {
    /// The section's range lies within a text of `text_len` characters:
    /// `0 <= start <= end <= text_len`.
    pub open spec fn in_bounds(self, text_len: int) -> bool {
        0 <= self.start <= self.end <= text_len
    }
}

/// The full result of one command execution: the generated text, the
/// sections annotating it, and whether the text may itself contain further
/// executable command invocations (recursive expansion opt-in).
#[derive(Debug)]
pub struct SlashCommandOutput {
    pub text: String,
    pub sections: Vec<SlashCommandOutputSection>,
    pub run_commands_in_text: bool,
}

impl Clone for SlashCommandOutput {
    fn clone(&self) -> (copy: Self)
        ensures
            copy@ == self@,
    {
        let mut sections: Vec<SlashCommandOutputSection> = Vec::new();
        let mut index: usize = 0;
        while index < self.sections.len()
            invariant
                index <= self.sections.len(),
                sections@.len() == index,
                forall|i: int| 0 <= i < index ==> #[trigger] sections@[i] == self.sections@[i],
            decreases self.sections.len() - index,
        {
            sections.push(self.sections[index].clone());
            index = index + 1;
        }
        proof {
            assert(sections@ =~= self.sections@);
        }
        SlashCommandOutput {
            text: self.text.clone(),
            sections,
            run_commands_in_text: self.run_commands_in_text,
        }
    }
}

/// The mathematical model of a [`SlashCommandOutput`].
#[verifier::ext_equal]
pub struct OutputModel {
    pub text: Seq<char>,
    pub sections: Seq<SectionModel>,
    pub run_commands_in_text: bool,
}

impl View for SlashCommandOutput {
    type V = OutputModel;

    open spec fn view(&self) -> OutputModel {
        OutputModel {
            text: self.text@,
            sections: self.sections@.map_values(|section: SlashCommandOutputSection| section@),
            run_commands_in_text: self.run_commands_in_text,
        }
    }
}

impl OutputModel {
    /// Well-formedness: every section's range lies within the output text.
    pub open spec fn wf(self) -> bool {
        forall|i: int|
            0 <= i < self.sections.len() ==> #[trigger] self.sections[i].in_bounds(
                self.text.len() as int,
            )
    }
}

impl SlashCommandOutput {
    /// Well-formedness of the executable value, through its model.
    pub open spec fn wf(self) -> bool {
        self@.wf()
    }

    /// Builds the output of a command that synthesized one contiguous block
    /// of text and wants it treated as a single annotated section spanning
    /// the entire text, `0..text.len()`.
    pub fn from_full_text(text: String, icon: IconName, label: String) -> (output:
        SlashCommandOutput)
        ensures
            output.wf(),
            output@.text == text@,
            output@.sections.len() == 1,
            output@.sections[0] == (SectionModel {
                start: 0,
                end: text@.len() as int,
                icon,
                label: label@,
                metadata: None,
            }),
            !output@.run_commands_in_text,
    {
        let length = text.as_str().unicode_len();
        let section = SlashCommandOutputSection {
            start: 0,
            end: length,
            icon,
            label,
            metadata: None,
        };
        let output = SlashCommandOutput {
            text,
            sections: vec![section],
            run_commands_in_text: false,
        };
        proof {
            assert(output@.sections =~= seq![section@]);
            assert(output@.sections[0] =~= (SectionModel {
                start: 0,
                end: output@.text.len() as int,
                icon,
                label: section@.label,
                metadata: None,
            }));
        }
        output
    }

    /// The slice of the output text covered by section `index`.
    pub fn section_text(&self, index: usize) -> (slice: String)
        requires
            self.wf(),
            index < self@.sections.len(),
        ensures
            slice@ == self@.text.subrange(
                self@.sections[index as int].start,
                self@.sections[index as int].end,
            ),
    {
        let section = &self.sections[index];
        proof {
            assert(self@.sections[index as int] == section@);
            assert(self@.sections[index as int].in_bounds(self@.text.len() as int));
        }
        let slice = self.text.as_str().substring_char(section.start, section.end);
        slice.to_owned()
    }
}

/// Every section of a well-formed output lies within its text: for all
/// outputs and all section indices, `0 <= start <= end <= text.len()`.
pub proof fn lemma_sections_in_bounds(output: OutputModel, index: int)
    requires
        output.wf(),
        0 <= index < output.sections.len(),
    ensures
        0 <= output.sections[index].start <= output.sections[index].end <= output.text.len(),
{
    assert(output.sections[index].in_bounds(output.text.len() as int));
}

/// Round trip: when a command produces text of length `L` annotated with a
/// single section spanning `0..L`, re-slicing the text at that section's
/// range yields exactly the text.
pub proof fn lemma_full_section_round_trip(output: OutputModel)
    requires
        output.wf(),
        output.sections.len() == 1,
        output.sections[0].start == 0,
        output.sections[0].end == output.text.len(),
    ensures
        output.text.subrange(output.sections[0].start, output.sections[0].end) == output.text,
{
    assert(output.text.subrange(0, output.text.len() as int) =~= output.text);
}

} // verus!
