//! Event-stream delivery of command output.
//!
//! A running command delivers its result incrementally rather than
//! materialized all at once: text arrives in chunks, in order, and each
//! section arrives once the text it annotates is determined. Section ranges
//! always address the command's full generated text. Assembling a stream
//! concatenates the chunks, collects the sections, and accepts recursive
//! expansion when any chunk opted into it; a stream whose sections overrun
//! the assembled text is malformed and assembles to a generation failure.

use vstd::prelude::*;

use crate::error::{ErrorModel, SlashCommandError};
use crate::output::{OutputModel, SectionModel, SlashCommandOutput, SlashCommandOutputSection};

verus! {

/// One increment of a command's output delivery.
#[derive(Debug)]
pub enum OutputEvent {
    /// The next chunk of generated text, with the chunk's opt-in to
    /// recursive command expansion.
    Text { chunk: String, run_commands_in_text: bool },
    /// A completed section; its range addresses the full generated text.
    Section(SlashCommandOutputSection),
}

/// The mathematical model of an [`OutputEvent`].
#[verifier::ext_equal]
pub enum EventModel {
    Text { chunk: Seq<char>, run_commands_in_text: bool },
    Section(SectionModel),
}

impl View for OutputEvent {
    type V = EventModel;

    open spec fn view(&self) -> EventModel {
        match self {
            OutputEvent::Text { chunk, run_commands_in_text } => EventModel::Text {
                chunk: chunk@,
                run_commands_in_text: *run_commands_in_text,
            },
            OutputEvent::Section(section) => EventModel::Section(section@),
        }
    }
}

/// The model of a delivered stream: each event's model, in delivery order.
pub open spec fn stream_view(events: Seq<OutputEvent>) -> Seq<EventModel> {
    events.map_values(|event: OutputEvent| event@)
}

/// The text a stream delivers: its chunks, concatenated in order.
pub open spec fn stream_text(events: Seq<EventModel>) -> Seq<char>
    decreases events.len(),
{
    if events.len() == 0 {
        Seq::empty()
    } else {
        stream_text(events.drop_last()) + match events.last() {
            EventModel::Text { chunk, .. } => chunk,
            EventModel::Section(_) => Seq::empty(),
        }
    }
}

/// The sections a stream delivers, in delivery order.
pub open spec fn stream_sections(events: Seq<EventModel>) -> Seq<SectionModel>
    decreases events.len(),
{
    if events.len() == 0 {
        Seq::empty()
    } else {
        stream_sections(events.drop_last()) + match events.last() {
            EventModel::Text { .. } => Seq::empty(),
            EventModel::Section(section) => seq![section],
        }
    }
}

/// Whether any delivered chunk opted into recursive command expansion.
pub open spec fn stream_runs_commands(events: Seq<EventModel>) -> bool
    decreases events.len(),
{
    if events.len() == 0 {
        false
    } else {
        stream_runs_commands(events.drop_last()) || match events.last() {
            EventModel::Text { run_commands_in_text, .. } => run_commands_in_text,
            EventModel::Section(_) => false,
        }
    }
}

/// A stream is well-formed when every section it delivers lies within the
/// text it assembles to.
pub open spec fn stream_well_formed(stream: Seq<EventModel>) -> bool {
    forall|i: int|
        0 <= i < stream_sections(stream).len() ==> #[trigger] stream_sections(stream)[i].in_bounds(
            stream_text(stream).len() as int,
        )
}

/// The events standing for a sequence of sections.
pub open spec fn section_events(sections: Seq<SectionModel>) -> Seq<EventModel> {
    sections.map_values(|section: SectionModel| EventModel::Section(section))
}

/// The canonical stream of a materialized output: its text as one chunk,
/// then its sections in order.
pub open spec fn spec_event_stream(output: OutputModel) -> Seq<EventModel> {
    seq![
        EventModel::Text { chunk: output.text, run_commands_in_text: output.run_commands_in_text },
    ] + section_events(output.sections)
}

/// Section events deliver no text and no expansion opt-in, only their
/// sections: appending them to any stream leaves the assembled text and the
/// opt-in flag alone and appends exactly the sections.
proof fn lemma_appended_section_events(prefix: Seq<EventModel>, sections: Seq<SectionModel>)
    ensures
        stream_text(prefix + section_events(sections)) == stream_text(prefix),
        stream_sections(prefix + section_events(sections)) == stream_sections(prefix) + sections,
        stream_runs_commands(prefix + section_events(sections)) == stream_runs_commands(prefix),
    decreases sections.len(),
{
    if sections.len() == 0 {
        assert(prefix + section_events(sections) =~= prefix);
        assert(stream_sections(prefix) + sections =~= stream_sections(prefix));
    } else {
        let shorter = sections.drop_last();
        lemma_appended_section_events(prefix, shorter);
        assert((prefix + section_events(sections)).drop_last() =~= prefix + section_events(
            shorter,
        ));
        assert((prefix + section_events(sections)).last() == EventModel::Section(sections.last()));
        assert(stream_sections(prefix + section_events(sections)) =~= stream_sections(prefix)
            + sections);
    }
}

/// Round trip: the canonical stream of an output assembles back to exactly
/// that output — the same text, the same sections in the same order, and
/// the same recursive-expansion opt-in.
pub proof fn lemma_event_stream_round_trip(output: OutputModel)
    ensures
        stream_text(spec_event_stream(output)) == output.text,
        stream_sections(spec_event_stream(output)) == output.sections,
        stream_runs_commands(spec_event_stream(output)) == output.run_commands_in_text,
{
    let first = EventModel::Text {
        chunk: output.text,
        run_commands_in_text: output.run_commands_in_text,
    };
    let prefix = seq![first];
    let empty: Seq<EventModel> = Seq::empty();
    assert(stream_text(empty) == Seq::<char>::empty());
    assert(stream_sections(empty) == Seq::<SectionModel>::empty());
    assert(!stream_runs_commands(empty));
    assert(prefix.drop_last() =~= empty);
    assert(prefix.last() == first);
    assert(stream_text(prefix) =~= output.text);
    assert(stream_sections(prefix) =~= Seq::<SectionModel>::empty());
    lemma_appended_section_events(prefix, output.sections);
    assert(stream_sections(prefix) + output.sections =~= output.sections);
}

impl SlashCommandOutput {
    /// Delivers this output as its canonical event stream: the text as one
    /// chunk, then each section in order.
    pub fn to_event_stream(&self) -> (events: Vec<OutputEvent>)
        ensures
            stream_view(events@) == spec_event_stream(self@),
    {
        let mut events: Vec<OutputEvent> = Vec::new();
        events.push(
            OutputEvent::Text {
                chunk: self.text.clone(),
                run_commands_in_text: self.run_commands_in_text,
            },
        );
        let mut index: usize = 0;
        while index < self.sections.len()
            invariant
                index <= self.sections.len(),
                events@.len() == 1 + index,
                stream_view(events@) =~= seq![
                    EventModel::Text {
                        chunk: self@.text,
                        run_commands_in_text: self@.run_commands_in_text,
                    },
                ] + section_events(self@.sections.take(index as int)),
            decreases self.sections.len() - index,
        {
            let ghost before = events@;
            let delivered = OutputEvent::Section(self.sections[index].clone());
            proof {
                assert(delivered@ == EventModel::Section(self@.sections[index as int]));
            }
            events.push(delivered);
            proof {
                assert(stream_view(events@) =~= stream_view(before).push(delivered@));
                assert(section_events(self@.sections.take(index as int + 1))
                    =~= section_events(self@.sections.take(index as int)).push(
                    EventModel::Section(self@.sections[index as int]),
                ));
            }
            index = index + 1;
        }
        proof {
            assert(self@.sections.take(self.sections@.len() as int) =~= self@.sections);
            assert(stream_view(events@) =~= spec_event_stream(self@));
        }
        events
    }
}

/// Assembles a delivered stream back into a materialized output.
///
/// The chunks are concatenated in delivery order, the sections collected in
/// delivery order, and recursive expansion is accepted when any chunk opted
/// in. The assembly succeeds if and only if every delivered section lies
/// within the assembled text; a stream that overruns its own text is
/// malformed, and assembling it is a generation failure.
pub fn from_event_stream(events: &Vec<OutputEvent>) -> (result: Result<
    SlashCommandOutput,
    SlashCommandError,
>)
    ensures
        ({
            let stream = stream_view(events@);
            &&& (result is Ok <==> stream_well_formed(stream))
            &&& result matches Ok(output) ==> output@ == (OutputModel {
                text: stream_text(stream),
                sections: stream_sections(stream),
                run_commands_in_text: stream_runs_commands(stream),
            }) && output.wf()
            &&& result matches Err(error) ==> error@ == ErrorModel::GenerationFailure(
                "output stream section out of bounds"@,
            )
        }),
{
    let ghost stream = stream_view(events@);
    let mut text = String::new();
    let mut sections: Vec<SlashCommandOutputSection> = Vec::new();
    let mut run_commands_in_text = false;
    let mut index: usize = 0;
    while index < events.len()
        invariant
            index <= events@.len(),
            stream == stream_view(events@),
            text@ == stream_text(stream.take(index as int)),
            sections@.map_values(|section: SlashCommandOutputSection| section@) == stream_sections(
                stream.take(index as int),
            ),
            run_commands_in_text == stream_runs_commands(stream.take(index as int)),
        decreases events@.len() - index,
    {
        proof {
            assert(stream.take(index as int + 1).drop_last() =~= stream.take(index as int));
            assert(stream.take(index as int + 1).last() == stream[index as int]);
        }
        match &events[index] {
            OutputEvent::Text { chunk, run_commands_in_text: chunk_runs } => {
                text.append(chunk.as_str());
                run_commands_in_text = run_commands_in_text || *chunk_runs;
                proof {
                    assert(sections@.map_values(|section: SlashCommandOutputSection| section@)
                        =~= stream_sections(stream.take(index as int + 1)));
                }
            },
            OutputEvent::Section(section) => {
                sections.push(section.clone());
                proof {
                    assert(sections@.map_values(|section: SlashCommandOutputSection| section@)
                        =~= stream_sections(stream.take(index as int + 1)));
                }
            },
        }
        index = index + 1;
    }
    proof {
        assert(stream.take(events@.len() as int) =~= stream);
    }
    let total = text.as_str().unicode_len();
    let mut checked: usize = 0;
    while checked < sections.len()
        invariant
            checked <= sections@.len(),
            stream == stream_view(events@),
            total == stream_text(stream).len(),
            sections@.map_values(|section: SlashCommandOutputSection| section@) == stream_sections(
                stream,
            ),
            forall|i: int|
                0 <= i < checked ==> #[trigger] stream_sections(stream)[i].in_bounds(
                    stream_text(stream).len() as int,
                ),
        decreases sections@.len() - checked,
    {
        let section = &sections[checked];
        if section.start > section.end || section.end > total {
            proof {
                assert(stream_sections(stream)[checked as int] == section@);
                assert(!stream_sections(stream)[checked as int].in_bounds(
                    stream_text(stream).len() as int,
                ));
                assert(!stream_well_formed(stream));
            }
            return Err(
                SlashCommandError::GenerationFailure(
                    "output stream section out of bounds".to_owned(),
                ),
            );
        }
        proof {
            assert(stream_sections(stream)[checked as int] == section@);
        }
        checked = checked + 1;
    }
    let output = SlashCommandOutput { text, sections, run_commands_in_text };
    proof {
        assert(stream_well_formed(stream));
        assert(output@ =~= (OutputModel {
            text: stream_text(stream),
            sections: stream_sections(stream),
            run_commands_in_text: stream_runs_commands(stream),
        }));
    }
    Ok(output)
}

} // verus!
