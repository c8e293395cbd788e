use slash_command::event::{from_event_stream, OutputEvent};
use slash_command::error::SlashCommandError;
use slash_command::output::{IconName, SlashCommandOutput, SlashCommandOutputSection};

fn section(start: usize, end: usize, label: &str) -> SlashCommandOutputSection {
    SlashCommandOutputSection {
        start,
        end,
        icon: IconName::File,
        label: String::from(label),
        metadata: None,
    }
}

#[test]
fn event_stream_round_trips_an_output() {
    let output = SlashCommandOutput {
        text: String::from("generated body"),
        sections: vec![section(0, 9, "Head"), section(4, 14, "Tail")],
        run_commands_in_text: true,
    };
    let events = output.to_event_stream();
    assert_eq!(events.len(), 3);
    let assembled = from_event_stream(&events).expect("a well-formed stream must assemble");
    assert_eq!(assembled.text, output.text);
    assert_eq!(assembled.sections.len(), 2);
    assert_eq!(assembled.sections[0].label, "Head");
    assert_eq!(assembled.sections[1].label, "Tail");
    assert_eq!(assembled.sections[1].start, 4);
    assert_eq!(assembled.sections[1].end, 14);
    assert!(assembled.run_commands_in_text);
}

#[test]
fn chunks_assemble_in_delivery_order() {
    let events = vec![
        OutputEvent::Text {
            chunk: String::from("alpha "),
            run_commands_in_text: false,
        },
        OutputEvent::Section(section(0, 5, "First")),
        OutputEvent::Text {
            chunk: String::from("beta"),
            run_commands_in_text: true,
        },
        OutputEvent::Section(section(6, 10, "Second")),
    ];
    let assembled = from_event_stream(&events).expect("interleaved chunks must assemble");
    assert_eq!(assembled.text, "alpha beta");
    assert_eq!(assembled.sections.len(), 2);
    assert_eq!(assembled.section_text(0), "alpha");
    assert_eq!(assembled.section_text(1), "beta");
    assert!(assembled.run_commands_in_text);
}

#[test]
fn empty_stream_assembles_to_empty_output() {
    let events: Vec<OutputEvent> = Vec::new();
    let assembled = from_event_stream(&events).expect("an empty stream assembles to nothing");
    assert_eq!(assembled.text, "");
    assert!(assembled.sections.is_empty());
    assert!(!assembled.run_commands_in_text);
}

#[test]
fn overrunning_section_makes_the_stream_malformed() {
    let events = vec![
        OutputEvent::Text {
            chunk: String::from("short"),
            run_commands_in_text: false,
        },
        OutputEvent::Section(section(0, 6, "TooWide")),
    ];
    match from_event_stream(&events) {
        Err(SlashCommandError::GenerationFailure(message)) => {
            assert_eq!(message, "output stream section out of bounds");
        }
        _ => panic!("a section past the text must not assemble"),
    }
}

#[test]
fn inverted_section_makes_the_stream_malformed() {
    let events = vec![
        OutputEvent::Text {
            chunk: String::from("plenty of text"),
            run_commands_in_text: false,
        },
        OutputEvent::Section(section(7, 3, "Backwards")),
    ];
    assert!(from_event_stream(&events).is_err());
}
