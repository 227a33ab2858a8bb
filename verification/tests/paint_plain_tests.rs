use devnet::paint::{render_diagnostic, render_entry, render_failure, render_success};
use devnet::process::{Tool, ToolCommand};
use devnet::relay::{Channel, EntryKind, LogEntry};

fn colours_off() {
    colored::control::set_override(false);
}

#[test]
fn without_colours_an_entry_is_its_tag_and_its_text() {
    colours_off();
    let entry =
        LogEntry { channel: Channel::Info, kind: EntryKind::Line, text: "Cloning...".to_string() };
    assert_eq!(render_entry(&entry), "GIT::  Cloning...");
    let entry =
        LogEntry { channel: Channel::Warning, kind: EntryKind::Line, text: "note".to_string() };
    assert_eq!(render_entry(&entry), "GIT::NOTE:: note");
}

#[test]
fn without_colours_reports_are_their_words() {
    colours_off();
    assert_eq!(
        render_success(ToolCommand::Pull),
        "\u{2705} Successfully pulled latest changes from the 'origin/main' branch."
    );
    assert_eq!(render_failure(ToolCommand::Clone), "\u{274c} Failed to clone Cartesi-Coprocessor repository.");
    assert_eq!(render_diagnostic(Tool::Container, "boom"), "DOCKER::RESPONSE:: boom");
}
