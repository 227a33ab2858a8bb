use devnet::relay::{
    channel_eq, channel_of, relay, relay_line, tag, tone, Channel, EntryKind, LogEntry, LogSink,
    Stream, StreamLine, Tone,
};

fn text(s: &str) -> StreamLine {
    StreamLine::Text(s.to_string())
}

fn line(channel: Channel, s: &str) -> LogEntry {
    LogEntry { channel, kind: EntryKind::Line, text: s.to_string() }
}

#[test]
fn each_channel_keeps_the_order_of_its_stream() {
    let mut sink = LogSink::new();
    sink.emit(relay_line(Stream::Stdout, text("A")));
    sink.emit(relay_line(Stream::Stderr, text("X")));
    sink.emit(relay_line(Stream::Stderr, text("Y")));
    sink.emit(relay_line(Stream::Stdout, text("B")));
    assert_eq!(sink.on_channel(Channel::Info), vec![line(Channel::Info, "A"), line(Channel::Info, "B")]);
    assert_eq!(
        sink.on_channel(Channel::Warning),
        vec![line(Channel::Warning, "X"), line(Channel::Warning, "Y")]
    );
}

#[test]
fn another_interleaving_shows_the_same_on_each_channel() {
    let mut sink = LogSink::new();
    sink.emit(relay_line(Stream::Stderr, text("X")));
    sink.emit(relay_line(Stream::Stdout, text("A")));
    sink.emit(relay_line(Stream::Stdout, text("B")));
    sink.emit(relay_line(Stream::Stderr, text("Y")));
    assert_eq!(sink.on_channel(Channel::Info), vec![line(Channel::Info, "A"), line(Channel::Info, "B")]);
    assert_eq!(
        sink.on_channel(Channel::Warning),
        vec![line(Channel::Warning, "X"), line(Channel::Warning, "Y")]
    );
    assert_eq!(sink.len(), 4);
}

#[test]
fn whole_streams_are_relayed_in_order() {
    let mut sink = LogSink::new();
    relay(&mut sink, Stream::Stdout, vec![text("A"), text("B")]);
    relay(&mut sink, Stream::Stderr, vec![text("X"), text("Y")]);
    assert_eq!(
        sink.entries(),
        &vec![
            line(Channel::Info, "A"),
            line(Channel::Info, "B"),
            line(Channel::Warning, "X"),
            line(Channel::Warning, "Y"),
        ]
    );
}

#[test]
fn malformed_line_is_reported_on_the_warning_channel_and_the_relay_goes_on() {
    let mut sink = LogSink::new();
    relay(
        &mut sink,
        Stream::Stdout,
        vec![
            text("before"),
            StreamLine::Malformed("stream did not contain valid UTF-8".to_string()),
            text("after"),
        ],
    );
    assert_eq!(sink.len(), 3);
    assert_eq!(
        sink.on_channel(Channel::Info),
        vec![line(Channel::Info, "before"), line(Channel::Info, "after")]
    );
    assert_eq!(
        sink.on_channel(Channel::Warning),
        vec![LogEntry {
            channel: Channel::Warning,
            kind: EntryKind::ReadError,
            text: "stream did not contain valid UTF-8".to_string()
        }]
    );
}

#[test]
fn lines_are_tagged_with_the_channel_of_their_stream() {
    assert_eq!(channel_of(Stream::Stdout), Channel::Info);
    assert_eq!(channel_of(Stream::Stderr), Channel::Warning);
    assert_eq!(relay_line(Stream::Stdout, text("hello")), line(Channel::Info, "hello"));
    assert_eq!(relay_line(Stream::Stderr, text("hello")), line(Channel::Warning, "hello"));
    assert_eq!(
        relay_line(Stream::Stderr, StreamLine::Malformed("bad".to_string())),
        LogEntry { channel: Channel::Warning, kind: EntryKind::ReadError, text: "bad".to_string() }
    );
}

#[test]
fn empty_log_has_nothing_on_either_channel() {
    let sink = LogSink::new();
    assert_eq!(sink.len(), 0);
    assert!(sink.entries().is_empty());
    assert!(sink.on_channel(Channel::Info).is_empty());
    assert!(sink.on_channel(Channel::Warning).is_empty());
}

#[test]
fn entries_open_with_the_words_of_their_kind() {
    assert_eq!(tag(Channel::Info, EntryKind::Line), "GIT:: ");
    assert_eq!(tag(Channel::Warning, EntryKind::Line), "GIT::NOTE::");
    assert_eq!(tag(Channel::Warning, EntryKind::ReadError), "GIT::ERROR::");
    assert_eq!(tag(Channel::Info, EntryKind::ReadError), "GIT::ERROR::");
}

#[test]
fn entry_is_copied_as_it_is() {
    let entry = line(Channel::Warning, "note");
    assert_eq!(entry.duplicate(), entry);
    assert!(channel_eq(Channel::Info, Channel::Info));
    assert!(channel_eq(Channel::Warning, Channel::Warning));
    assert!(!channel_eq(Channel::Info, Channel::Warning));
    assert!(!channel_eq(Channel::Warning, Channel::Info));
}

#[test]
fn entries_are_shown_in_the_tone_of_their_kind() {
    assert_eq!(tone(Channel::Info, EntryKind::Line), Tone::Good);
    assert_eq!(tone(Channel::Warning, EntryKind::Line), Tone::Note);
    assert_eq!(tone(Channel::Warning, EntryKind::ReadError), Tone::Bad);
    assert_eq!(tone(Channel::Info, EntryKind::ReadError), Tone::Bad);
}

#[test]
fn warning_text_is_what_was_written_to_standard_error() {
    let mut sink = LogSink::new();
    assert_eq!(sink.warning_text(), Vec::<u8>::new());
    relay(&mut sink, Stream::Stdout, vec![text("Cloning into 'x'...")]);
    assert_eq!(sink.warning_text(), Vec::<u8>::new());
    relay(&mut sink, Stream::Stderr, vec![text("fatal: no url"), text("caf\u{00e9}")]);
    relay(&mut sink, Stream::Stdout, vec![text("done")]);
    relay(&mut sink, Stream::Stderr, vec![text("")]);
    assert_eq!(sink.warning_text(), b"fatal: no url\ncaf\xc3\xa9\n\n".to_vec());
}
