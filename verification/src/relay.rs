//! The streaming log relay: every line that a running process writes becomes
//! an entry of the log, tagged with the channel it belongs to.

use vstd::prelude::*;

verus! {

/// The two output streams of a process.
#[derive(Clone, Copy, Debug, PartialEq, Eq, Structural)]
pub enum Stream {
    Stdout,
    Stderr,
}

/// The two channels of the log.
#[derive(Clone, Copy, Debug, PartialEq, Eq, Structural)]
pub enum Channel {
    Info,
    Warning,
}

/// What reading one line from a stream gave.
#[derive(Clone, Debug, PartialEq, Eq)]
pub enum StreamLine {
    /// A line of text, without its line ending.
    Text(String),
    /// Bytes that are no text; the string says what was wrong with them.
    Malformed(String),
}

/// What an entry of the log holds.
#[derive(Clone, Copy, Debug, PartialEq, Eq, Structural)]
pub enum EntryKind {
    /// A line that the process wrote.
    Line,
    /// A report of a line that could not be read as text.
    ReadError,
}

/// How an entry is meant: as good news, as a remark, or as bad news.
#[derive(Clone, Copy, Debug, PartialEq, Eq, Structural)]
pub enum Tone {
    Good,
    Note,
    Bad,
}

/// One entry of the log.
#[derive(Clone, Debug, PartialEq, Eq)]
pub struct LogEntry {
    pub channel: Channel,
    pub kind: EntryKind,
    pub text: String,
}

/// The channel that carries the lines of a stream.
pub open spec fn spec_channel_of(stream: Stream) -> Channel {
    match stream {
        Stream::Stdout => Channel::Info,
        Stream::Stderr => Channel::Warning,
    }
}

/// The entry that a line becomes: a line of text goes to the channel of its
/// stream; a malformed line is reported on the warning channel, whichever
/// stream it came from.
pub open spec fn spec_relay_line(stream: Stream, line: StreamLine) -> LogEntry {
    match line {
        StreamLine::Text(text) => LogEntry {
            channel: spec_channel_of(stream),
            kind: EntryKind::Line,
            text,
        },
        StreamLine::Malformed(text) => LogEntry {
            channel: Channel::Warning,
            kind: EntryKind::ReadError,
            text,
        },
    }
}

/// The entries that the lines of one stream become, in the order of the
/// lines.
pub open spec fn spec_relay(stream: Stream, lines: Seq<StreamLine>) -> Seq<LogEntry> {
    Seq::new(lines.len(), |i: int| spec_relay_line(stream, lines[i]))
}

/// The entries of one channel, in the order in which they were emitted.
pub open spec fn spec_on_channel(entries: Seq<LogEntry>, channel: Channel) -> Seq<LogEntry> {
    entries.filter(spec_is_on(channel))
}

/// The test for the entries of one channel.
pub open spec fn spec_is_on(channel: Channel) -> spec_fn(LogEntry) -> bool {
    |entry: LogEntry| entry.channel == channel
}

/// The words that open an entry when it is shown.
pub open spec fn spec_tag(channel: Channel, kind: EntryKind) -> Seq<char> {
    match (kind, channel) {
        (EntryKind::ReadError, _) => "GIT::ERROR::"@,
        (EntryKind::Line, Channel::Info) => "GIT:: "@,
        (EntryKind::Line, Channel::Warning) => "GIT::NOTE::"@,
    }
}

/// The tone in which an entry is shown.
pub open spec fn spec_tone(channel: Channel, kind: EntryKind) -> Tone {
    match (kind, channel) {
        (EntryKind::ReadError, _) => Tone::Bad,
        (EntryKind::Line, Channel::Info) => Tone::Good,
        (EntryKind::Line, Channel::Warning) => Tone::Note,
    }
}

/// A text as the bytes of one line: its encoding, then a line feed.
pub open spec fn spec_line(text: Seq<char>) -> Seq<u8> {
    vstd::utf8::encode_utf8(text).push(10u8)
}

/// The bytes of the entries' texts, each text followed by a line feed.
pub open spec fn spec_joined(entries: Seq<LogEntry>) -> Seq<u8>
    decreases entries.len(),
{
    if entries.len() == 0 {
        Seq::empty()
    } else {
        spec_joined(entries.drop_last()) + spec_line(entries.last().text@)
    }
}

/// The channel that carries the lines of a stream.
pub fn channel_of(stream: Stream) -> (channel: Channel)
    ensures
        channel == spec_channel_of(stream),
{
    match stream {
        Stream::Stdout => Channel::Info,
        Stream::Stderr => Channel::Warning,
    }
}

/// Turns what was read from `stream` into an entry of the log. A malformed
/// line is reported and does not end the relay.
pub fn relay_line(stream: Stream, line: StreamLine) -> (entry: LogEntry)
    ensures
        entry == spec_relay_line(stream, line),
{
    match line {
        StreamLine::Text(text) => LogEntry { channel: channel_of(stream), kind: EntryKind::Line, text },
        StreamLine::Malformed(text) => LogEntry {
            channel: Channel::Warning,
            kind: EntryKind::ReadError,
            text,
        },
    }
}

/// The words that open an entry when it is shown.
pub fn tag(channel: Channel, kind: EntryKind) -> (words: &'static str)
    ensures
        words@ == spec_tag(channel, kind),
{
    match (kind, channel) {
        (EntryKind::ReadError, _) => "GIT::ERROR::",
        (EntryKind::Line, Channel::Info) => "GIT:: ",
        (EntryKind::Line, Channel::Warning) => "GIT::NOTE::",
    }
}

/// The tone in which an entry is shown: lines of standard output as good
/// news, lines of standard error as remarks, read errors as bad news.
pub fn tone(channel: Channel, kind: EntryKind) -> (tone: Tone)
    ensures
        tone == spec_tone(channel, kind),
{
    match (kind, channel) {
        (EntryKind::ReadError, _) => Tone::Bad,
        (EntryKind::Line, Channel::Info) => Tone::Good,
        (EntryKind::Line, Channel::Warning) => Tone::Note,
    }
}

impl LogEntry {
    /// A copy of the entry.
    pub fn duplicate(&self) -> (copy: LogEntry)
        ensures
            copy == *self,
    {
        LogEntry { channel: self.channel, kind: self.kind, text: self.text.clone() }
    }
}

/// The log: entries are appended to it and never changed or removed.
#[derive(Debug, PartialEq, Eq)]
pub struct LogSink {
    entries: Vec<LogEntry>,
}

impl View for LogSink {
    type V = Seq<LogEntry>;

    closed spec fn view(&self) -> Seq<LogEntry> {
        self.entries@
    }
}

impl LogSink {
    /// A log without entries.
    pub fn new() -> (sink: LogSink)
        ensures
            sink@ == Seq::<LogEntry>::empty(),
    {
        LogSink { entries: Vec::new() }
    }

    /// The number of entries.
    pub fn len(&self) -> (n: usize)
        ensures
            n == self@.len(),
    {
        self.entries.len()
    }

    /// All entries, in the order in which they were emitted.
    pub fn entries(&self) -> (entries: &Vec<LogEntry>)
        ensures
            entries@ == self@,
    {
        &self.entries
    }

    /// Appends one entry. The entries of its channel stay in their order and
    /// are followed by it; the other channel is left as it was.
    pub fn emit(&mut self, entry: LogEntry)
        ensures
            final(self)@ == old(self)@.push(entry),
            spec_on_channel(final(self)@, entry.channel) == spec_on_channel(
                old(self)@,
                entry.channel,
            ).push(entry),
            forall|other: Channel|
                other != entry.channel ==> #[trigger] spec_on_channel(final(self)@, other)
                    == spec_on_channel(old(self)@, other),
    {
        proof {
            lemma_emit_keeps_channels(self@, entry);
        }
        self.entries.push(entry);
    }

    /// What the process wrote to standard error, as far as it was relayed:
    /// the texts of the warning channel, one line each, as bytes.
    pub fn warning_text(&self) -> (text: Vec<u8>)
        ensures
            text@ == spec_joined(spec_on_channel(self@, Channel::Warning)),
    {
        let warnings = self.on_channel(Channel::Warning);
        let mut text: Vec<u8> = Vec::new();
        let mut i: usize = 0;
        while i < warnings.len()
            invariant
                i <= warnings@.len(),
                text@ == spec_joined(warnings@.take(i as int)),
            decreases warnings@.len() - i,
        {
            proof {
                assert(warnings@.take(i + 1).drop_last() =~= warnings@.take(i as int));
                assert(warnings@.take(i + 1).last() == warnings@[i as int]);
            }
            text.extend_from_slice(warnings[i].text.as_str().as_bytes());
            text.push(10u8);
            assert(text@ =~= spec_joined(warnings@.take(i as int)) + spec_line(
                warnings@[i as int].text@,
            ));
            i = i + 1;
        }
        proof {
            assert(warnings@.take(i as int) =~= warnings@);
        }
        text
    }

    /// The entries of one channel, in the order in which they were emitted.
    pub fn on_channel(&self, channel: Channel) -> (found: Vec<LogEntry>)
        ensures
            found@ == spec_on_channel(self@, channel),
    {
        let mut found: Vec<LogEntry> = Vec::new();
        let mut i: usize = 0;
        while i < self.entries.len()
            invariant
                i <= self.entries@.len(),
                found@ == spec_on_channel(self.entries@.take(i as int), channel),
            decreases self.entries@.len() - i,
        {
            proof {
                assert(self.entries@.take(i + 1) =~= self.entries@.take(i as int).push(
                    self.entries@[i as int],
                ));
                lemma_emit_keeps_channels(self.entries@.take(i as int), self.entries@[i as int]);
            }
            if channel_eq(self.entries[i].channel, channel) {
                found.push(self.entries[i].duplicate());
            }
            i = i + 1;
        }
        proof {
            assert(self.entries@.take(i as int) =~= self.entries@);
        }
        found
    }
}

/// Whether two channels are the same.
pub fn channel_eq(a: Channel, b: Channel) -> (same: bool)
    ensures
        same == (a == b),
{
    match (a, b) {
        (Channel::Info, Channel::Info) => true,
        (Channel::Warning, Channel::Warning) => true,
        _ => false,
    }
}

/// Relays the lines of one stream into the log, one entry for each line and
/// in the order of the lines.
pub fn relay(sink: &mut LogSink, stream: Stream, lines: Vec<StreamLine>)
    ensures
        final(sink)@ == old(sink)@ + spec_relay(stream, lines@),
{
    let ghost all = lines@;
    let ghost before = sink@;
    assert(sink@ =~= before + spec_relay(stream, all.take(0)));
    for line in it: lines
        invariant
            it.seq() == all,
            sink@ == before + spec_relay(stream, all.take(it.index() as int)),
    {
        let ghost k = it.index() as int;
        sink.emit(relay_line(stream, line));
        assert(sink@ =~= before + spec_relay(stream, all.take(k + 1)));
    }
    assert(all.take(all.len() as int) =~= all);
}

/// An entry that is appended follows the entries of its own channel and
/// leaves the other channel as it was.
pub proof fn lemma_emit_keeps_channels(entries: Seq<LogEntry>, entry: LogEntry)
    ensures
        spec_on_channel(entries.push(entry), entry.channel) == spec_on_channel(
            entries,
            entry.channel,
        ).push(entry),
        forall|other: Channel|
            other != entry.channel ==> #[trigger] spec_on_channel(entries.push(entry), other)
                == spec_on_channel(entries, other),
{
    let longer = entries.push(entry);
    assert(longer.drop_last() =~= entries);
    assert(longer.last() == entry);
    assert forall|channel: Channel| #[trigger]
        spec_on_channel(longer, channel) == if entry.channel == channel {
            spec_on_channel(entries, channel).push(entry)
        } else {
            spec_on_channel(entries, channel)
        } by {
        let test = spec_is_on(channel);
        reveal(Seq::filter);
        assert(test(entry) == (entry.channel == channel));
        assert(longer.filter(test) == if test(longer.last()) {
            longer.drop_last().filter(test).push(longer.last())
        } else {
            longer.drop_last().filter(test)
        });
    }
}

/// Whether every line is text.
pub open spec fn all_text(lines: Seq<StreamLine>) -> bool {
    forall|i: int| 0 <= i < lines.len() ==> #[trigger] lines[i] is Text
}

/// The lines of one stream keep their order on their channel, however the
/// entries of the two streams are interleaved: what is appended to a log
/// shows on each channel after what that channel held, in the order in which
/// it was appended.
pub proof fn lemma_channel_order_is_kept(
    before: Seq<LogEntry>,
    appended: Seq<LogEntry>,
    channel: Channel,
)
    ensures
        spec_on_channel(before + appended, channel) == spec_on_channel(before, channel)
            + spec_on_channel(appended, channel),
{
    Seq::filter_distributes_over_add(before, appended, spec_is_on(channel));
}

/// The text lines of a stream show on the channel of that stream, all of
/// them and in their order, and not on the other channel.
pub proof fn lemma_text_lines_stay_on_their_channel(
    stream: Stream,
    lines: Seq<StreamLine>,
    channel: Channel,
)
    requires
        all_text(lines),
    ensures
        spec_on_channel(spec_relay(stream, lines), channel) == if channel == spec_channel_of(
            stream,
        ) {
            spec_relay(stream, lines)
        } else {
            Seq::<LogEntry>::empty()
        },
    decreases lines.len(),
{
    let relayed = spec_relay(stream, lines);
    if lines.len() > 0 {
        let shorter = lines.drop_last();
        lemma_text_lines_stay_on_their_channel(stream, shorter, channel);
        assert(relayed.drop_last() =~= spec_relay(stream, shorter));
        assert(lines.last() is Text);
        assert(relayed.last() == spec_relay_line(stream, lines.last()));
        assert(relayed =~= relayed.drop_last().push(relayed.last()));
        lemma_emit_keeps_channels(relayed.drop_last(), relayed.last());
    } else {
        assert(relayed =~= Seq::<LogEntry>::empty());
    }
}

} // verus!
