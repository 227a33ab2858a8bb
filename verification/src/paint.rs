//! The lines that are shown to the user, painted in the tone of what they
//! say.

use colored::{Color, Colorize};
use vstd::prelude::*;
use vstd::string::StringExecFns;
use crate::messages::{failure_message, response_tag, success_message};
use crate::messages::{spec_failure_message, spec_response_tag, spec_success_message};
use crate::process::{ProcessOutcome, Tool, ToolCommand};
use crate::relay::{Channel, EntryKind, LogEntry, Tone, spec_tag, spec_tone, tag, tone};
use crate::text::{is_behind_upstream, occurs_at, occurs_in, reports_behind};

verus! {

/// The mark that opens the confirmation of a success.
pub const SUCCESS_MARK: &'static str = "✅";

/// The mark that opens the report of a failure.
pub const FAILURE_MARK: &'static str = "❌";

/// The sequence that ends all colouring on a terminal.
pub open spec fn spec_reset() -> Seq<char> {
    "\x1B[0m"@
}

/// The sequence that switches a terminal to the colour of a tone: green for
/// good news, yellow for a remark, red for bad news.
pub open spec fn spec_escape(tone: Tone) -> Seq<char> {
    match tone {
        Tone::Good => "\x1B[32m"@,
        Tone::Note => "\x1B[33m"@,
        Tone::Bad => "\x1B[31m"@,
    }
}

/// A text between the sequence of its tone and the reset.
pub open spec fn spec_coloured(text: Seq<char>, tone: Tone) -> Seq<char> {
    spec_escape(tone) + text + spec_reset()
}

/// Whether `painted` is `text` as it is or coloured in `tone`. Which of the
/// two a terminal gets depends on the terminal and on the environment.
pub open spec fn is_form_of(painted: Seq<char>, text: Seq<char>, tone: Tone) -> bool {
    painted == text || painted == spec_coloured(text, tone)
}

/// Whether `painted` is what painting `text` can give: one of its two forms.
/// Nothing is said of a text that holds a reset sequence itself.
pub open spec fn may_paint(text: Seq<char>, tone: Tone, painted: Seq<char>) -> bool {
    !occurs_in(text, spec_reset()) ==> is_form_of(painted, text, tone)
}

/// Whether a text holds no escape character.
pub open spec fn is_plain(text: Seq<char>) -> bool {
    forall|i: int| 0 <= i < text.len() ==> text[i] != '\x1B'
}

/// Whether `line` shows `mark` as it is and then `text` in one of its forms.
pub open spec fn shows_marked(line: Seq<char>, mark: Seq<char>, text: Seq<char>, tone: Tone) -> bool {
    line == mark + " "@ + text || line == mark + " "@ + spec_coloured(text, tone)
}

/// Whether `line` shows `label` in one of its forms and then `text` as it
/// is.
pub open spec fn shows_labelled(line: Seq<char>, label: Seq<char>, text: Seq<char>, tone: Tone) -> bool {
    line == label + " "@ + text || line == spec_coloured(label, tone) + " "@ + text
}

/// Whether `line` shows `label` in one of its forms and then what painting
/// `text` gave.
pub open spec fn shows_painted(line: Seq<char>, label: Seq<char>, text: Seq<char>, tone: Tone) -> bool {
    exists|painted: Seq<char>|
        may_paint(text, tone, painted) && #[trigger] shows_labelled(line, label, painted, tone)
}

/// Paints `text` with `Colorize::color` of the `colored` crate and formats
/// the coloured string with `to_string`. That crate decides by itself, from
/// the environment and from whether standard output is a terminal, if it
/// colours at all: where it does not, the text comes back unchanged; where
/// it does, the text stands between the escape sequence of the foreground
/// colour and the reset sequence. A text that holds a reset sequence is
/// rewritten inside, and nothing is claimed of it.
#[verifier::external_body]
fn paint(text: &str, tone: Tone) -> (painted: String)
    ensures
        may_paint(text@, tone, painted@),
{
    let color = match tone {
        Tone::Good => Color::Green,
        Tone::Note => Color::Yellow,
        Tone::Bad => Color::Red,
    };
    text.color(color).to_string()
}

/// Two parts of a line, with a blank between them.
pub fn join_parts(first: &str, second: &str) -> (line: String)
    ensures
        line@ == first@ + " "@ + second@,
{
    let mut line = String::from_str(first);
    line.append(" ");
    line.append(second);
    line
}

/// A text without an escape character holds no reset sequence.
pub proof fn lemma_plain_text_holds_no_reset(text: Seq<char>)
    requires
        is_plain(text),
    ensures
        !occurs_in(text, spec_reset()),
{
    reveal_strlit("\x1B[0m");
    let reset = spec_reset();
    assert forall|at: int| !occurs_at(text, reset, at) by {
        if occurs_at(text, reset, at) {
            let window = text.subrange(at, at + reset.len());
            assert(window[0] == text[at]);
            assert(reset[0] == '\x1B');
        }
    }
}

proof fn lemma_tags_are_plain(channel: Channel, kind: EntryKind)
    ensures
        is_plain(spec_tag(channel, kind)),
{
    reveal_strlit("GIT::ERROR::");
    reveal_strlit("GIT:: ");
    reveal_strlit("GIT::NOTE::");
}

proof fn lemma_response_tags_are_plain(tool: Tool)
    ensures
        is_plain(spec_response_tag(tool)),
{
    reveal_strlit("GIT::RESPONSE::");
    reveal_strlit("DOCKER::RESPONSE::");
}

proof fn lemma_success_messages_are_plain(command: ToolCommand)
    ensures
        is_plain(spec_success_message(command)),
{
    reveal_strlit("Successfully cloned Cartesi-Coprocessor repository");
    reveal_strlit("Cartesi-Coprocessor repository is up to date");
    reveal_strlit("Successfully pulled latest changes from the 'origin/main' branch.");
    reveal_strlit("Successfully updated submodules.");
    reveal_strlit("Successfully built Devnet containers.");
    reveal_strlit("Successfully pulled changes to Devnet containers.");
    reveal_strlit("Cartesi-Coprocessor devnet environment started.");
    reveal_strlit("Cartesi-Coprocessor devnet environment stoped.");
}

proof fn lemma_failure_messages_are_plain(command: ToolCommand)
    ensures
        is_plain(spec_failure_message(command)),
{
    reveal_strlit("Failed to clone Cartesi-Coprocessor repository.");
    reveal_strlit("Failed to check repository status:");
    reveal_strlit("Failed to pull latest changes from the 'origin/main' branch.");
    reveal_strlit("Failed to update submodules.");
    reveal_strlit("Failed to build containers.");
    reveal_strlit("Failed to pull changes to containers.");
    reveal_strlit("Failed to start devnet containers:");
    reveal_strlit("Failed to stop devnet containers:");
}

/// The line that shows an entry of the log: its tag and its text, in the
/// tone of its channel. The text of a read error is shown as it is, after
/// its tag.
pub fn render_entry(entry: &LogEntry) -> (line: String)
    ensures
        entry.kind == EntryKind::Line ==> shows_painted(
            line@,
            spec_tag(entry.channel, entry.kind),
            entry.text@,
            spec_tone(entry.channel, entry.kind),
        ),
        entry.kind == EntryKind::ReadError ==> shows_labelled(
            line@,
            spec_tag(entry.channel, entry.kind),
            entry.text@,
            spec_tone(entry.channel, entry.kind),
        ),
{
    let how = tone(entry.channel, entry.kind);
    let words = paint(tag(entry.channel, entry.kind), how);
    proof {
        lemma_tags_are_plain(entry.channel, entry.kind);
        lemma_plain_text_holds_no_reset(spec_tag(entry.channel, entry.kind));
    }
    match entry.kind {
        EntryKind::Line => {
            let text = paint(entry.text.as_str(), how);
            let line = join_parts(words.as_str(), text.as_str());
            assert(shows_labelled(line@, spec_tag(entry.channel, entry.kind), text@, how));
            line
        },
        EntryKind::ReadError => join_parts(words.as_str(), entry.text.as_str()),
    }
}

/// The line that confirms that `command` succeeded: the mark of success and
/// the confirmation, as good news.
pub fn render_success(command: ToolCommand) -> (line: String)
    ensures
        shows_marked(line@, SUCCESS_MARK@, spec_success_message(command), Tone::Good),
{
    let words = paint(success_message(command), Tone::Good);
    proof {
        lemma_success_messages_are_plain(command);
        lemma_plain_text_holds_no_reset(spec_success_message(command));
    }
    join_parts(SUCCESS_MARK, words.as_str())
}

/// Whether the exit of `command` is confirmed to the user: a command that
/// failed is not, and neither is a status query after which a pull follows.
pub open spec fn spec_is_confirmed(command: ToolCommand, outcome: ProcessOutcome) -> bool {
    outcome.success && !(command == ToolCommand::Status && reports_behind(outcome.stdout@))
}

/// The line that confirms the exit of `command`, where it is confirmed.
pub fn confirmation(command: ToolCommand, outcome: &ProcessOutcome) -> (line: Option<String>)
    ensures
        line is Some <==> spec_is_confirmed(command, *outcome),
        line matches Some(words) ==> shows_marked(
            words@,
            SUCCESS_MARK@,
            spec_success_message(command),
            Tone::Good,
        ),
{
    if !outcome.success {
        return None;
    }
    match command {
        ToolCommand::Status => {
            if is_behind_upstream(outcome.stdout.as_slice()) {
                None
            } else {
                Some(render_success(command))
            }
        },
        _ => Some(render_success(command)),
    }
}

/// The line that names the step that failed: the mark of failure and the
/// step's words, as bad news.
pub fn render_failure(command: ToolCommand) -> (line: String)
    ensures
        shows_marked(line@, FAILURE_MARK@, spec_failure_message(command), Tone::Bad),
{
    let words = paint(failure_message(command), Tone::Bad);
    proof {
        lemma_failure_messages_are_plain(command);
        lemma_plain_text_holds_no_reset(spec_failure_message(command));
    }
    join_parts(FAILURE_MARK, words.as_str())
}

/// The line that shows what a tool said when it failed: the tag of the tool
/// and the tool's own words, as bad news.
pub fn render_diagnostic(tool: Tool, diagnostic: &str) -> (line: String)
    ensures
        shows_painted(line@, spec_response_tag(tool), diagnostic@, Tone::Bad),
{
    let words = paint(response_tag(tool), Tone::Bad);
    let text = paint(diagnostic, Tone::Bad);
    proof {
        lemma_response_tags_are_plain(tool);
        lemma_plain_text_holds_no_reset(spec_response_tag(tool));
    }
    let line = join_parts(words.as_str(), text.as_str());
    assert(shows_labelled(line@, spec_response_tag(tool), text@, Tone::Bad));
    line
}

} // verus!
