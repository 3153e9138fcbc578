//! The command grammar of the input line.
//!
//! In the chat phase a line is a command when it is `/quit` or `/clear`, or
//! begins with `/join `, `/color ` or `/server `; any other line is chat
//! text. `/join` and `/server` need an argument: the second token of the
//! line. Without one the line is chat text like any other.

use crate::text::{
    begins_with, chars_of, find, lemma_position, position, same, second_token, skip_spaces,
    skip_token, without_first,
};
use vstd::prelude::*;

verus! {

/// What a line asks for, as plain values.
pub enum CommandView {
    Quit,
    Clear,
    Join { room: Seq<char>, line: Seq<char> },
    ColorCmd(Seq<char>),
    ServerCmd(Seq<char>),
    PlainText(Seq<char>),
}

/// What a line asks for.
#[derive(Debug, PartialEq, Eq)]
pub enum Command {
    /// End the session.
    Quit,
    /// Empty the message log.
    Clear,
    /// Show `room` as the current room, and send `line` on as it was typed.
    Join { room: String, line: String },
    /// Send the text on: the line without its first `#`.
    ColorCmd(String),
    /// Replace the connection by one to this address.
    ServerCmd(String),
    /// Send the text on as it was typed.
    PlainText(String),
}

impl View for Command {
    type V = CommandView;

    open spec fn view(&self) -> CommandView {
        match self {
            Command::Quit => CommandView::Quit,
            Command::Clear => CommandView::Clear,
            Command::Join { room, line } => CommandView::Join { room: room@, line: line@ },
            Command::ColorCmd(text) => CommandView::ColorCmd(text@),
            Command::ServerCmd(url) => CommandView::ServerCmd(url@),
            Command::PlainText(text) => CommandView::PlainText(text@),
        }
    }
}

/// The command that a line stands for.
pub open spec fn classify(line: Seq<char>) -> CommandView {
    if line == "/quit"@ {
        CommandView::Quit
    } else if line == "/clear"@ {
        CommandView::Clear
    } else if "/join "@.is_prefix_of(line) {
        match second_token(line) {
            Some(room) => CommandView::Join { room, line },
            None => CommandView::PlainText(line),
        }
    } else if "/color "@.is_prefix_of(line) {
        CommandView::ColorCmd(without_first(line, '#'))
    } else if "/server "@.is_prefix_of(line) {
        match second_token(line) {
            Some(url) => CommandView::ServerCmd(url),
            None => CommandView::PlainText(line),
        }
    } else {
        CommandView::PlainText(line)
    }
}

/// The text that a command sends upstream, if it sends any.
pub open spec fn forwarded(cmd: CommandView) -> Option<Seq<char>> {
    match cmd {
        CommandView::Quit => None,
        CommandView::Clear => None,
        CommandView::Join { room, line } => Some(line),
        CommandView::ColorCmd(text) => Some(text),
        CommandView::ServerCmd(url) => None,
        CommandView::PlainText(text) => Some(text),
    }
}

/// A line is sent on as it was typed unless it is `/quit`, `/clear`, a
/// `/server` command with an address, or a `/color` command, which loses
/// its first `#`.
pub proof fn lemma_forwarded_text(line: Seq<char>)
    ensures
        match classify(line) {
            CommandView::Quit => line == "/quit"@,
            CommandView::Clear => line == "/clear"@,
            CommandView::ServerCmd(url) => second_token(line) == Some(url),
            CommandView::ColorCmd(text) => forwarded(classify(line)) == Some(
                without_first(line, '#'),
            ),
            CommandView::Join { room, line: sent } => second_token(line) == Some(room)
                && forwarded(classify(line)) == Some(line),
            CommandView::PlainText(text) => forwarded(classify(line)) == Some(line),
        },
{
}

/// Taking out the first `c` shortens a line by one character and leaves all
/// the others in place; a line without `c` stays as it is.
pub proof fn lemma_without_first(s: Seq<char>, c: char)
    ensures
        !s.contains(c) ==> without_first(s, c) == s,
        s.contains(c) ==> {
            let i = position(s, c, 0);
            &&& 0 <= i < s.len()
            &&& s[i] == c
            &&& forall|j: int| 0 <= j < i ==> s[j] != c
            &&& without_first(s, c).len() == s.len() - 1
            &&& forall|j: int| 0 <= j < i ==> #[trigger] without_first(s, c)[j] == s[j]
            &&& forall|j: int|
                i <= j < s.len() - 1 ==> #[trigger] without_first(s, c)[j] == s[j + 1]
        },
{
    lemma_position(s, c, 0);
    let i = position(s, c, 0);
    if s.contains(c) {
        let k = choose|k: int| 0 <= k < s.len() && s[k] == c;
        if i >= s.len() {
            assert(s[k] != c);
        }
    } else {
        if i < s.len() {
            assert(s.contains(s[i]));
        }
    }
}

/// The second token of `line`, whose characters are `chars`.
fn second_token_of(line: &str, chars: &[char]) -> (t: Option<String>)
    requires
        chars@ == line@,
    ensures
        match t {
            Some(s) => second_token(line@) == Some(s@),
            None => second_token(line@) is None,
        },
{
    let first = skip_spaces(chars, 0);
    let gap = skip_token(chars, first);
    let start = skip_spaces(chars, gap);
    if start < chars.len() {
        let end = skip_token(chars, start);
        Some(line.substring_char(start, end).to_owned())
    } else {
        None
    }
}

/// `line`, whose characters are `chars`, without its first `c`.
fn strip_first(line: String, chars: &[char], c: char) -> (r: String)
    requires
        chars@ == line@,
    ensures
        r@ == without_first(line@, c),
{
    let at = find(chars, c);
    if at < chars.len() {
        let head = line.as_str().substring_char(0, at).to_owned();
        head.concat(line.as_str().substring_char(at + 1, chars.len()))
    } else {
        line
    }
}

/// Classifies input lines.
pub struct CommandParser;

impl CommandParser {
    /// The command that `line` stands for.
    pub fn parse(line: String) -> (cmd: Command)
        ensures
            cmd@ == classify(line@),
    {
        let chars = chars_of(line.as_str());
        if same(chars.as_slice(), chars_of("/quit").as_slice()) {
            Command::Quit
        } else if same(chars.as_slice(), chars_of("/clear").as_slice()) {
            Command::Clear
        } else if begins_with(chars.as_slice(), chars_of("/join ").as_slice()) {
            match second_token_of(line.as_str(), chars.as_slice()) {
                Some(room) => Command::Join { room, line },
                None => Command::PlainText(line),
            }
        } else if begins_with(chars.as_slice(), chars_of("/color ").as_slice()) {
            Command::ColorCmd(strip_first(line, chars.as_slice(), '#'))
        } else if begins_with(chars.as_slice(), chars_of("/server ").as_slice()) {
            match second_token_of(line.as_str(), chars.as_slice()) {
                Some(url) => Command::ServerCmd(url),
                None => Command::PlainText(line),
            }
        } else {
            Command::PlainText(line)
        }
    }
}

} // verus!
