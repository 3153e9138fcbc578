//! The answer to the question which relay to connect to.

use crate::text::{
    chars_of, cut_end, is_space, lemma_token_start, lemma_trim_end, same, skip_spaces, trimmed,
};
use vstd::prelude::*;

verus! {

/// The address that is used where the user names none.
pub const DEFAULT_URL: &'static str = "ws://127.0.0.1:9001";

/// What the user chose, as plain values.
pub enum StartupView {
    Quit,
    Connect(Seq<char>),
}

/// What the user chose.
#[derive(Debug, PartialEq, Eq)]
pub enum Startup {
    /// To leave before any connection is opened.
    Quit,
    /// To connect to this address.
    Connect(String),
}

impl View for Startup {
    type V = StartupView;

    open spec fn view(&self) -> StartupView {
        match self {
            Startup::Quit => StartupView::Quit,
            Startup::Connect(url) => StartupView::Connect(url@),
        }
    }
}

/// What an answer means, white space at its ends aside: `q`, in either case,
/// is to leave; no answer is the default address; anything else is the
/// address.
pub open spec fn startup_choice(answer: Seq<char>) -> StartupView {
    let text = trimmed(answer);
    if text == "q"@ || text == "Q"@ {
        StartupView::Quit
    } else if text.len() == 0 {
        StartupView::Connect(DEFAULT_URL@)
    } else {
        StartupView::Connect(text)
    }
}

/// Reads the user's answer.
pub fn read_answer(answer: &str) -> (choice: Startup)
    ensures
        choice@ == startup_choice(answer@),
{
    let chars = chars_of(answer);
    let start = skip_spaces(chars.as_slice(), 0);
    if start >= chars.len() {
        proof {
            reveal_strlit("q");
            reveal_strlit("Q");
            assert(trimmed(answer@).len() == 0);
        }
        return Startup::Connect(DEFAULT_URL.to_owned());
    }
    let end = cut_end(chars.as_slice(), chars.len());
    proof {
        lemma_token_start(answer@, 0);
        lemma_trim_end(answer@, answer@.len() as int);
        if end <= start {
            assert(is_space(answer@[start as int]));
        }
    }
    let text = answer.substring_char(start, end);
    let text_chars = chars_of(text);
    if same(text_chars.as_slice(), chars_of("q").as_slice()) || same(
        text_chars.as_slice(),
        chars_of("Q").as_slice(),
    ) {
        Startup::Quit
    } else {
        Startup::Connect(text.to_owned())
    }
}

} // verus!
