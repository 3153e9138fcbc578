use chat_session::startup::{read_answer, Startup, DEFAULT_URL};

fn connect(url: &str) -> Startup {
    Startup::Connect(url.to_string())
}

#[test]
fn no_answer_is_the_default_address() {
    assert_eq!(DEFAULT_URL, "ws://127.0.0.1:9001");
    assert_eq!(read_answer(""), connect("ws://127.0.0.1:9001"));
    assert_eq!(read_answer("\n"), connect("ws://127.0.0.1:9001"));
    assert_eq!(read_answer("  \t\r\n"), connect("ws://127.0.0.1:9001"));
}

#[test]
fn q_in_either_case_leaves() {
    assert_eq!(read_answer("q"), Startup::Quit);
    assert_eq!(read_answer("Q\n"), Startup::Quit);
    assert_eq!(read_answer("  q \n"), Startup::Quit);
}

#[test]
fn anything_else_is_the_address_without_the_white_space_around_it() {
    assert_eq!(read_answer("ws://example.org:9001\n"), connect("ws://example.org:9001"));
    assert_eq!(read_answer("  ws://a b \r\n"), connect("ws://a b"));
    assert_eq!(read_answer("qq"), connect("qq"));
    assert_eq!(read_answer("q q"), connect("q q"));
    assert_eq!(read_answer("quit"), connect("quit"));
    assert_eq!(read_answer("\u{3000}caf\u{e9}\u{a0}"), connect("caf\u{e9}"));
}

#[test]
fn agrees_with_trimming_by_std() {
    for answer in ["", " ", "x", " x", "x ", " x y ", "\tq\n", "Q", "\u{2003}a\u{2003}b\u{2003}", "\n\n"] {
        let text = answer.trim();
        let expected = if text.eq_ignore_ascii_case("q") {
            Startup::Quit
        } else if text.is_empty() {
            connect(DEFAULT_URL)
        } else {
            connect(text)
        };
        assert_eq!(read_answer(answer), expected, "{:?}", answer);
    }
}
