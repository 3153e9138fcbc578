use chat_session::command::{Command, CommandParser};

fn parse(line: &str) -> Command {
    CommandParser::parse(line.to_string())
}

fn plain(line: &str) -> Command {
    Command::PlainText(line.to_string())
}

/// The command grammar, written with the string functions of std.
fn by_std(line: &str) -> Command {
    if line == "/quit" {
        Command::Quit
    } else if line == "/clear" {
        Command::Clear
    } else if line.starts_with("/join ") {
        match line.split_whitespace().nth(1) {
            Some(room) => Command::Join { room: room.to_string(), line: line.to_string() },
            None => plain(line),
        }
    } else if line.starts_with("/color ") {
        let mut text = line.to_string();
        if let Some(index) = text.find('#') {
            text.remove(index);
        }
        Command::ColorCmd(text)
    } else if line.starts_with("/server ") {
        match line.split_whitespace().nth(1) {
            Some(url) => Command::ServerCmd(url.to_string()),
            None => plain(line),
        }
    } else {
        plain(line)
    }
}

#[test]
fn quit_and_clear() {
    assert_eq!(parse("/quit"), Command::Quit);
    assert_eq!(parse("/clear"), Command::Clear);
}

#[test]
fn quit_and_clear_must_be_the_whole_line() {
    assert_eq!(parse("/quit "), plain("/quit "));
    assert_eq!(parse(" /quit"), plain(" /quit"));
    assert_eq!(parse("/quit now"), plain("/quit now"));
    assert_eq!(parse("/clear all"), plain("/clear all"));
    assert_eq!(parse("/QUIT"), plain("/QUIT"));
}

#[test]
fn join_carries_the_room_and_the_line() {
    assert_eq!(
        parse("/join room42"),
        Command::Join { room: "room42".to_string(), line: "/join room42".to_string() }
    );
    assert_eq!(
        parse("/join   lobby  and more "),
        Command::Join { room: "lobby".to_string(), line: "/join   lobby  and more ".to_string() }
    );
    assert_eq!(
        parse("/join \tcaf\u{e9}\u{a0}x"),
        Command::Join { room: "caf\u{e9}".to_string(), line: "/join \tcaf\u{e9}\u{a0}x".to_string() }
    );
}

#[test]
fn join_without_a_room_is_chat_text() {
    assert_eq!(parse("/join "), plain("/join "));
    assert_eq!(parse("/join    "), plain("/join    "));
    assert_eq!(parse("/join"), plain("/join"));
    assert_eq!(parse("/joinroom x"), plain("/joinroom x"));
}

#[test]
fn color_loses_its_first_hash() {
    assert_eq!(parse("/color #ff00ff"), Command::ColorCmd("/color ff00ff".to_string()));
    assert_eq!(parse("/color ff00ff"), Command::ColorCmd("/color ff00ff".to_string()));
    assert_eq!(parse("/color ##ff#00"), Command::ColorCmd("/color #ff#00".to_string()));
    assert_eq!(parse("/color ff00ff#"), Command::ColorCmd("/color ff00ff".to_string()));
    assert_eq!(parse("/color "), Command::ColorCmd("/color ".to_string()));
    assert_eq!(parse("/color #"), Command::ColorCmd("/color ".to_string()));
    assert_eq!(parse("/color \u{e9}#\u{e9}"), Command::ColorCmd("/color \u{e9}\u{e9}".to_string()));
    assert_eq!(parse("/color"), plain("/color"));
}

#[test]
fn server_carries_the_address() {
    assert_eq!(
        parse("/server ws://example.org:9001"),
        Command::ServerCmd("ws://example.org:9001".to_string())
    );
    assert_eq!(parse("/server   ws://a  ws://b"), Command::ServerCmd("ws://a".to_string()));
}

#[test]
fn server_without_an_address_is_chat_text() {
    assert_eq!(parse("/server "), plain("/server "));
    assert_eq!(parse("/server \t "), plain("/server \t "));
    assert_eq!(parse("/server"), plain("/server"));
}

#[test]
fn anything_else_is_chat_text() {
    assert_eq!(parse("hello"), plain("hello"));
    assert_eq!(parse("  hello  "), plain("  hello  "));
    assert_eq!(parse("/unknown x"), plain("/unknown x"));
    assert_eq!(parse("#hash"), plain("#hash"));
    assert_eq!(parse(""), plain(""));
}

#[test]
fn agrees_with_std_on_many_lines() {
    let pieces = ["/join", "/color", "/server", "/quit", "/clear", " ", "  ", "\t", "#", "a", "room42", "\u{e9}", "\u{3000}", "ws://x"];
    for a in pieces {
        for b in pieces {
            for c in pieces {
                for d in ["", " ", "#", "z"] {
                    let line = format!("{}{}{}{}", a, b, c, d);
                    assert_eq!(parse(&line), by_std(&line), "{:?}", line);
                }
            }
        }
    }
}
