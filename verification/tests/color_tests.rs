use chat_session::color::{decode_channel, decode_color, Rgb, BRIGHT};

#[test]
fn decodes_six_hex_digits() {
    assert_eq!(decode_color("ff00ff"), Rgb { r: 255, g: 0, b: 255 });
    assert_eq!(decode_color("00FF00"), Rgb { r: 0, g: 255, b: 0 });
    assert_eq!(decode_color("1a2B3c"), Rgb { r: 0x1a, g: 0x2b, b: 0x3c });
    assert_eq!(decode_color("000000"), Rgb { r: 0, g: 0, b: 0 });
}

#[test]
fn invalid_channel_is_bright_not_dark() {
    assert_eq!(decode_color("zz0000"), Rgb { r: 255, g: 0, b: 0 });
    assert_eq!(decode_color("00zz00"), Rgb { r: 0, g: 255, b: 0 });
    assert_eq!(decode_color("0000g0"), Rgb { r: 0, g: 0, b: 255 });
    assert_eq!(decode_color("      "), Rgb { r: 255, g: 255, b: 255 });
}

#[test]
fn other_lengths_are_white() {
    assert_eq!(decode_color("abc"), Rgb { r: 255, g: 255, b: 255 });
    assert_eq!(decode_color(""), Rgb { r: 255, g: 255, b: 255 });
    assert_eq!(decode_color("ff00ff0"), Rgb { r: 255, g: 255, b: 255 });
    assert_eq!(decode_color("#ff00ff"), Rgb { r: 255, g: 255, b: 255 });
    assert_eq!(BRIGHT, 255);
}

#[test]
fn plus_sign_stands_for_a_leading_digit() {
    assert_eq!(decode_color("+f+0+a"), Rgb { r: 15, g: 0, b: 10 });
    assert_eq!(decode_color("-f0000"), Rgb { r: 255, g: 0, b: 0 });
    assert_eq!(decode_color("f+0000"), Rgb { r: 255, g: 0, b: 0 });
    assert_eq!(decode_color("++0000"), Rgb { r: 255, g: 0, b: 0 });
}

#[test]
fn length_is_counted_in_bytes() {
    // five characters in six bytes: the first channel does not parse
    assert_eq!(decode_color("\u{e9}abcd"), Rgb { r: 255, g: 0xab, b: 0xcd });
    // six characters in seven bytes
    assert_eq!(decode_color("\u{e9}abcde"), Rgb { r: 255, g: 255, b: 255 });
    // a character split between two channels spoils both
    assert_eq!(decode_color("a\u{e9}bcd"), Rgb { r: 255, g: 255, b: 0xcd });
    assert_eq!(decode_color("\u{e9}\u{e9}\u{e9}"), Rgb { r: 255, g: 255, b: 255 });
}

#[test]
fn channel_agrees_with_base_16_parsing_of_every_ascii_pair() {
    for hi in 0u8..128 {
        for lo in 0u8..128 {
            let bytes = [hi, lo];
            let text = std::str::from_utf8(&bytes).unwrap();
            let expected = u8::from_str_radix(text, 16).unwrap_or(255);
            assert_eq!(decode_channel(hi, lo), expected, "{:?}", text);
        }
    }
}

#[test]
fn channel_with_a_byte_outside_ascii_is_bright() {
    for hi in 128u8..=255 {
        assert_eq!(decode_channel(hi, b'0'), 255);
        assert_eq!(decode_channel(b'0', hi), 255);
        assert_eq!(decode_channel(hi, hi), 255);
    }
}

#[test]
fn channel_values() {
    assert_eq!(decode_channel(b'0', b'0'), 0);
    assert_eq!(decode_channel(b'7', b'f'), 127);
    assert_eq!(decode_channel(b'F', b'E'), 254);
    assert_eq!(decode_channel(b'a', b'9'), 169);
    assert_eq!(decode_channel(b'+', b'9'), 9);
    assert_eq!(decode_channel(b'g', b'9'), 255);
}
