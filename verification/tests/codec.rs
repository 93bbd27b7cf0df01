use dirstack::codec::{chars_of, decode, is_space, token_spans, Request, RequestError};
use dirstack::command::Cmd;

fn words(s: &str) -> Vec<String> {
    let chars = chars_of(s);
    token_spans(&chars)
        .iter()
        .map(|&(a, b)| chars[a..b].iter().collect::<String>())
        .collect()
}

#[test]
fn chars_of_keeps_every_character() {
    assert_eq!(chars_of(""), Vec::<char>::new());
    assert_eq!(chars_of("a/é\u{3000}"), vec!['a', '/', 'é', '\u{3000}']);
}

#[test]
fn is_space_is_unicode_white_space() {
    for code in 0u32..=0x10FFFF {
        if let Some(c) = char::from_u32(code) {
            assert_eq!(is_space(c), c.is_whitespace(), "U+{:04X}", code);
        }
    }
}

#[test]
fn token_spans_of_a_plain_request() {
    let chars = chars_of("\x01 sess /tmp/x");
    assert_eq!(token_spans(&chars), vec![(0, 1), (2, 6), (7, 13)]);
}

#[test]
fn tokens_are_the_runs_between_white_space() {
    for s in [
        "",
        " ",
        "a",
        " a",
        "a ",
        "a b",
        "  a \t b\n\nc  ",
        "\x01 s /p",
        "ab\u{a0}cd\u{2003}ef",
        "é è\u{3000}ê",
        "\r\n",
    ] {
        let expected: Vec<String> = s.split_whitespace().map(|w| w.to_string()).collect();
        assert_eq!(words(s), expected, "{:?}", s);
    }
}

#[test]
fn decode_push_with_path() {
    assert_eq!(
        decode("\x01 sess /tmp/x"),
        Ok(Request {
            cmd: Cmd::Push,
            session: "sess".to_string(),
            path: Some("/tmp/x".to_string()),
        })
    );
}

#[test]
fn decode_two_tokens() {
    assert_eq!(
        decode("\x02 sess"),
        Ok(Request { cmd: Cmd::Pop, session: "sess".to_string(), path: None })
    );
    assert_eq!(
        decode("\x03 sess "),
        Ok(Request { cmd: Cmd::Peek, session: "sess".to_string(), path: None })
    );
    assert_eq!(
        decode("\x04\tsess\n"),
        Ok(Request { cmd: Cmd::Dirs, session: "sess".to_string(), path: None })
    );
}

#[test]
fn decode_accepts_a_push_without_path() {
    assert_eq!(
        decode("\x01 sess"),
        Ok(Request { cmd: Cmd::Push, session: "sess".to_string(), path: None })
    );
}

#[test]
fn decode_drops_the_path_of_other_commands() {
    assert_eq!(
        decode("\x02 sess /tmp"),
        Ok(Request { cmd: Cmd::Pop, session: "sess".to_string(), path: None })
    );
}

#[test]
fn decode_keeps_characters_beyond_ascii() {
    assert_eq!(
        decode("\x01 séß /tmp/ü"),
        Ok(Request {
            cmd: Cmd::Push,
            session: "séß".to_string(),
            path: Some("/tmp/ü".to_string()),
        })
    );
}

#[test]
fn decode_refuses_wrong_token_counts() {
    assert_eq!(decode(""), Err(RequestError::Malformed));
    assert_eq!(decode("   "), Err(RequestError::Malformed));
    assert_eq!(decode("\x01"), Err(RequestError::Malformed));
    assert_eq!(decode("\x01 s /a /b"), Err(RequestError::Malformed));
}

#[test]
fn decode_refuses_a_long_command_token() {
    assert_eq!(decode("\x01\x01 s /a"), Err(RequestError::Malformed));
    assert_eq!(decode("pushd s /a"), Err(RequestError::Malformed));
    assert_eq!(decode("ab s"), Err(RequestError::Malformed));
}

#[test]
fn decode_refuses_a_path_without_separator() {
    assert_eq!(decode("\x01 s path"), Err(RequestError::Malformed));
    assert_eq!(decode("\x02 s path"), Err(RequestError::Malformed));
}

#[test]
fn decode_refuses_unknown_codes() {
    assert_eq!(decode("x sess"), Err(RequestError::UnknownCommand));
    assert_eq!(decode("\x05 sess /a"), Err(RequestError::UnknownCommand));
    assert_eq!(decode("é sess"), Err(RequestError::UnknownCommand));
}

#[test]
fn structure_is_checked_before_the_code() {
    assert_eq!(decode("x sess nopath"), Err(RequestError::Malformed));
}
