use dirstack::codec::{Request, RequestError};
use dirstack::command::Cmd;
use dirstack::dispatch::{execute, handle_request, join};
use dirstack::store::{dirs, AppState};

#[test]
fn join_puts_single_spaces_between() {
    assert_eq!(join(&vec![]), "");
    assert_eq!(join(&vec!["a".to_string()]), "a");
    assert_eq!(join(&vec!["a".to_string(), "b".to_string(), "c".to_string()]), "a b c");
    assert_eq!(join(&vec!["".to_string(), "".to_string()]), " ");
}

#[test]
fn requests_drive_a_session() {
    let mut state = AppState::new();
    assert_eq!(handle_request(&mut state, "\x01 test /path"), Ok("/path".to_string()));
    assert_eq!(handle_request(&mut state, "\x01 test /last_path"), Ok("/last_path".to_string()));
    assert_eq!(handle_request(&mut state, "\x04 test"), Ok("/last_path /path".to_string()));
    assert_eq!(handle_request(&mut state, "\x03 test"), Ok("/last_path".to_string()));
    assert_eq!(handle_request(&mut state, "\x02 test"), Ok("/last_path".to_string()));
    assert_eq!(handle_request(&mut state, "\x04 test"), Ok("/path".to_string()));
    assert_eq!(handle_request(&mut state, "\x02 test"), Ok("/path".to_string()));
    assert_eq!(handle_request(&mut state, "\x02 test"), Ok("".to_string()));
    assert_eq!(handle_request(&mut state, "\x04 test"), Ok("".to_string()));
}

#[test]
fn absent_session_gets_empty_replies() {
    let mut state = AppState::new();
    assert_eq!(handle_request(&mut state, "\x02 nobody"), Ok("".to_string()));
    assert_eq!(handle_request(&mut state, "\x03 nobody"), Ok("".to_string()));
    assert_eq!(handle_request(&mut state, "\x04 nobody"), Ok("".to_string()));
    assert!(state.get("nobody").is_none());
}

#[test]
fn long_command_token_gets_no_response() {
    let mut state = AppState::new();
    assert_eq!(handle_request(&mut state, "\x01\x01 s /p"), Err(RequestError::Malformed));
    assert!(state.get("s").is_none());
}

#[test]
fn push_path_without_separator_gets_no_response() {
    let mut state = AppState::new();
    assert_eq!(handle_request(&mut state, "\x01 s path"), Err(RequestError::Malformed));
    assert!(state.get("s").is_none());
}

#[test]
fn unknown_command_gets_no_response() {
    let mut state = AppState::new();
    assert_eq!(handle_request(&mut state, "9 s /p"), Err(RequestError::UnknownCommand));
    assert!(state.get("s").is_none());
}

#[test]
fn push_without_path_gets_no_response() {
    let mut state = AppState::new();
    assert_eq!(handle_request(&mut state, "\x01 s"), Err(RequestError::MissingPath));
    assert!(state.get("s").is_none());
}

#[test]
fn execute_follows_the_command() {
    let mut state = AppState::new();
    let push = Request { cmd: Cmd::Push, session: "s".to_string(), path: Some("/a".to_string()) };
    assert_eq!(execute(&mut state, &push), Ok("/a".to_string()));
    let bare = Request { cmd: Cmd::Push, session: "s".to_string(), path: None };
    assert_eq!(execute(&mut state, &bare), Err(RequestError::MissingPath));
    assert_eq!(dirs(&state, "s"), vec!["/a"]);
    let peek = Request { cmd: Cmd::Peek, session: "s".to_string(), path: None };
    assert_eq!(execute(&mut state, &peek), Ok("/a".to_string()));
    let list = Request { cmd: Cmd::Dirs, session: "s".to_string(), path: None };
    assert_eq!(execute(&mut state, &list), Ok("/a".to_string()));
    let pop = Request { cmd: Cmd::Pop, session: "s".to_string(), path: None };
    assert_eq!(execute(&mut state, &pop), Ok("/a".to_string()));
    assert_eq!(execute(&mut state, &pop), Ok("".to_string()));
}
