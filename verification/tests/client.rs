use dirstack::client::{check_path, get_args, request_line, ClientError};
use dirstack::codec::{decode, Request};
use dirstack::command::{Cmd, CmdError, Expression};

fn args(words: &[&str]) -> Vec<String> {
    words.iter().map(|w| w.to_string()).collect()
}

fn expr(cmd: Cmd, session_id: &str, path: &str) -> Expression {
    Expression { cmd, session_id: session_id.to_string(), path: path.to_string() }
}

#[test]
fn get_args_without_path() {
    assert_eq!(get_args(&args(&["prog", "popd", "sess"])), Ok(expr(Cmd::Pop, "sess", "")));
    assert_eq!(get_args(&args(&["prog", "dirs", "sess"])), Ok(expr(Cmd::Dirs, "sess", "")));
}

#[test]
fn get_args_with_path() {
    assert_eq!(
        get_args(&args(&["prog", "pushd", "/tmp", "sess"])),
        Ok(expr(Cmd::Push, "sess", "/tmp"))
    );
}

#[test]
fn get_args_with_more_words_reads_the_third_as_session() {
    assert_eq!(
        get_args(&args(&["prog", "peekd", "a", "b", "c"])),
        Ok(expr(Cmd::Peek, "a", ""))
    );
}

#[test]
fn get_args_refuses_an_unknown_spelling() {
    assert_eq!(get_args(&args(&["prog", "shove", "sess"])), Err(CmdError::InvalidExpression));
}

#[test]
fn check_path_rules() {
    assert_eq!(check_path(&expr(Cmd::Push, "s", "/tmp"), true), Ok(()));
    assert_eq!(check_path(&expr(Cmd::Push, "s", ""), false), Err(ClientError::PathRequired));
    assert_eq!(check_path(&expr(Cmd::Pop, "s", "/tmp"), true), Err(ClientError::PathNotAccepted));
    assert_eq!(check_path(&expr(Cmd::Dirs, "s", ""), false), Ok(()));
    assert_eq!(check_path(&expr(Cmd::Peek, "s", ""), false), Ok(()));
}

#[test]
fn request_line_of_a_push() {
    assert_eq!(request_line(&expr(Cmd::Push, "sess", "x"), "/home/x"), "\x01 sess /home/x");
}

#[test]
fn request_line_of_the_others_has_no_path() {
    assert_eq!(request_line(&expr(Cmd::Pop, "sess", ""), ""), "\x02 sess");
    assert_eq!(request_line(&expr(Cmd::Peek, "sess", ""), "/ignored"), "\x03 sess");
    assert_eq!(request_line(&expr(Cmd::Dirs, "sess", ""), ""), "\x04 sess");
}

#[test]
fn request_line_decodes_to_the_request() {
    let line = request_line(&expr(Cmd::Push, "sess", "x"), "/home/x");
    assert_eq!(
        decode(&line),
        Ok(Request {
            cmd: Cmd::Push,
            session: "sess".to_string(),
            path: Some("/home/x".to_string()),
        })
    );
    let line = request_line(&expr(Cmd::Dirs, "sess", ""), "");
    assert_eq!(
        decode(&line),
        Ok(Request { cmd: Cmd::Dirs, session: "sess".to_string(), path: None })
    );
}

#[test]
fn request_line_without_path_ends_with_the_session() {
    for cmd in [Cmd::Pop, Cmd::Peek, Cmd::Dirs] {
        let line = request_line(&expr(cmd, "s1", ""), "");
        assert!(line.ends_with("s1"));
        assert_eq!(line.chars().count(), 4);
        assert_eq!(decode(&line), Ok(Request { cmd, session: "s1".to_string(), path: None }));
    }
}
