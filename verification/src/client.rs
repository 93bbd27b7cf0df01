//! The caller's side of the protocol: from a command line to the request
//! that goes over the wire.

use vstd::prelude::*;
use vstd::string::StringExecFns;
use core::str::FromStr;
use crate::codec::{
    decoded, is_word, tokens, tokens_ignore_trailing_space, tokens_take_a_word, white_space,
    Decoded, RequestError,
};
use crate::command::{
    cmd_of_code, cmd_of_spelling, is_path_free, names_are_told_apart, Cmd, CmdError, Expression,
};

verus! {

/// Why a command line is turned down before anything is sent.
#[derive(Clone, Copy, Debug, PartialEq, Eq, Structural)]
pub enum ClientError {
    /// A path came with a command that takes none.
    PathNotAccepted,
    /// A push came without a path that exists.
    PathRequired,
}

/// Reads a command line: the program's name, the command's spelling, then
/// either the session id, or a path and the session id.
pub fn get_args(args: &Vec<String>) -> (r: Result<Expression, CmdError>)
    requires
        args@.len() >= 3,
    ensures
        match cmd_of_spelling(args@[1]@) {
            Some(cmd) => r is Ok && r->Ok_0.cmd == cmd && r->Ok_0.session_id@ == (if args@.len()
                == 4 {
                args@[3]@
            } else {
                args@[2]@
            }) && r->Ok_0.path@ == (if args@.len() == 4 {
                args@[2]@
            } else {
                Seq::<char>::empty()
            }),
            None => r == Err::<Expression, CmdError>(CmdError::InvalidExpression),
        },
{
    let with_path = args.len() == 4;
    match Cmd::from_str(args[1].as_str()) {
        Ok(cmd) => Ok(
            Expression {
                cmd,
                session_id: if with_path {
                    args[3].clone()
                } else {
                    args[2].clone()
                },
                path: if with_path {
                    args[2].clone()
                } else {
                    String::new()
                },
            },
        ),
        Err(_) => Err(CmdError::InvalidExpression),
    }
}

/// A push needs a path that exists, and no other command takes one.
/// `path_provided` says whether the expression's path is there and exists.
pub fn check_path(expr: &Expression, path_provided: bool) -> (r: Result<(), ClientError>)
    ensures
        r == (if expr.cmd != Cmd::Push && path_provided {
            Err::<(), ClientError>(ClientError::PathNotAccepted)
        } else if expr.cmd == Cmd::Push && !path_provided {
            Err::<(), ClientError>(ClientError::PathRequired)
        } else {
            Ok::<(), ClientError>(())
        }),
{
    let free = is_path_free(&expr.cmd.to_string());
    proof {
        names_are_told_apart(expr.cmd);
    }
    if free && path_provided {
        Err(ClientError::PathNotAccepted)
    } else if !free && !path_provided {
        Err(ClientError::PathRequired)
    } else {
        Ok(())
    }
}

/// The request line: the command's code, a space and the session id, and
/// where there is a path, a further space and the path.
pub open spec fn line_of(cmd: Cmd, session_id: Seq<char>, path: Option<Seq<char>>) -> Seq<char> {
    match path {
        Some(p) => seq![cmd.code(), ' '] + session_id + seq![' '] + p,
        None => seq![cmd.code(), ' '] + session_id,
    }
}

fn code_text(cmd: Cmd) -> (r: &'static str)
    ensures
        r@ == seq![cmd.code()],
{
    proof {
        reveal_strlit("\x01");
        reveal_strlit("\x02");
        reveal_strlit("\x03");
        reveal_strlit("\x04");
    }
    let r = match cmd {
        Cmd::Push => "\x01",
        Cmd::Pop => "\x02",
        Cmd::Peek => "\x03",
        Cmd::Dirs => "\x04",
    };
    assert(r@ =~= seq![cmd.code()]);
    r
}

/// The request that stands for `expr` on the wire. `absolute_path` is the
/// expression's path in absolute form; it is sent with a push only, and the
/// line of any other command ends with the session id.
pub fn request_line(expr: &Expression, absolute_path: &str) -> (r: String)
    ensures
        r@ == line_of(
            expr.cmd,
            expr.session_id@,
            if expr.cmd == Cmd::Push {
                Some(absolute_path@)
            } else {
                None
            },
        ),
        expr.cmd != Cmd::Push ==> r@ == seq![expr.cmd.code(), ' '] + expr.session_id@,
        expr.cmd == Cmd::Push ==> r@ == seq![expr.cmd.code(), ' '] + expr.session_id@ + seq![' ']
            + absolute_path@,
{
    proof {
        reveal_strlit(" ");
    }
    let mut r = String::new();
    r.append(code_text(expr.cmd));
    r.append(" ");
    assert(r@ =~= seq![expr.cmd.code(), ' ']);
    r.append(expr.session_id.as_str());
    if expr.cmd == Cmd::Push {
        r.append(" ");
        r.append(absolute_path);
    }
    r
}

/// The daemon reads a request line as the client meant it: the line of a
/// command, a session id without white space and, if there is one, a path
/// without white space that holds a `/` decodes to that command and session
/// id, and for a push to that path. A line without a path decodes too, for
/// a push as for the others.
pub proof fn request_line_decodes(cmd: Cmd, session_id: Seq<char>, path: Option<Seq<char>>)
    requires
        is_word(session_id),
        path is Some ==> is_word(path->0) && path->0.contains('/'),
    ensures
        decoded(line_of(cmd, session_id, path)) == Ok::<Decoded, RequestError>(
            Decoded {
                cmd,
                session: session_id,
                path: if cmd == Cmd::Push {
                    path
                } else {
                    None
                },
            },
        ),
{
    let code = seq![cmd.code()];
    let none = Seq::<char>::empty();
    assert(is_word(code));
    tokens_take_a_word(none, code);
    assert(none + code =~= code);
    assert(tokens(none) =~= Seq::<Seq<char>>::empty());
    tokens_ignore_trailing_space(code, ' ');
    let head = seq![cmd.code(), ' '];
    assert(code.push(' ') =~= head);
    tokens_take_a_word(head, session_id);
    let named = head + session_id;
    assert(tokens(named) =~= seq![code, session_id]);
    match path {
        Some(p) => {
            tokens_ignore_trailing_space(named, ' ');
            let open = named + seq![' '];
            assert(named.push(' ') =~= open);
            tokens_take_a_word(open, p);
            assert(tokens(line_of(cmd, session_id, path)) =~= seq![code, session_id, p]);
        },
        None => {},
    }
    assert(cmd_of_code(cmd.code()) == Some(cmd));
}

} // verus!
