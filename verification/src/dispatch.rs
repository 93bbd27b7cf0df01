//! Carrying a request out on the store, and the reply it gets.

use vstd::prelude::*;
use vstd::string::StringExecFns;
use crate::codec::{decode, decoded, tokens, Decoded, Request, RequestError};
use crate::command::Cmd;
use crate::store::{
    dirs, listing, peekd, popd, popped, pushd, pushed, stack_of, texts, top_of, AppState, Stacks,
};

verus! {

/// `parts` in one line, with a single space between neighbours.
pub open spec fn joined(parts: Seq<Seq<char>>) -> Seq<char>
    decreases parts.len(),
{
    if parts.len() == 0 {
        Seq::empty()
    } else if parts.len() == 1 {
        parts[0]
    } else {
        joined(parts.drop_last()) + seq![' '] + parts.last()
    }
}

/// Joins `parts` with single spaces.
pub fn join(parts: &Vec<String>) -> (r: String)
    ensures
        r@ == joined(texts(parts@)),
{
    let mut r = String::new();
    let mut i: usize = 0;
    while i < parts.len()
        invariant
            i <= parts@.len(),
            r@ == joined(texts(parts@).take(i as int)),
        decreases parts@.len() - i,
    {
        let ghost grown = texts(parts@).take(i + 1);
        proof {
            reveal_strlit(" ");
            assert(grown.drop_last() =~= texts(parts@).take(i as int));
            assert(grown.last() == parts@[i as int]@);
        }
        if i > 0 {
            r.append(" ");
            assert(r@ =~= joined(grown.drop_last()) + seq![' ']);
        } else {
            assert(r@ + parts@[i as int]@ =~= parts@[i as int]@);
        }
        r.append(parts[i].as_str());
        i += 1;
    }
    assert(texts(parts@).take(i as int) =~= texts(parts@));
    r
}

/// The store after `req` was carried out on `m`, and the reply: the pushed
/// path for a push, the path that was on top for a pop or a peek, the
/// listing in one line for a list. A push without a path is refused.
pub open spec fn outcome(m: Stacks, req: Decoded) -> (Stacks, Result<Seq<char>, RequestError>) {
    match req.cmd {
        Cmd::Push => match req.path {
            Some(path) => (pushed(m, req.session, path), Ok(path)),
            None => (m, Err(RequestError::MissingPath)),
        },
        Cmd::Pop => (popped(m, req.session), Ok(top_of(m, req.session))),
        Cmd::Peek => (m, Ok(top_of(m, req.session))),
        Cmd::Dirs => (m, Ok(joined(listing(m, req.session)))),
    }
}

/// The store after the request in `buf` was handled on `m`, and the reply.
/// A request that does not decode leaves the store as it is.
pub open spec fn answer(m: Stacks, buf: Seq<char>) -> (Stacks, Result<Seq<char>, RequestError>) {
    match decoded(buf) {
        Ok(req) => outcome(m, req),
        Err(e) => (m, Err(e)),
    }
}

/// A reply as a mathematical value.
pub open spec fn reply_of(r: Result<String, RequestError>) -> Result<Seq<char>, RequestError> {
    match r {
        Ok(s) => Ok(s@),
        Err(e) => Err(e),
    }
}

/// Carries a decoded request out on the store.
pub fn execute(state: &mut AppState, req: &Request) -> (r: Result<String, RequestError>)
    requires
        old(state).wf(),
    ensures
        final(state).wf(),
        final(state)@ == outcome(old(state)@, req@).0,
        reply_of(r) == outcome(old(state)@, req@).1,
{
    match req.cmd {
        Cmd::Push => match &req.path {
            Some(path) => Ok(pushd(state, req.session.as_str(), path.as_str())),
            None => Err(RequestError::MissingPath),
        },
        Cmd::Pop => Ok(popd(state, req.session.as_str())),
        Cmd::Peek => Ok(peekd(state, req.session.as_str())),
        Cmd::Dirs => {
            let entries = dirs(state, req.session.as_str());
            Ok(join(&entries))
        },
    }
}

/// Handles one request buffer: decodes it, carries it out and returns the
/// response to write back, or the reason why nothing is written.
pub fn handle_request(state: &mut AppState, buf: &str) -> (r: Result<String, RequestError>)
    requires
        old(state).wf(),
    ensures
        final(state).wf(),
        final(state)@ == answer(old(state)@, buf@).0,
        reply_of(r) == answer(old(state)@, buf@).1,
{
    match decode(buf) {
        Ok(req) => execute(state, &req),
        Err(e) => Err(e),
    }
}

/// A request that gets no response changes nothing.
pub proof fn refused_request_changes_nothing(m: Stacks, buf: Seq<char>)
    requires
        answer(m, buf).1 is Err,
    ensures
        answer(m, buf).0 == m,
{
}

/// A request touches the session it names and no other.
pub proof fn request_touches_one_session(m: Stacks, req: Decoded, other: Seq<char>)
    requires
        other != req.session,
    ensures
        outcome(m, req).0.dom().contains(other) == m.dom().contains(other),
        stack_of(outcome(m, req).0, other) == stack_of(m, other),
{
}

/// Only a push makes a session, and nothing takes one away.
pub proof fn only_a_push_makes_a_session(m: Stacks, req: Decoded)
    ensures
        outcome(m, req).0.dom() == if req.cmd == Cmd::Push && req.path is Some {
            m.dom().insert(req.session)
        } else {
            m.dom()
        },
{
    assert(outcome(m, req).0.dom() =~= if req.cmd == Cmd::Push && req.path is Some {
        m.dom().insert(req.session)
    } else {
        m.dom()
    });
}

/// A peek and a list leave the store as it is.
pub proof fn looking_changes_nothing(m: Stacks, req: Decoded)
    requires
        req.cmd == Cmd::Peek || req.cmd == Cmd::Dirs,
    ensures
        outcome(m, req).0 == m,
        outcome(m, req).1 is Ok,
{
}

/// The command token has more than one character, or there is a third token
/// without a `/`.
pub open spec fn tokens_shape_is_wrong(buf: Seq<char>) -> bool {
    let t = tokens(buf);
    ||| t.len() >= 1 && t[0].len() > 1
    ||| t.len() == 3 && !t[2].contains('/')
}

/// A request whose command token is longer than one character gets no
/// response, and neither does one whose third token lacks a `/`.
pub proof fn ill_shaped_request_is_refused(m: Stacks, buf: Seq<char>)
    requires
        tokens_shape_is_wrong(buf),
    ensures
        answer(m, buf) == (m, Err::<Seq<char>, RequestError>(RequestError::Malformed)),
{
}

} // verus!
