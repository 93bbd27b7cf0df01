//! The wire format of a request: a one-character command code, a session
//! id and, for a push, a path, separated by whitespace.

use vstd::prelude::*;
use vstd::std_specs::iter::IteratorSpec;
use crate::command::{Cmd, cmd_of_code};

verus! {

broadcast use vstd::string::group_string_axioms;

/// The characters of `s`, in order.
pub fn chars_of(s: &str) -> (r: Vec<char>)
    ensures
        r@ == s@,
{
    let mut r: Vec<char> = Vec::new();
    for c in it: s.chars()
        invariant
            it.seq() == s@,
            r@ == s@.take(it.index() as int),
    {
        r.push(c);
        assert(r@ =~= s@.take(it.index() + 1));
    }
    assert(r@ =~= s@);
    r
}

/// A character that separates tokens: one that Unicode classes as
/// White_Space.
pub open spec fn white_space(c: char) -> bool {
    ||| '\u{9}' <= c <= '\u{D}'
    ||| c == ' '
    ||| c == '\u{85}'
    ||| c == '\u{A0}'
    ||| c == '\u{1680}'
    ||| '\u{2000}' <= c <= '\u{200A}'
    ||| c == '\u{2028}'
    ||| c == '\u{2029}'
    ||| c == '\u{202F}'
    ||| c == '\u{205F}'
    ||| c == '\u{3000}'
}

/// Whether `c` separates tokens.
pub fn is_space(c: char) -> (r: bool)
    ensures
        r == white_space(c),
{
    ('\u{9}' <= c && c <= '\u{D}') || c == ' ' || c == '\u{85}' || c == '\u{A0}' || c
        == '\u{1680}' || ('\u{2000}' <= c && c <= '\u{200A}') || c == '\u{2028}' || c
        == '\u{2029}' || c == '\u{202F}' || c == '\u{205F}' || c == '\u{3000}'
}

/// The tokens of `s`: its runs of characters other than white space, in
/// order. Stated by the last character of `s`: white space adds nothing, a
/// character behind another character of a token lengthens the last token,
/// and any other character starts a token.
pub open spec fn tokens(s: Seq<char>) -> Seq<Seq<char>>
    decreases s.len(),
{
    if s.len() == 0 {
        Seq::empty()
    } else {
        let before = tokens(s.drop_last());
        let c = s.last();
        if white_space(c) {
            before
        } else if s.len() >= 2 && !white_space(s[s.len() - 2]) {
            before.drop_last().push(before.last().push(c))
        } else {
            before.push(seq![c])
        }
    }
}

/// A run of characters other than white space, with at least one character.
pub open spec fn is_word(w: Seq<char>) -> bool {
    w.len() > 0 && forall|i: int| 0 <= i < w.len() ==> !white_space(#[trigger] w[i])
}

/// Every token is a word: it is not empty and holds no white space. And a
/// text has a token exactly if it holds a character other than white space.
pub proof fn tokens_are_words(s: Seq<char>)
    ensures
        forall|k: int| 0 <= k < tokens(s).len() ==> is_word(#[trigger] tokens(s)[k]),
        s.len() > 0 && !white_space(s.last()) ==> tokens(s).len() > 0,
        tokens(s).len() == 0 <==> forall|i: int| 0 <= i < s.len() ==> white_space(#[trigger] s[i]),
    decreases s.len(),
{
    if s.len() > 0 {
        let front = s.drop_last();
        tokens_are_words(front);
        let before = tokens(front);
        let c = s.last();
        if white_space(c) {
        } else if s.len() >= 2 && !white_space(s[s.len() - 2]) {
            assert(front.last() == s[s.len() - 2]);
            let longer = before.last().push(c);
            assert(is_word(before.last()));
            assert(is_word(longer)) by {
                assert forall|i: int| 0 <= i < longer.len() implies !white_space(
                    #[trigger] longer[i],
                ) by {
                    if i < before.last().len() {
                        assert(longer[i] == before.last()[i]);
                    }
                }
            }
            assert forall|k: int| 0 <= k < tokens(s).len() implies is_word(
                #[trigger] tokens(s)[k],
            ) by {
                if k < before.len() - 1 {
                    assert(tokens(s)[k] == before[k]);
                }
            }
        } else {
            assert(is_word(seq![c]));
            assert forall|k: int| 0 <= k < tokens(s).len() implies is_word(
                #[trigger] tokens(s)[k],
            ) by {
                if k < before.len() {
                    assert(tokens(s)[k] == before[k]);
                }
            }
        }
        assert(tokens(s).len() == 0 <==> forall|i: int|
            0 <= i < s.len() ==> white_space(#[trigger] s[i])) by {
            if tokens(s).len() == 0 {
                assert forall|i: int| 0 <= i < s.len() implies white_space(#[trigger] s[i]) by {
                    if i < s.len() - 1 {
                        assert(front[i] == s[i]);
                    }
                }
            }
            if forall|i: int| 0 <= i < s.len() ==> white_space(#[trigger] s[i]) {
                assert(white_space(s[s.len() - 1]));
                assert forall|i: int| 0 <= i < front.len() implies white_space(
                    #[trigger] front[i],
                ) by {
                    assert(front[i] == s[i]);
                }
            }
        }
    }
}

/// White space at the end of a text adds no token.
pub proof fn tokens_ignore_trailing_space(s: Seq<char>, c: char)
    requires
        white_space(c),
    ensures
        tokens(s.push(c)) == tokens(s),
{
    assert(s.push(c).drop_last() =~= s);
}

/// A word behind a text that is empty or ends in white space is one more
/// token, the last.
pub proof fn tokens_take_a_word(s: Seq<char>, w: Seq<char>)
    requires
        is_word(w),
        s.len() == 0 || white_space(s.last()),
    ensures
        tokens(s + w) == tokens(s).push(w),
    decreases w.len(),
{
    let c = w.last();
    let all = s + w;
    assert(all.last() == c);
    if w.len() == 1 {
        assert(all.drop_last() =~= s);
        assert(w =~= seq![c]);
        if all.len() >= 2 {
            assert(all[all.len() - 2] == s.last());
        }
    } else {
        let front = w.drop_last();
        assert(is_word(front)) by {
            assert forall|i: int| 0 <= i < front.len() implies !white_space(#[trigger] front[i]) by {
                assert(front[i] == w[i]);
            }
        }
        tokens_take_a_word(s, front);
        assert(all.drop_last() =~= s + front);
        assert(all[all.len() - 2] == w[w.len() - 2]);
        assert(front.push(c) =~= w);
        assert(tokens(s).push(front).drop_last() =~= tokens(s));
    }
}

/// Where each token of `chars` starts and ends.
pub fn token_spans(chars: &Vec<char>) -> (spans: Vec<(usize, usize)>)
    ensures
        spans@.len() == tokens(chars@).len(),
        forall|k: int|
            0 <= k < spans@.len() ==> (#[trigger] spans@[k]).0 <= spans@[k].1 <= chars@.len()
                && chars@.subrange(spans@[k].0 as int, spans@[k].1 as int) == tokens(
                chars@,
            )[k],
{
    let mut spans: Vec<(usize, usize)> = Vec::new();
    let mut i: usize = 0;
    let mut in_token = false;
    while i < chars.len()
        invariant
            i <= chars@.len(),
            spans@.len() == tokens(chars@.take(i as int)).len(),
            forall|k: int|
                0 <= k < spans@.len() ==> (#[trigger] spans@[k]).0 <= spans@[k].1 <= i && chars@.subrange(
                    spans@[k].0 as int,
                    spans@[k].1 as int,
                ) == tokens(chars@.take(i as int))[k],
            in_token == (i > 0 && !white_space(chars@[i - 1])),
            in_token ==> spans@.len() > 0 && spans@.last().1 == i,
        decreases chars@.len() - i,
    {
        let c = chars[i];
        let ghost grown = chars@.take(i + 1);
        let ghost before = tokens(chars@.take(i as int));
        proof {
            assert(grown.drop_last() =~= chars@.take(i as int));
            assert(grown.last() == c);
        }
        if is_space(c) {
            in_token = false;
        } else if in_token {
            let last = spans.len() - 1;
            let start = spans[last].0;
            assert(chars@.subrange(start as int, i as int) == before.last());
            spans.set(last, (start, i + 1));
            proof {
                assert(grown[grown.len() - 2] == chars@[i - 1]);
                assert(chars@.subrange(start as int, i + 1) =~= before.last().push(c));
                assert(tokens(grown) == before.drop_last().push(before.last().push(c)));
            }
        } else {
            spans.push((i, i + 1));
            in_token = true;
            proof {
                assert(chars@.subrange(i as int, i + 1) =~= seq![c]);
                assert(tokens(grown) == before.push(seq![c]));
            }
        }
        i += 1;
    }
    assert(chars@.take(i as int) =~= chars@);
    spans
}

/// A request as it came over the wire.
#[derive(Clone, Debug, PartialEq, Eq)]
pub struct Request {
    pub cmd: Cmd,
    pub session: String,
    /// The path to push. A push that came without one is decoded all the
    /// same and refused when it is carried out.
    pub path: Option<String>,
}

/// A request as a mathematical value.
pub struct Decoded {
    pub cmd: Cmd,
    pub session: Seq<char>,
    pub path: Option<Seq<char>>,
}

impl View for Request {
    type V = Decoded;

    open spec fn view(&self) -> Decoded {
        Decoded {
            cmd: self.cmd,
            session: self.session@,
            path: match self.path {
                Some(p) => Some(p@),
                None => None,
            },
        }
    }
}

/// Why a request gets no response.
#[derive(Clone, Copy, Debug, PartialEq, Eq, Structural)]
pub enum RequestError {
    /// The request has the wrong number of tokens, a command token of more
    /// or less than one character, or a path token without a `/`.
    Malformed,
    /// The command token is none of the four codes.
    UnknownCommand,
    /// A push came without a path.
    MissingPath,
}

/// The structural rule: two or three tokens, the first of one character,
/// and a `/` in the third, if there is one.
pub open spec fn well_formed(t: Seq<Seq<char>>) -> bool {
    &&& (t.len() == 2 || t.len() == 3)
    &&& t[0].len() == 1
    &&& (t.len() == 3 ==> t[2].contains('/'))
}

/// What a request buffer decodes to. The path is kept for a push only.
pub open spec fn decoded(buf: Seq<char>) -> Result<Decoded, RequestError> {
    let t = tokens(buf);
    if !well_formed(t) {
        Err(RequestError::Malformed)
    } else {
        match cmd_of_code(t[0][0]) {
            None => Err(RequestError::UnknownCommand),
            Some(cmd) => Ok(
                Decoded {
                    cmd,
                    session: t[1],
                    path: if cmd == Cmd::Push && t.len() == 3 {
                        Some(t[2])
                    } else {
                        None
                    },
                },
            ),
        }
    }
}

fn has_separator(chars: &Vec<char>, from: usize, to: usize) -> (r: bool)
    requires
        from <= to <= chars@.len(),
    ensures
        r == chars@.subrange(from as int, to as int).contains('/'),
{
    let ghost part = chars@.subrange(from as int, to as int);
    let mut i: usize = from;
    while i < to
        invariant
            from <= i <= to <= chars@.len(),
            part == chars@.subrange(from as int, to as int),
            forall|k: int| 0 <= k < i - from ==> part[k] != '/',
        decreases to - i,
    {
        if chars[i] == '/' {
            assert(part[i - from] == '/');
            return true;
        }
        i += 1;
    }
    false
}

/// Decodes one request buffer.
pub fn decode(buf: &str) -> (r: Result<Request, RequestError>)
    ensures
        match r {
            Ok(req) => decoded(buf@) == Ok::<Decoded, RequestError>(req@),
            Err(e) => decoded(buf@) == Err::<Decoded, RequestError>(e),
        },
{
    let chars = chars_of(buf);
    let spans = token_spans(&chars);
    let n = spans.len();
    if n != 2 && n != 3 {
        return Err(RequestError::Malformed);
    }
    let (code_from, code_to) = spans[0];
    if code_to - code_from != 1 {
        return Err(RequestError::Malformed);
    }
    if n == 3 && !has_separator(&chars, spans[2].0, spans[2].1) {
        return Err(RequestError::Malformed);
    }
    let cmd = match Cmd::from_char(chars[code_from]) {
        Ok(cmd) => cmd,
        Err(_) => {
            return Err(RequestError::UnknownCommand);
        },
    };
    let session = buf.substring_char(spans[1].0, spans[1].1).to_owned();
    let path = if n == 3 && cmd == Cmd::Push {
        Some(buf.substring_char(spans[2].0, spans[2].1).to_owned())
    } else {
        None
    };
    Ok(Request { cmd, session, path })
}

} // verus!
