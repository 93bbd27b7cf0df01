//! The session store: one stack of paths per session id.
//!
//! The store is modelled as a map from a session's id to the paths pushed on
//! it, oldest first. A session that was never pushed to is not in the map.

use vstd::prelude::*;

verus! {

/// The store as a mathematical value.
pub type Stacks = Map<Seq<char>, Seq<Seq<char>>>;

/// The paths of `session`, oldest first; empty for a session that is absent.
pub open spec fn stack_of(m: Stacks, session: Seq<char>) -> Seq<Seq<char>> {
    if m.dom().contains(session) {
        m[session]
    } else {
        Seq::empty()
    }
}

/// The store after `path` was pushed on `session`.
pub open spec fn pushed(m: Stacks, session: Seq<char>, path: Seq<char>) -> Stacks {
    m.insert(session, stack_of(m, session).push(path))
}

/// The path on top of `session`, or the empty string where there is none.
pub open spec fn top_of(m: Stacks, session: Seq<char>) -> Seq<char> {
    if stack_of(m, session).len() > 0 {
        stack_of(m, session).last()
    } else {
        Seq::empty()
    }
}

/// The store after the top of `session` was taken off. A session that is
/// absent stays absent; one that is empty stays as it is.
pub open spec fn popped(m: Stacks, session: Seq<char>) -> Stacks {
    if stack_of(m, session).len() > 0 {
        m.insert(session, m[session].drop_last())
    } else {
        m
    }
}

/// The paths of `session`, most recent first.
pub open spec fn listing(m: Stacks, session: Seq<char>) -> Seq<Seq<char>> {
    stack_of(m, session).reverse()
}

/// The contents of a vector of strings.
pub open spec fn texts(v: Seq<String>) -> Seq<Seq<char>> {
    Seq::new(v.len(), |i: int| v[i]@)
}

#[derive(Clone, Debug)]
struct Session {
    id: String,
    paths: Vec<String>,
}

/// The stacks of all sessions that were ever pushed to.
#[derive(Clone, Debug)]
pub struct AppState {
    sessions: Vec<Session>,
}

impl AppState {
    /// The store is well formed: no session id occurs twice.
    pub closed spec fn wf(&self) -> bool {
        forall|i: int, j: int|
            0 <= i < j < self.sessions@.len() ==> self.sessions@[i].id@ != self.sessions@[j].id@
    }

    spec fn holds(&self, session: Seq<char>, i: int) -> bool {
        0 <= i < self.sessions@.len() && self.sessions@[i].id@ == session
    }

    /// The store as a map from each session's id to its paths, oldest first.
    pub closed spec fn view(&self) -> Stacks {
        Map::new(
            |k: Seq<char>| exists|i: int| self.holds(k, i),
            |k: Seq<char>| texts(self.sessions@[choose|i: int| self.holds(k, i)].paths@),
        )
    }

    proof fn lemma_entry(&self, i: int)
        requires
            self.wf(),
            0 <= i < self.sessions@.len(),
        ensures
            self@.dom().contains(self.sessions@[i].id@),
            self@[self.sessions@[i].id@] == texts(self.sessions@[i].paths@),
    {
        let k = self.sessions@[i].id@;
        assert(self.holds(k, i));
        let j = choose|j: int| self.holds(k, j);
        assert(j == i);
    }

    /// A store without sessions.
    pub fn new() -> (r: AppState)
        ensures
            r.wf(),
            r@ == Stacks::empty(),
    {
        let r = AppState { sessions: Vec::new() };
        assert(r@ =~= Stacks::empty());
        r
    }

    fn find(&self, session: &str) -> (r: Option<usize>)
        ensures
            match r {
                Some(i) => self.holds(session@, i as int),
                None => forall|i: int| !self.holds(session@, i),
            },
    {
        let mut i: usize = 0;
        while i < self.sessions.len()
            invariant
                i <= self.sessions@.len(),
                forall|k: int| 0 <= k < i ==> self.sessions@[k].id@ != session@,
            decreases self.sessions@.len() - i,
        {
            if *self.sessions[i].id.as_str() == *session {
                return Some(i);
            }
            i += 1;
        }
        None
    }

    /// The paths of `session`, oldest first, if the session is there.
    pub fn get(&self, session: &str) -> (r: Option<&Vec<String>>)
        requires
            self.wf(),
        ensures
            match r {
                Some(v) => self@.dom().contains(session@) && texts(v@) == self@[session@],
                None => !self@.dom().contains(session@),
            },
    {
        match self.find(session) {
            Some(i) => {
                proof {
                    self.lemma_entry(i as int);
                }
                Some(&self.sessions[i].paths)
            },
            None => None,
        }
    }

    /// Gives `session` the stack `paths`, whether or not it had one.
    pub fn insert(&mut self, session: String, paths: Vec<String>)
        requires
            old(self).wf(),
        ensures
            final(self).wf(),
            final(self)@ == old(self)@.insert(session@, texts(paths@)),
    {
        let ghost key = session@;
        let ghost value = texts(paths@);
        match self.find(session.as_str()) {
            Some(i) => {
                self.sessions[i].paths = paths;
                assert(self.holds(key, i as int));
            },
            None => {
                self.sessions.push(Session { id: session, paths });
                assert(self.holds(key, self.sessions@.len() - 1));
            },
        }
        proof {
            self.lemma_after_store(*old(self), key, value);
        }
    }

    /// A store that differs from `before` in the stack of `key` alone, which
    /// is now `value`, holds `before`'s map with that one entry put in.
    proof fn lemma_after_store(&self, before: AppState, key: Seq<char>, value: Seq<Seq<char>>)
        requires
            before.wf(),
            self.sessions@.len() >= before.sessions@.len(),
            forall|i: int|
                0 <= i < before.sessions@.len() ==> self.sessions@[i].id@
                    == before.sessions@[i].id@,
            forall|i: int|
                0 <= i < before.sessions@.len() && before.sessions@[i].id@ != key
                    ==> self.sessions@[i].paths@ == before.sessions@[i].paths@,
            exists|i: int| self.holds(key, i) && texts(self.sessions@[i].paths@) == value,
            (exists|i: int| before.holds(key, i)) ==> self.sessions@.len()
                == before.sessions@.len(),
            self.sessions@.len() <= before.sessions@.len() + 1,
            self.sessions@.len() == before.sessions@.len() + 1 ==> self.sessions@.last().id@
                == key,
        ensures
            self.wf(),
            self@ == before@.insert(key, value),
    {
        assert(self.wf()) by {
            assert forall|i: int, j: int| 0 <= i < j < self.sessions@.len() implies self.sessions@[i].id@
                != self.sessions@[j].id@ by {
                if j == before.sessions@.len() {
                    if self.sessions@[i].id@ == key {
                        assert(before.holds(key, i));
                    }
                }
            }
        }
        let target = before@.insert(key, value);
        assert forall|k: Seq<char>| self@.dom().contains(k) <==> target.dom().contains(k) by {
            if self@.dom().contains(k) {
                let i = choose|i: int| self.holds(k, i);
                if k != key {
                    assert(before.holds(k, i));
                }
            }
            if target.dom().contains(k) {
                if k != key {
                    let i = choose|i: int| before.holds(k, i);
                    assert(self.holds(k, i));
                }
            }
        }
        assert forall|k: Seq<char>| self@.dom().contains(k) implies self@[k] == target[k] by {
            let i = choose|i: int| self.holds(k, i);
            self.lemma_entry(i);
            if k == key {
                let w = choose|w: int| self.holds(key, w) && texts(self.sessions@[w].paths@) == value;
                assert(w == i);
            } else {
                assert(before.holds(k, i));
                before.lemma_entry(i);
            }
        }
        assert(self@ =~= target);
    }
}

/// Looks at the top of `session`'s stack and leaves the store as it is.
pub fn peekd(stack: &mut AppState, session: &str) -> (r: String)
    requires
        old(stack).wf(),
    ensures
        final(stack).wf(),
        final(stack)@ == old(stack)@,
        r@ == top_of(old(stack)@, session@),
{
    match stack.find(session) {
        Some(i) => {
            proof {
                stack.lemma_entry(i as int);
            }
            let n = stack.sessions[i].paths.len();
            if n > 0 {
                stack.sessions[i].paths[n - 1].clone()
            } else {
                String::new()
            }
        },
        None => String::new(),
    }
}

/// Takes the top of `session`'s stack off and returns it. Where the session
/// is absent or empty, returns the empty string and changes nothing.
pub fn popd(stack: &mut AppState, session: &str) -> (r: String)
    requires
        old(stack).wf(),
    ensures
        final(stack).wf(),
        final(stack)@ == popped(old(stack)@, session@),
        r@ == top_of(old(stack)@, session@),
{
    match stack.find(session) {
        Some(i) => {
            proof {
                stack.lemma_entry(i as int);
            }
            if stack.sessions[i].paths.len() > 0 {
                let top = stack.sessions[i].paths.pop().unwrap();
                proof {
                    let rest = old(stack)@[session@].drop_last();
                    assert(texts(stack.sessions@[i as int].paths@) =~= rest);
                    assert(stack.holds(session@, i as int));
                    stack.lemma_after_store(*old(stack), session@, rest);
                }
                top
            } else {
                String::new()
            }
        },
        None => String::new(),
    }
}

/// Pushes `path` on `session`'s stack, which is made if it is not there, and
/// returns the path.
pub fn pushd(stack: &mut AppState, session: &str, path: &str) -> (r: String)
    requires
        old(stack).wf(),
    ensures
        final(stack).wf(),
        final(stack)@ == pushed(old(stack)@, session@, path@),
        r@ == path@,
{
    let ghost grown = stack_of(old(stack)@, session@).push(path@);
    match stack.find(session) {
        Some(i) => {
            proof {
                stack.lemma_entry(i as int);
            }
            stack.sessions[i].paths.push(path.to_owned());
            assert(texts(stack.sessions@[i as int].paths@) =~= grown);
            assert(stack.holds(session@, i as int));
        },
        None => {
            let mut paths: Vec<String> = Vec::new();
            paths.push(path.to_owned());
            assert(texts(paths@) =~= grown);
            stack.sessions.push(Session { id: session.to_owned(), paths });
            assert(stack.holds(session@, stack.sessions@.len() - 1));
        },
    }
    proof {
        stack.lemma_after_store(*old(stack), session@, grown);
    }
    path.to_owned()
}

/// The paths of `session`, most recent first; none for an absent session.
pub fn dirs(stack: &AppState, session: &str) -> (r: Vec<String>)
    requires
        stack.wf(),
    ensures
        texts(r@) == listing(stack@, session@),
{
    let mut r: Vec<String> = Vec::new();
    match stack.find(session) {
        Some(i) => {
            proof {
                stack.lemma_entry(i as int);
            }
            let paths = &stack.sessions[i].paths;
            let mut k: usize = paths.len();
            while k > 0
                invariant
                    k <= paths@.len(),
                    r@.len() == paths@.len() - k,
                    forall|j: int| 0 <= j < r@.len() ==> r@[j]@ == paths@[paths@.len() - 1 - j]@,
                decreases k,
            {
                k -= 1;
                r.push(paths[k].clone());
            }
            assert(texts(r@) =~= texts(paths@).reverse());
        },
        None => {
            assert(texts(r@) =~= Seq::<Seq<char>>::empty().reverse());
        },
    }
    r
}

/// After a push the pushed path is on top of the session: it is what a peek
/// returns and the first entry of the listing.
pub proof fn push_puts_on_top(m: Stacks, session: Seq<char>, path: Seq<char>)
    ensures
        top_of(pushed(m, session, path), session) == path,
        listing(pushed(m, session, path), session).len() == listing(m, session).len() + 1,
        listing(pushed(m, session, path), session)[0] == path,
        listing(pushed(m, session, path), session).skip(1) == listing(m, session),
{
    assert(listing(pushed(m, session, path), session).skip(1) =~= listing(m, session));
}

/// A pop on an absent session returns the empty string and makes no session:
/// the store is the same, and the session's listing is still empty.
pub proof fn pop_of_absent_makes_nothing(m: Stacks, session: Seq<char>)
    requires
        !m.dom().contains(session),
    ensures
        top_of(m, session) == Seq::<char>::empty(),
        popped(m, session) == m,
        !popped(m, session).dom().contains(session),
        listing(popped(m, session), session) == Seq::<Seq<char>>::empty(),
{
    assert(listing(m, session) =~= Seq::<Seq<char>>::empty());
}

/// A pop takes the most recent path off and leaves the older ones in place.
pub proof fn pop_takes_the_top(m: Stacks, session: Seq<char>)
    requires
        stack_of(m, session).len() > 0,
    ensures
        top_of(m, session) == listing(m, session)[0],
        listing(popped(m, session), session) == listing(m, session).skip(1),
{
    assert(listing(popped(m, session), session) =~= listing(m, session).skip(1));
}

/// A pop undoes a push: the paths of the session are what they were.
pub proof fn pop_undoes_push(m: Stacks, session: Seq<char>, path: Seq<char>)
    ensures
        stack_of(popped(pushed(m, session, path), session), session) == stack_of(m, session),
        forall|other: Seq<char>|
            other != session ==> stack_of(popped(pushed(m, session, path), session), other)
                == stack_of(m, other),
{
    assert(stack_of(m, session).push(path).drop_last() =~= stack_of(m, session));
}

/// Sessions do not touch each other: a push or a pop on one session leaves
/// the paths, the top and the listing of every other session as they were.
pub proof fn sessions_are_independent(m: Stacks, a: Seq<char>, b: Seq<char>, path: Seq<char>)
    requires
        a != b,
    ensures
        stack_of(pushed(m, a, path), b) == stack_of(m, b),
        stack_of(popped(m, a), b) == stack_of(m, b),
        listing(pushed(m, a, path), b) == listing(m, b),
        listing(popped(m, a), b) == listing(m, b),
        top_of(pushed(m, a, path), b) == top_of(m, b),
        top_of(popped(m, a), b) == top_of(m, b),
        pushed(m, a, path).dom().contains(b) == m.dom().contains(b),
        popped(m, a).dom().contains(b) == m.dom().contains(b),
{
}

} // verus!
