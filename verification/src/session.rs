//! The session store: a mapping from user identity to that user's
//! accumulated conversation transcript.
//!
//! The store is a sequential structure; a process that serves handlers
//! concurrently wraps it in a lock and holds that lock only around the
//! store operations themselves, never across a backend round trip.

use std::collections::HashMap;
use vstd::prelude::*;

verus! {

broadcast use vstd::std_specs::hash::group_hash_axioms;

/// The transcript recorded for `user`, or empty where none is.
pub open spec fn entry_or_empty(m: Map<u64, Seq<char>>, user: u64) -> Seq<char> {
    if m.contains_key(user) {
        m[user]
    } else {
        Seq::empty()
    }
}

/// The store after making sure `user` has a session: untouched where one
/// exists, extended by an empty transcript where none does.
pub open spec fn ensure_present(m: Map<u64, Seq<char>>, user: u64) -> Map<u64, Seq<char>> {
    if m.contains_key(user) {
        m
    } else {
        m.insert(user, Seq::empty())
    }
}

/// The store after removing `user`'s session entirely.
pub open spec fn store_clear(m: Map<u64, Seq<char>>, user: u64) -> Map<u64, Seq<char>> {
    m.remove(user)
}

/// The store after appending `text` to `user`'s transcript (an absent
/// session counts as empty).
pub open spec fn store_append(m: Map<u64, Seq<char>>, user: u64, text: Seq<char>) -> Map<
    u64,
    Seq<char>,
> {
    m.insert(user, entry_or_empty(m, user) + text)
}

pub struct SessionStore {
    map: HashMap<u64, String>,
}

impl View for SessionStore {
    type V = Map<u64, Seq<char>>;

    closed spec fn view(&self) -> Map<u64, Seq<char>> {
        self.map@.map_values(|s: String| s@)
    }
}

proof fn lemma_view_insert(m: Map<u64, String>, user: u64, s: String)
    ensures
        m.insert(user, s).map_values(|t: String| t@) =~= m.map_values(|t: String| t@).insert(
            user,
            s@,
        ),
{
}

proof fn lemma_view_remove(m: Map<u64, String>, user: u64)
    ensures
        m.remove(user).map_values(|t: String| t@) =~= m.map_values(|t: String| t@).remove(user),
{
}

impl SessionStore {
    pub fn new() -> (s: SessionStore)
        ensures
            s@ == Map::<u64, Seq<char>>::empty(),
    {
        let s = SessionStore { map: HashMap::new() };
        proof {
            assert(s@ =~= Map::<u64, Seq<char>>::empty());
        }
        s
    }

    /// Make sure `user` has a session and hand back a copy of its
    /// transcript, empty where the session is new.
    pub fn snapshot(&mut self, user: u64) -> (t: String)
        ensures
            final(self)@ == ensure_present(old(self)@, user),
            t@ == entry_or_empty(old(self)@, user),
    {
        let existing: Option<String> = match self.map.get(&user) {
            Some(s) => Some(s.clone()),
            None => None,
        };
        match existing {
            Some(s) => {
                proof {
                    assert(self@.contains_key(user));
                    assert(self@[user] == s@);
                }
                s
            },
            None => {
                let fresh = String::new();
                let ghost m0 = self.map@;
                self.map.insert(user, fresh);
                proof {
                    lemma_view_insert(m0, user, fresh);
                    assert(self@ =~= ensure_present(old(self)@, user));
                }
                String::new()
            },
        }
    }

    /// Append `text` to `user`'s transcript, starting one where none exists.
    pub fn append(&mut self, user: u64, text: &str)
        ensures
            final(self)@ == store_append(old(self)@, user, text@),
    {
        let ghost m0 = self.map@;
        match self.map.remove(&user) {
            Some(s) => {
                let mut s = s;
                s.append(text);
                let ghost m1 = self.map@;
                self.map.insert(user, s);
                proof {
                    lemma_view_remove(m0, user);
                    lemma_view_insert(m1, user, s);
                    assert(self@ =~= store_append(old(self)@, user, text@));
                }
            },
            None => {
                let s = String::from_str(text);
                let ghost m1 = self.map@;
                self.map.insert(user, s);
                proof {
                    lemma_view_insert(m1, user, s);
                    assert(self@ =~= store_append(old(self)@, user, text@));
                }
            },
        }
    }

    /// Remove `user`'s session entirely.
    pub fn clear(&mut self, user: u64)
        ensures
            final(self)@ == store_clear(old(self)@, user),
    {
        let ghost m0 = self.map@;
        self.map.remove(&user);
        proof {
            lemma_view_remove(m0, user);
            assert(self@ =~= store_clear(old(self)@, user));
        }
    }

    /// A copy of `user`'s transcript, or `None` where no session exists.
    pub fn transcript(&self, user: u64) -> (t: Option<String>)
        ensures
            match t {
                Some(s) => self@.contains_key(user) && s@ == self@[user],
                None => !self@.contains_key(user),
            },
    {
        match self.map.get(&user) {
            Some(s) => Some(s.clone()),
            None => None,
        }
    }
}

} // verus!
