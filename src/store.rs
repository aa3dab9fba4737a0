use vstd::prelude::*;
use crate::record::{key_view, SessionKey, TranscriptionSession};

verus! {

/// Errors of a session store.
#[derive(Debug)]
pub enum SessionStoreError {
    NotFound,
    Internal(String),
}

/// The mathematical content of a session store: key to record.
pub type SessionMap = Map<(Seq<char>, Seq<char>), TranscriptionSession>;

/// The record at `k`, if any.
pub open spec fn lookup(m: SessionMap, k: (Seq<char>, Seq<char>)) -> Option<TranscriptionSession> {
    if m.contains_key(k) {
        Some(m[k])
    } else {
        None
    }
}

/// `entries` lists the content of `m`: once per key, each with its record.
pub open spec fn lists_sessions(entries: Seq<(SessionKey, TranscriptionSession)>, m: SessionMap) -> bool {
    &&& forall|i: int|
        0 <= i < entries.len() ==> #[trigger] m.contains_key(key_view(entries[i].0)) && m[key_view(
            entries[i].0,
        )] == entries[i].1
    &&& forall|k| #[trigger]
        m.contains_key(k) ==> exists|i: int| 0 <= i < entries.len() && key_view(entries[i].0) == k
    &&& forall|i: int, j: int|
        0 <= i < entries.len() && 0 <= j < entries.len() && i != j ==> key_view(entries[i].0)
            != key_view(entries[j].0)
}

/// A key/value store of live sessions.
///
/// `set` replaces the whole record: callers that read, modify and write back
/// are responsible for what happens between their `get` and their `set`.
pub trait SessionStore {
    spec fn sessions(&self) -> SessionMap;

    spec fn well_formed(&self) -> bool;

    fn get(&self, key: &SessionKey) -> (r: Option<TranscriptionSession>)
        requires
            self.well_formed(),
        ensures
            r == lookup(self.sessions(), key_view(*key)),
    ;

    fn set(&mut self, key: &SessionKey, session: TranscriptionSession)
        requires
            old(self).well_formed(),
        ensures
            final(self).well_formed(),
            final(self).sessions() == old(self).sessions().insert(key_view(*key), session),
    ;

    fn delete(&mut self, key: &SessionKey)
        requires
            old(self).well_formed(),
        ensures
            final(self).well_formed(),
            final(self).sessions() == old(self).sessions().remove(key_view(*key)),
    ;

    /// A point-in-time copy of every entry.
    fn list_all(&self) -> (r: Vec<(SessionKey, TranscriptionSession)>)
        requires
            self.well_formed(),
        ensures
            lists_sessions(r@, self.sessions()),
    ;
}

/// The in-memory session store: entries with distinct keys, in insertion order.
pub struct InMemorySessionStore {
    sessions: Vec<(SessionKey, TranscriptionSession)>,
    model: Ghost<SessionMap>,
}

impl InMemorySessionStore {
    pub fn new() -> (r: Self)
        ensures
            r.well_formed(),
            r.sessions() == SessionMap::empty(),
    {
        InMemorySessionStore { sessions: Vec::new(), model: Ghost(SessionMap::empty()) }
    }

    fn position(&self, key: &SessionKey) -> (r: Option<usize>)
        requires
            self.well_formed(),
        ensures
            match r {
                Some(i) => i < self.sessions@.len() && key_view(self.sessions@[i as int].0)
                    == key_view(*key),
                None => !self.sessions().contains_key(key_view(*key)),
            },
    {
        let mut i: usize = 0;
        while i < self.sessions.len()
            invariant
                i <= self.sessions@.len(),
                forall|j: int| 0 <= j < i ==> key_view(self.sessions@[j].0) != key_view(*key),
            decreases self.sessions@.len() - i,
        {
            let entry = &self.sessions[i];
            if entry.0.0 == key.0 && entry.0.1 == key.1 {
                return Some(i);
            }
            i = i + 1;
        }
        None
    }
}

impl SessionStore for InMemorySessionStore {
    closed spec fn sessions(&self) -> SessionMap {
        self.model@
    }

    closed spec fn well_formed(&self) -> bool {
        lists_sessions(self.sessions@, self.model@)
    }

    fn get(&self, key: &SessionKey) -> (r: Option<TranscriptionSession>) {
        match self.position(key) {
            Some(i) => Some(self.sessions[i].1.clone()),
            None => None,
        }
    }

    fn set(&mut self, key: &SessionKey, session: TranscriptionSession) {
        let ghost k = key_view(*key);
        let ghost m = self.model@.insert(k, session);
        let entry_key: SessionKey = (key.0.clone(), key.1.clone());
        match self.position(key) {
            Some(i) => {
                let ghost before = self.sessions@;
                self.sessions.set(i, (entry_key, session));
                self.model = Ghost(m);
                assert forall|j: int| 0 <= j < self.sessions@.len() implies #[trigger] m.contains_key(
                    key_view(self.sessions@[j].0),
                ) && m[key_view(self.sessions@[j].0)] == self.sessions@[j].1 by {
                    if j != i {
                        assert(key_view(before[j].0) != k);
                    }
                }
                assert forall|kk| #[trigger] m.contains_key(kk) implies exists|j: int|
                    0 <= j < self.sessions@.len() && key_view(self.sessions@[j].0) == kk by {
                    if kk == k {
                        assert(key_view(self.sessions@[i as int].0) == kk);
                    } else {
                        let j = choose|j: int| 0 <= j < before.len() && key_view(before[j].0) == kk;
                        assert(key_view(self.sessions@[j].0) == kk);
                    }
                }
            },
            None => {
                let ghost before = self.sessions@;
                self.sessions.push((entry_key, session));
                self.model = Ghost(m);
                let ghost n = before.len() as int;
                assert forall|j: int| 0 <= j < self.sessions@.len() implies #[trigger] m.contains_key(
                    key_view(self.sessions@[j].0),
                ) && m[key_view(self.sessions@[j].0)] == self.sessions@[j].1 by {
                    if j < n {
                        assert(before[j] == self.sessions@[j]);
                    }
                }
                assert forall|kk| #[trigger] m.contains_key(kk) implies exists|j: int|
                    0 <= j < self.sessions@.len() && key_view(self.sessions@[j].0) == kk by {
                    if kk == k {
                        assert(key_view(self.sessions@[n].0) == kk);
                    } else {
                        let j = choose|j: int| 0 <= j < before.len() && key_view(before[j].0) == kk;
                        assert(key_view(self.sessions@[j].0) == kk);
                    }
                }
            },
        }
    }

    fn delete(&mut self, key: &SessionKey) {
        let ghost k = key_view(*key);
        let ghost m = self.model@.remove(k);
        match self.position(key) {
            Some(i) => {
                let ghost before = self.sessions@;
                self.sessions.remove(i);
                self.model = Ghost(m);
                assert forall|j: int| 0 <= j < self.sessions@.len() implies #[trigger] m.contains_key(
                    key_view(self.sessions@[j].0),
                ) && m[key_view(self.sessions@[j].0)] == self.sessions@[j].1 by {
                    if j < i {
                        assert(self.sessions@[j] == before[j]);
                        assert(key_view(before[j].0) != k);
                    } else {
                        assert(self.sessions@[j] == before[j + 1]);
                        assert(key_view(before[j + 1].0) != k);
                    }
                }
                assert forall|kk| #[trigger] m.contains_key(kk) implies exists|j: int|
                    0 <= j < self.sessions@.len() && key_view(self.sessions@[j].0) == kk by {
                    let j = choose|j: int| 0 <= j < before.len() && key_view(before[j].0) == kk;
                    assert(j != i);
                    if j < i {
                        assert(key_view(self.sessions@[j].0) == kk);
                    } else {
                        assert(key_view(self.sessions@[j - 1].0) == kk);
                    }
                }
                assert forall|a: int, b: int|
                    0 <= a < self.sessions@.len() && 0 <= b < self.sessions@.len() && a != b
                        implies key_view(self.sessions@[a].0) != key_view(self.sessions@[b].0) by {
                    let a0 = if a < i { a } else { a + 1 };
                    let b0 = if b < i { b } else { b + 1 };
                    assert(self.sessions@[a] == before[a0]);
                    assert(self.sessions@[b] == before[b0]);
                }
            },
            None => {
                assert(m =~= self.model@);
            },
        }
    }

    fn list_all(&self) -> (r: Vec<(SessionKey, TranscriptionSession)>) {
        let mut out: Vec<(SessionKey, TranscriptionSession)> = Vec::new();
        let mut i: usize = 0;
        while i < self.sessions.len()
            invariant
                i <= self.sessions@.len(),
                out@.len() == i,
                forall|j: int| 0 <= j < i ==> #[trigger] out@[j] == self.sessions@[j],
            decreases self.sessions@.len() - i,
        {
            let entry = &self.sessions[i];
            let key: SessionKey = (entry.0.0.clone(), entry.0.1.clone());
            out.push((key, entry.1.clone()));
            i = i + 1;
        }
        assert(out@ =~= self.sessions@);
        out
    }
}

} // verus!
