use vstd::prelude::*;

use crate::panel::Session;

verus! {

/// Sessions by identifier, at most one per identifier.
pub struct SessionStore {
    entries: Vec<(String, Session)>,
}

/// What a lookup of `id` in `m` gives.
pub open spec fn stored(m: Map<Seq<char>, Session>, id: Seq<char>) -> Option<Session> {
    if m.contains_key(id) {
        Some(m[id])
    } else {
        None
    }
}

impl SessionStore {
    pub closed spec fn view(&self) -> Map<Seq<char>, Session> {
        Map::new(
            |k: Seq<char>| exists|i: int| 0 <= i < self.entries@.len() && #[trigger] self.entries@[i].0@ == k,
            |k: Seq<char>| Session {},
        )
    }

    /// No identifier is held twice.
    pub closed spec fn wf(&self) -> bool {
        forall|i: int, j: int|
            0 <= i < j < self.entries@.len() ==> #[trigger] self.entries@[i].0@ != #[trigger] self.entries@[j].0@
    }

    pub fn new() -> (r: Self)
        ensures
            r.wf(),
            r@ == Map::<Seq<char>, Session>::empty(),
    {
        let r = SessionStore { entries: Vec::new() };
        assert(r@ =~= Map::<Seq<char>, Session>::empty());
        r
    }

    fn find(&self, id: &String) -> (r: Option<usize>)
        ensures
            match r {
                Some(i) => i < self.entries@.len() && self.entries@[i as int].0@ == id@,
                None => forall|i: int| 0 <= i < self.entries@.len() ==> #[trigger] self.entries@[i].0@ != id@,
            },
    {
        let mut i: usize = 0;
        while i < self.entries.len()
            invariant
                i <= self.entries@.len(),
                forall|k: int| 0 <= k < i ==> #[trigger] self.entries@[k].0@ != id@,
            decreases self.entries.len() - i,
        {
            if self.entries[i].0 == *id {
                return Some(i);
            }
            i = i + 1;
        }
        None
    }

    /// The session stored under `id`, if any.
    pub fn get(&self, id: &String) -> (r: Option<Session>)
        requires
            self.wf(),
        ensures
            r == stored(self@, id@),
    {
        match self.find(id) {
            Some(i) => {
                assert(self@.contains_key(id@));
                Some(self.entries[i].1)
            },
            None => None,
        }
    }

    /// Stores `session` under `id`, replacing what was there.
    pub fn put(&mut self, id: String, session: Session)
        requires
            old(self).wf(),
        ensures
            final(self).wf(),
            final(self)@ == old(self)@.insert(id@, session),
    {
        match self.find(&id) {
            Some(i) => {
                let ghost before = self.entries@;
                let ghost idv = id@;
                self.entries.set(i, (id, session));
                assert(forall|k: int| 0 <= k < before.len() ==> #[trigger] self.entries@[k].0@ == before[k].0@);
                assert forall|k: Seq<char>| #[trigger] self@.contains_key(k) == old(self)@.insert(idv, session).contains_key(k) by {
                    if old(self)@.insert(idv, session).contains_key(k) {
                        if k == idv {
                            assert(self.entries@[i as int].0@ == k);
                        } else {
                            let t = choose|t: int| 0 <= t < before.len() && #[trigger] before[t].0@ == k;
                            assert(self.entries@[t].0@ == k);
                        }
                    }
                }
                assert(self@ =~= old(self)@.insert(idv, session));
            },
            None => {
                let ghost before = self.entries@;
                let ghost idv = id@;
                self.entries.push((id, session));
                assert(forall|k: int| 0 <= k < before.len() ==> #[trigger] self.entries@[k] == before[k]);
                assert(self.entries@[before.len() as int].0@ == idv);
                assert forall|k: Seq<char>| #[trigger] self@.contains_key(k) == old(self)@.insert(idv, session).contains_key(k) by {
                    if self@.contains_key(k) {
                        let t = choose|t: int| 0 <= t < self.entries@.len() && #[trigger] self.entries@[t].0@ == k;
                        if t < before.len() {
                            assert(before[t].0@ == k);
                        }
                    }
                    if old(self)@.insert(idv, session).contains_key(k) {
                        if k == idv {
                        } else {
                            let t = choose|t: int| 0 <= t < before.len() && #[trigger] before[t].0@ == k;
                            assert(self.entries@[t].0@ == k);
                        }
                    }
                }
                assert(self@ =~= old(self)@.insert(idv, session));
            },
        }
    }

    /// Drops what is stored under `id`; nothing happens where nothing is.
    pub fn remove(&mut self, id: &String)
        requires
            old(self).wf(),
        ensures
            final(self).wf(),
            final(self)@ == old(self)@.remove(id@),
    {
        match self.find(id) {
            Some(i) => {
                let ghost before = self.entries@;
                self.entries.remove(i);
                assert(forall|k: int| 0 <= k < i ==> #[trigger] self.entries@[k] == before[k]);
                assert(forall|k: int| i <= k < self.entries@.len() ==> #[trigger] self.entries@[k] == before[k + 1]);
                assert forall|k: Seq<char>| #[trigger] self@.contains_key(k) == old(self)@.remove(id@).contains_key(k) by {
                    if self@.contains_key(k) {
                        let t = choose|t: int| 0 <= t < self.entries@.len() && #[trigger] self.entries@[t].0@ == k;
                        if t < i {
                            assert(before[t].0@ == k);
                        } else {
                            assert(before[t + 1].0@ == k);
                        }
                    }
                    if old(self)@.remove(id@).contains_key(k) {
                        let t = choose|t: int| 0 <= t < before.len() && #[trigger] before[t].0@ == k;
                        if t < i {
                            assert(self.entries@[t].0@ == k);
                        } else {
                            assert(t != i);
                            assert(self.entries@[t - 1].0@ == k);
                        }
                    }
                }
                assert(self@ =~= old(self)@.remove(id@));
            },
            None => {
                assert(self@ =~= old(self)@.remove(id@));
            },
        }
    }
}

/// The store after a request that ends with `session_data`, for the
/// session identifier `id`.
pub open spec fn settled(m: Map<Seq<char>, Session>, id: Seq<char>, client_has_sid: bool, session_data: Option<Session>) -> Map<Seq<char>, Session> {
    match session_data {
        Some(d) => m.insert(id, d),
        None => if client_has_sid {
            m.remove(id)
        } else {
            m
        },
    }
}

impl SessionStore {
    /// Keeps what a request left: its session is stored under `id` where
    /// there is one, and otherwise dropped where the client sent `id`.
    pub fn settle(&mut self, id: String, client_has_sid: bool, session_data: Option<Session>)
        requires
            old(self).wf(),
        ensures
            final(self).wf(),
            final(self)@ == settled(old(self)@, id@, client_has_sid, session_data),
    {
        match session_data {
            Some(d) => self.put(id, d),
            None => if client_has_sid {
                self.remove(&id);
            },
        }
    }
}

/// A stored session is found again under its identifier; a removed one is
/// not; and storing or removing under one identifier leaves every other
/// identifier's lookup as it was.
pub proof fn lemma_store_laws(m: Map<Seq<char>, Session>, id: Seq<char>, other: Seq<char>, s: Session)
    ensures
        stored(m.insert(id, s), id) == Some(s),
        stored(m.remove(id), id) is None,
        other != id ==> stored(m.insert(id, s), other) == stored(m, other),
        other != id ==> stored(m.remove(id), other) == stored(m, other),
{
}

/// Across requests: a session kept by one request is found by the next
/// request with the same identifier; one dropped is not found; and a request
/// leaves the sessions of every other identifier as they were.
pub proof fn lemma_settle_laws(
    m: Map<Seq<char>, Session>,
    id: Seq<char>,
    other: Seq<char>,
    client_has_sid: bool,
    session_data: Option<Session>,
)
    ensures
        session_data is Some ==> stored(settled(m, id, client_has_sid, session_data), id) == session_data,
        session_data is None && client_has_sid ==> stored(settled(m, id, client_has_sid, session_data), id) is None,
        other != id ==> stored(settled(m, id, client_has_sid, session_data), other) == stored(m, other),
{
}

} // verus!
