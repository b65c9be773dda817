//! The shared connection registry: a mapping from connection identifier to
//! that connection's inbound publish handle. A given id maps to at most one
//! live handle at a time; registering under an id that is already present
//! overwrites the previous handle (last write wins).

use vstd::prelude::*;
use crate::frame::Frame;

verus! {

/// The inbound publish handle a registry entry points at.
pub type Handle = tokio::sync::broadcast::Sender<Frame>;

type Entry = (String, Handle);

/// No two entries carry the same identifier.
spec fn unique_ids(s: Seq<Entry>) -> bool {
    forall|i: int, j: int| 0 <= i < j < s.len() ==> s[i].0@ != s[j].0@
}

/// Some entry carries the identifier `id`.
spec fn has_id(s: Seq<Entry>, id: Seq<char>) -> bool {
    exists|i: int| 0 <= i < s.len() && s[i].0@ == id
}

/// The handle of the entry carrying `id` (meaningful when ids are unique
/// and some entry carries `id`).
spec fn handle_of(s: Seq<Entry>, id: Seq<char>) -> Handle {
    s[choose|i: int| 0 <= i < s.len() && s[i].0@ == id].1
}

/// The entry at a known position determines membership and, under unique
/// ids, the handle the mapping yields for its identifier.
proof fn lemma_entry_determines(s: Seq<Entry>, i: int)
    requires
        unique_ids(s),
        0 <= i < s.len(),
    ensures
        has_id(s, s[i].0@),
        handle_of(s, s[i].0@) == s[i].1,
{
    assert(has_id(s, s[i].0@));
    let c = choose|j: int| 0 <= j < s.len() && s[j].0@ == s[i].0@;
    if c < i {
        assert(s[c].0@ != s[i].0@);
    } else if i < c {
        assert(s[i].0@ != s[c].0@);
    }
}

/// Deleting the one entry that carries an id keeps the other entries, their
/// ids and their handles intact, and keeps ids unique.
proof fn lemma_remove_entry(s: Seq<Entry>, i: int)
    requires
        unique_ids(s),
        0 <= i < s.len(),
    ensures
        unique_ids(s.remove(i)),
        forall|k: Seq<char>| has_id(s.remove(i), k) <==> (has_id(s, k) && k != s[i].0@),
        forall|k: Seq<char>|
            has_id(s, k) && k != s[i].0@ ==> handle_of(s.remove(i), k) == handle_of(s, k),
{
    let t = s.remove(i);
    assert(forall|j: int| 0 <= j < i ==> t[j] == s[j]);
    assert(forall|j: int| i <= j < t.len() ==> t[j] == s[j + 1]);
    assert forall|k: Seq<char>| has_id(t, k) implies (has_id(s, k) && k != s[i].0@) by {
        let j = choose|j: int| 0 <= j < t.len() && t[j].0@ == k;
        if j < i {
            assert(s[j].0@ == k);
            assert(s[j].0@ != s[i].0@);
        } else {
            assert(s[j + 1].0@ == k);
            assert(s[i].0@ != s[j + 1].0@);
        }
    }
    assert forall|k: Seq<char>| has_id(s, k) && k != s[i].0@ implies has_id(t, k) by {
        let j = choose|j: int| 0 <= j < s.len() && s[j].0@ == k;
        if j < i {
            assert(t[j].0@ == k);
        } else {
            assert(j != i);
            assert(t[j - 1].0@ == k);
        }
    }
    assert forall|k: Seq<char>| has_id(s, k) && k != s[i].0@ implies handle_of(t, k)
        == handle_of(s, k) by {
        let j = choose|j: int| 0 <= j < s.len() && s[j].0@ == k;
        lemma_entry_determines(s, j);
        if j < i {
            assert(t[j] == s[j]);
            lemma_entry_determines(t, j);
        } else {
            assert(t[j - 1] == s[j]);
            lemma_entry_determines(t, j - 1);
        }
    }
}

/// The registry: the one resource shared by all sessions. Entries are kept
/// with pairwise distinct identifiers, so the mapping is a function.
pub struct Registry {
    entries: Vec<Entry>,
}

impl View for Registry {
    type V = Map<Seq<char>, Handle>;

    closed spec fn view(&self) -> Map<Seq<char>, Handle> {
        Map::new(
            |k: Seq<char>| has_id(self.entries@, k),
            |k: Seq<char>| handle_of(self.entries@, k),
        )
    }
}

impl Registry {
    /// Internal invariant: an id maps to at most one live handle.
    pub closed spec fn wf(self) -> bool {
        unique_ids(self.entries@)
    }

    /// An empty registry: no id resolves to anything.
    pub fn new() -> (r: Registry)
        ensures
            r.wf(),
            r@ == Map::<Seq<char>, Handle>::empty(),
    {
        let r = Registry { entries: Vec::new() };
        proof {
            assert(r@ =~= Map::<Seq<char>, Handle>::empty());
        }
        r
    }

    /// Position of the entry carrying `id`, if any.
    fn index_of(&self, id: &String) -> (r: Option<usize>)
        ensures
            match r {
                Some(i) => i < self.entries@.len() && self.entries@[i as int].0@ == id@,
                None => !has_id(self.entries@, id@),
            },
    {
        let mut i: usize = 0;
        while i < self.entries.len()
            invariant
                i <= self.entries@.len(),
                forall|j: int| 0 <= j < i ==> self.entries@[j].0@ != id@,
            decreases self.entries@.len() - i,
        {
            if self.entries[i].0 == *id {
                return Some(i);
            }
            i += 1;
        }
        None
    }

    /// Inserts or overwrites the mapping for `id`; never fails. A previous
    /// session registered under `id` stays alive but is no longer reachable
    /// by that id.
    pub fn register(&mut self, id: String, handle: Handle)
        requires
            old(self).wf(),
        ensures
            final(self).wf(),
            final(self)@ == old(self)@.insert(id@, handle),
    {
        let ghost s0 = self.entries@;
        let ghost m0 = self@;
        match self.index_of(&id) {
            Some(i) => {
                self.entries.remove(i);
                proof {
                    lemma_remove_entry(s0, i as int);
                }
            },
            None => {},
        }
        let ghost s1 = self.entries@;
        self.entries.push((id, handle));
        proof {
            let s2 = self.entries@;
            assert forall|a: int, b: int| 0 <= a < b < s2.len() implies s2[a].0@ != s2[b].0@ by {
                if b == s2.len() - 1 {
                    assert(s2[a] == s1[a]);
                    assert(has_id(s1, s1[a].0@));
                } else {
                    assert(s2[a] == s1[a]);
                    assert(s2[b] == s1[b]);
                }
            }
            assert forall|k: Seq<char>| #[trigger] has_id(s2, k) implies (k == id@ || has_id(
                s1,
                k,
            )) by {
                let j = choose|j: int| 0 <= j < s2.len() && s2[j].0@ == k;
                if j < s2.len() - 1 {
                    assert(s1[j].0@ == k);
                }
            }
            assert forall|k: Seq<char>| has_id(s1, k) implies #[trigger] has_id(s2, k) by {
                let j = choose|j: int| 0 <= j < s1.len() && s1[j].0@ == k;
                assert(s2[j].0@ == k);
            }
            lemma_entry_determines(s2, s2.len() - 1);
            assert(handle_of(s2, id@) == handle);
            assert forall|k: Seq<char>| k != id@ && #[trigger] has_id(s1, k) implies handle_of(
                s2,
                k,
            ) == handle_of(s1, k) by {
                let j = choose|j: int| 0 <= j < s1.len() && s1[j].0@ == k;
                lemma_entry_determines(s1, j);
                assert(s2[j] == s1[j]);
                lemma_entry_determines(s2, j);
            }
            assert(self@ =~= m0.insert(id@, handle));
        }
    }

    /// The handle currently registered under `id`, or absent if no session
    /// currently owns that id.
    pub fn lookup(&self, id: &String) -> (r: Option<&Handle>)
        requires
            self.wf(),
        ensures
            match r {
                Some(h) => self@.contains_key(id@) && *h == self@[id@],
                None => !self@.contains_key(id@),
            },
    {
        match self.index_of(id) {
            Some(i) => {
                proof {
                    lemma_entry_determines(self.entries@, i as int);
                }
                Some(&self.entries[i].1)
            },
            None => None,
        }
    }

    /// Deletes the mapping for `id` if present; a no-op if absent. Every
    /// other id keeps the handle it had.
    pub fn remove(&mut self, id: &String)
        requires
            old(self).wf(),
        ensures
            final(self).wf(),
            final(self)@ == old(self)@.remove(id@),
    {
        let ghost s0 = self.entries@;
        let ghost m0 = self@;
        match self.index_of(id) {
            Some(i) => {
                self.entries.remove(i);
                proof {
                    lemma_remove_entry(s0, i as int);
                    assert(self@ =~= m0.remove(id@));
                }
            },
            None => {
                proof {
                    assert(self@ =~= m0.remove(id@));
                }
            },
        }
    }

}

} // verus!
