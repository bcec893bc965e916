//! The session's cursor table: maps a cursor name, unique within the
//! session, to the peer that owns the cursor's result set. Session-scoped,
//! never persisted or shared between connections.

use vstd::prelude::*;

use crate::stmt::Peer;

verus! {

/// Abstract contents of a sequence of `(name, owner)` entries: a map where a
/// later entry for the same name wins.
pub open spec fn entries_map(s: Seq<(String, Peer)>) -> Map<Seq<char>, Peer>
    decreases s.len(),
{
    if s.len() == 0 {
        Map::empty()
    } else {
        entries_map(s.drop_last()).insert(s.last().0@, s.last().1)
    }
}

proof fn lemma_entries_map_dom(s: Seq<(String, Peer)>, name: Seq<char>)
    ensures
        entries_map(s).dom().contains(name) <==> exists|i: int|
            0 <= i < s.len() && s[i].0@ == name,
    decreases s.len(),
{
    if s.len() > 0 {
        lemma_entries_map_dom(s.drop_last(), name);
        if s.last().0@ == name {
            assert(s[s.len() - 1].0@ == name);
        } else if entries_map(s).dom().contains(name) {
            let i = choose|i: int| 0 <= i < s.drop_last().len() && s.drop_last()[i].0@ == name;
            assert(s[i].0@ == name);
        } else {
            assert forall|i: int| 0 <= i < s.len() implies s[i].0@ != name by {
                if i < s.len() - 1 {
                    assert(s.drop_last()[i].0@ != name);
                }
            }
        }
    }
}

proof fn lemma_entries_map_last_wins(s: Seq<(String, Peer)>, i: int)
    requires
        0 <= i < s.len(),
        forall|j: int| i < j < s.len() ==> s[j].0@ != s[i].0@,
    ensures
        entries_map(s).dom().contains(s[i].0@),
        entries_map(s)[s[i].0@] == s[i].1,
    decreases s.len(),
{
    if i == s.len() - 1 {
        assert(s.last() == s[i]);
    } else {
        assert forall|j: int| i < j < s.drop_last().len() implies s.drop_last()[j].0@ != s.drop_last()[i].0@ by {
            assert(s.drop_last()[j] == s[j]);
        }
        lemma_entries_map_last_wins(s.drop_last(), i);
        assert(s.last().0@ != s[i].0@);
    }
}

/// The cursor table. A name declared again replaces the previous owner.
pub struct PeerCursors {
    entries: Vec<(String, Peer)>,
}

impl View for PeerCursors {
    type V = Map<Seq<char>, Peer>;

    closed spec fn view(&self) -> Map<Seq<char>, Peer> {
        entries_map(self.entries@)
    }
}

impl PeerCursors {
    /// An empty table: no cursor is tracked.
    pub fn new() -> (r: PeerCursors)
        ensures
            r@ == Map::<Seq<char>, Peer>::empty(),
    {
        PeerCursors { entries: Vec::new() }
    }

    /// Register `name` as owned by `peer`; a name already present is
    /// re-bound to the new owner.
    pub fn add_cursor(&mut self, name: String, peer: Peer)
        ensures
            final(self)@ == old(self)@.insert(name@, peer),
    {
        let ghost s0 = self.entries@;
        let ghost n = name@;
        let ghost p = peer;
        self.entries.push((name, peer));
        proof {
            assert(self.entries@.drop_last() =~= s0);
            assert(entries_map(self.entries@) == entries_map(s0).insert(n, p));
        }
    }

    /// Look up the peer that owns cursor `name`.
    pub fn get_peer(&self, name: &String) -> (r: Option<&Peer>)
        ensures
            match r {
                Some(p) => self@.dom().contains(name@) && *p == self@[name@],
                None => !self@.dom().contains(name@),
            },
    {
        let ghost s = self.entries@;
        let mut i: usize = self.entries.len();
        while i > 0
            invariant
                i <= s.len(),
                s == self.entries@,
                forall|j: int| i <= j < s.len() ==> s[j].0@ != name@,
            decreases i,
        {
            i = i - 1;
            if self.entries[i].0 == *name {
                proof {
                    lemma_entries_map_last_wins(s, i as int);
                }
                return Some(&self.entries[i].1);
            }
        }
        proof {
            lemma_entries_map_dom(s, name@);
        }
        None
    }

    /// Remove cursor `name` from the table; a name not present leaves the
    /// table unchanged.
    pub fn remove_cursor(&mut self, name: &String)
        ensures
            final(self)@ == old(self)@.remove(name@),
    {
        let ghost s = self.entries@;
        let ghost n = name@;
        let mut kept: Vec<(String, Peer)> = Vec::new();
        let mut i: usize = 0;
        while i < self.entries.len()
            invariant
                i <= s.len(),
                s == self.entries@,
                n == name@,
                entries_map(kept@) =~= entries_map(s.take(i as int)).remove(n),
            decreases s.len() - i,
        {
            let ghost k0 = kept@;
            let entry_name = self.entries[i].0.clone();
            let entry_peer = self.entries[i].1.clone();
            proof {
                assert(entry_name == s[i as int].0);
                assert(entry_peer == s[i as int].1);
            }
            let ghost key = s[i as int].0@;
            let ghost val = s[i as int].1;
            let ghost m0 = entries_map(s.take(i as int));
            proof {
                assert(s.take(i as int + 1).drop_last() =~= s.take(i as int));
                assert(s.take(i as int + 1).last() == s[i as int]);
                assert(entries_map(s.take(i as int + 1)) == m0.insert(key, val));
            }
            if !(entry_name == *name) {
                kept.push((entry_name, entry_peer));
                proof {
                    assert(key != n);
                    assert(kept@.drop_last() =~= k0);
                    assert(kept@.last() == (s[i as int].0, s[i as int].1));
                    assert(entries_map(kept@) == entries_map(k0).insert(key, val));
                    assert(m0.remove(n).insert(key, val) =~= m0.insert(key, val).remove(n));
                    assert(entries_map(kept@) =~= entries_map(s.take(i as int + 1)).remove(n));
                }
            } else {
                proof {
                    assert(key == n);
                    assert(kept@ == k0);
                    assert(m0.remove(n) =~= m0.insert(key, val).remove(n));
                    assert(entries_map(kept@) =~= entries_map(s.take(i as int + 1)).remove(n));
                }
            }
            i = i + 1;
        }
        proof {
            assert(s.take(s.len() as int) =~= s);
        }
        self.entries = kept;
    }

    /// Remove every tracked cursor and hand back the entries, so the caller
    /// can release each cursor's resources on its owning peer. Every name
    /// tracked before the call appears in the result, the last-declared
    /// owner beside it, and every returned name was tracked.
    pub fn close_all(&mut self) -> (r: Vec<(String, Peer)>)
        ensures
            final(self)@ == Map::<Seq<char>, Peer>::empty(),
            forall|n: Seq<char>| #[trigger] old(self)@.dom().contains(n) ==> exists|i: int|
                0 <= i < r@.len() && r@[i].0@ == n && r@[i].1 == old(self)@[n],
            forall|i: int| 0 <= i < r@.len() ==> old(self)@.dom().contains(#[trigger] r@[i].0@),
    {
        let mut out: Vec<(String, Peer)> = Vec::new();
        core::mem::swap(&mut self.entries, &mut out);
        proof {
            let s = out@;
            assert forall|n: Seq<char>| #[trigger] entries_map(s).dom().contains(n) implies exists|i: int|
                0 <= i < s.len() && s[i].0@ == n && s[i].1 == entries_map(s)[n] by {
                lemma_entries_map_dom(s, n);
                let i = last_index_of(s, n);
                lemma_last_index_of(s, n);
                lemma_entries_map_last_wins(s, i);
            }
            assert forall|i: int| 0 <= i < s.len() implies entries_map(s).dom().contains(#[trigger] s[i].0@) by {
                lemma_entries_map_dom(s, s[i].0@);
            }
        }
        out
    }
}

/// The greatest index of an entry named `n`, provided one exists.
spec fn last_index_of(s: Seq<(String, Peer)>, n: Seq<char>) -> int
    decreases s.len(),
{
    if s.len() == 0 {
        -1
    } else if s.last().0@ == n {
        s.len() - 1
    } else {
        last_index_of(s.drop_last(), n)
    }
}

proof fn lemma_last_index_of(s: Seq<(String, Peer)>, n: Seq<char>)
    requires
        exists|i: int| 0 <= i < s.len() && s[i].0@ == n,
    ensures
        0 <= last_index_of(s, n) < s.len(),
        s[last_index_of(s, n)].0@ == n,
        forall|j: int| last_index_of(s, n) < j < s.len() ==> s[j].0@ != n,
    decreases s.len(),
{
    if s.last().0@ == n {
    } else {
        let i = choose|i: int| 0 <= i < s.len() && s[i].0@ == n;
        assert(s.drop_last()[i] == s[i]);
        lemma_last_index_of(s.drop_last(), n);
        let li = last_index_of(s, n);
        assert(li == last_index_of(s.drop_last(), n));
        assert(s[li] == s.drop_last()[li]);
        assert forall|j: int| li < j < s.len() implies s[j].0@ != n by {
            if j < s.len() - 1 {
                assert(s.drop_last()[j] == s[j]);
            }
        }
    }
}

} // verus!
