//! The shared connection registry: a table from peer address to the handle of
//! the connection actor that owns that peer's socket. Listener actors insert
//! on accept, the coordinator looks up, enumerates and removes; the map holds
//! at most one live entry per peer address.

use crate::addr::SockAddr;
use vstd::prelude::*;

verus! {

/// Identifies a running connection actor: the peer address it serves and the
/// id of its inbound command channel. The asynchronous shell maps channel ids
/// to real sending halves; the library only routes by id.
#[derive(Clone, Copy, PartialEq, Eq, Structural, Debug)]
pub struct ConnectionHandle {
    pub peer: SockAddr,
    pub chan: u64,
}

/// No two entries claim the same peer address.
pub open spec fn distinct_peers(s: Seq<ConnectionHandle>) -> bool {
    forall|i: int, j: int|
        0 <= i < j < s.len() ==> (#[trigger] s[i]).peer != (#[trigger] s[j]).peer
}

/// The map an entry list represents: later entries shadow earlier ones,
/// though a well-formed registry never holds two entries for one peer.
pub open spec fn alist_map(s: Seq<ConnectionHandle>) -> Map<SockAddr, ConnectionHandle>
    decreases s.len(),
{
    if s.len() == 0 {
        Map::empty()
    } else {
        alist_map(s.drop_last()).insert(s.last().peer, s.last())
    }
}

proof fn lemma_alist_contains(s: Seq<ConnectionHandle>, k: SockAddr)
    ensures
        alist_map(s).contains_key(k) <==> exists|i: int|
            0 <= i < s.len() && (#[trigger] s[i]).peer == k,
    decreases s.len(),
{
    if s.len() > 0 {
        lemma_alist_contains(s.drop_last(), k);
        if alist_map(s).contains_key(k) {
            if s.last().peer == k {
                assert(s[s.len() - 1].peer == k);
            } else {
                let i = choose|i: int|
                    0 <= i < s.drop_last().len() && (#[trigger] s.drop_last()[i]).peer == k;
                assert(s[i].peer == k);
            }
        }
        if exists|i: int| 0 <= i < s.len() && (#[trigger] s[i]).peer == k {
            let i = choose|i: int| 0 <= i < s.len() && (#[trigger] s[i]).peer == k;
            if i < s.len() - 1 {
                assert(s.drop_last()[i].peer == k);
            }
        }
    }
}

proof fn lemma_alist_index(s: Seq<ConnectionHandle>, i: int)
    requires
        distinct_peers(s),
        0 <= i < s.len(),
    ensures
        alist_map(s).contains_key(s[i].peer),
        alist_map(s)[s[i].peer] == s[i],
    decreases s.len(),
{
    if i == s.len() - 1 {
    } else {
        lemma_alist_index(s.drop_last(), i);
        assert(s.drop_last()[i] == s[i]);
    }
}

proof fn lemma_alist_remove(s: Seq<ConnectionHandle>, i: int)
    requires
        distinct_peers(s),
        0 <= i < s.len(),
    ensures
        alist_map(s.remove(i)) == alist_map(s).remove(s[i].peer),
    decreases s.len(),
{
    lemma_alist_contains(s.drop_last(), s[i].peer);
    if i == s.len() - 1 {
        assert(s.remove(i) =~= s.drop_last());
        assert(!alist_map(s.drop_last()).contains_key(s[i].peer));
        assert(alist_map(s.drop_last()).insert(s[i].peer, s[i]).remove(s[i].peer) =~= alist_map(
            s.drop_last(),
        ));
    } else {
        lemma_alist_remove(s.drop_last(), i);
        assert(s.remove(i).drop_last() =~= s.drop_last().remove(i));
        assert(s.remove(i).last() == s.last());
        assert(alist_map(s.remove(i)) == alist_map(s.drop_last().remove(i)).insert(
            s.last().peer,
            s.last(),
        ));
        assert(s[i].peer != s.last().peer);
        assert(alist_map(s.drop_last()).remove(s[i].peer).insert(s.last().peer, s.last())
            =~= alist_map(s.drop_last()).insert(s.last().peer, s.last()).remove(s[i].peer));
    }
}

proof fn lemma_alist_len(s: Seq<ConnectionHandle>)
    requires
        distinct_peers(s),
    ensures
        alist_map(s).dom().finite(),
        alist_map(s).dom().len() == s.len(),
    decreases s.len(),
{
    broadcast use vstd::set::group_set_axioms;

    if s.len() > 0 {
        lemma_alist_len(s.drop_last());
        lemma_alist_contains(s.drop_last(), s.last().peer);
        assert(forall|j: int|
            0 <= j < s.len() - 1 ==> (#[trigger] s.drop_last()[j]).peer != s.last().peer);
    }
}

/// The shared table of live connections, keyed by peer address.
pub struct Registry {
    entries: Vec<ConnectionHandle>,
}

impl View for Registry {
    type V = Map<SockAddr, ConnectionHandle>;

    closed spec fn view(&self) -> Map<SockAddr, ConnectionHandle> {
        alist_map(self.entries@)
    }
}

impl Registry {
    /// At most one entry per peer address.
    pub closed spec fn wf(&self) -> bool {
        distinct_peers(self.entries@)
    }

    /// An empty registry.
    pub fn new() -> (r: Registry)
        ensures
            r.wf(),
            r@ == Map::<SockAddr, ConnectionHandle>::empty(),
    {
        Registry { entries: Vec::new() }
    }

    /// The number of live entries.
    pub fn len(&self) -> (r: usize)
        requires
            self.wf(),
        ensures
            r == self@.dom().len(),
            self@.dom().finite(),
    {
        proof {
            lemma_alist_len(self.entries@);
        }
        self.entries.len()
    }

    /// Looks up the handle registered for `peer`, if any.
    pub fn lookup(&self, peer: &SockAddr) -> (r: Option<ConnectionHandle>)
        requires
            self.wf(),
        ensures
            match r {
                Some(h) => self@.contains_key(*peer) && self@[*peer] == h,
                None => !self@.contains_key(*peer),
            },
    {
        let n: usize = self.entries.len();
        let mut i: usize = 0;
        while i < n
            invariant
                n == self.entries@.len(),
                i <= n,
                self.wf(),
                forall|j: int| 0 <= j < i ==> (#[trigger] self.entries@[j]).peer != *peer,
            decreases n - i,
        {
            let e = self.entries[i];
            if e.peer == *peer {
                proof {
                    lemma_alist_index(self.entries@, i as int);
                }
                return Some(e);
            }
            i = i + 1;
        }
        proof {
            lemma_alist_contains(self.entries@, *peer);
        }
        None
    }

    /// Inserts `handle` under its peer address. A peer already registered is
    /// rejected and the registry is left as it was: a reconnect from an
    /// address whose first actor has not yet been cleaned up never corrupts
    /// or silently replaces the live entry.
    pub fn register(&mut self, handle: ConnectionHandle) -> (r: bool)
        requires
            old(self).wf(),
        ensures
            final(self).wf(),
            old(self)@.contains_key(handle.peer) ==> r == false && final(self)@ == old(self)@,
            !old(self)@.contains_key(handle.peer) ==> r == true && final(self)@ == old(
                self,
            )@.insert(handle.peer, handle),
    {
        match self.lookup(&handle.peer) {
            Some(_) => false,
            None => {
                proof {
                    lemma_alist_contains(self.entries@, handle.peer);
                }
                self.entries.push(handle);
                proof {
                    assert(self.entries@.drop_last() =~= old(self).entries@);
                    assert(self.entries@.last() == handle);
                    assert(forall|j: int|
                        0 <= j < old(self).entries@.len() ==> (#[trigger] old(
                            self,
                        ).entries@[j]).peer != handle.peer);
                    assert(forall|j: int|
                        0 <= j < self.entries@.len() - 1 ==> self.entries@[j] == old(
                            self,
                        ).entries@[j]);
                }
                true
            },
        }
    }

    /// Enumerates the peer addresses of all live entries, oldest first:
    /// exactly the registry's keys, each once.
    pub fn peers(&self) -> (r: Vec<SockAddr>)
        requires
            self.wf(),
        ensures
            r@.len() == self@.dom().len(),
            forall|i: int| 0 <= i < r@.len() ==> self@.contains_key(#[trigger] r@[i]),
            forall|k: SockAddr|
                #[trigger] self@.contains_key(k) ==> exists|i: int|
                    0 <= i < r@.len() && r@[i] == k,
            forall|i: int, j: int| 0 <= i < j < r@.len() ==> r@[i] != r@[j],
    {
        let n: usize = self.entries.len();
        let mut out: Vec<SockAddr> = Vec::new();
        let mut i: usize = 0;
        while i < n
            invariant
                n == self.entries@.len(),
                i <= n,
                self.wf(),
                out@.len() == i,
                forall|j: int| 0 <= j < i ==> out@[j] == (#[trigger] self.entries@[j]).peer,
            decreases n - i,
        {
            out.push(self.entries[i].peer);
            i = i + 1;
        }
        proof {
            lemma_alist_len(self.entries@);
            assert forall|j: int| 0 <= j < out@.len() implies self@.contains_key(
                #[trigger] out@[j],
            ) by {
                lemma_alist_index(self.entries@, j);
            }
            assert forall|k: SockAddr| #[trigger] self@.contains_key(k) implies exists|j: int|
                0 <= j < out@.len() && out@[j] == k by {
                lemma_alist_contains(self.entries@, k);
                let j = choose|j: int|
                    0 <= j < self.entries@.len() && (#[trigger] self.entries@[j]).peer == k;
                assert(out@[j] == k);
            }
            assert forall|a: int, b: int| 0 <= a < b < out@.len() implies out@[a] != out@[b] by {
                assert(out@[a] == self.entries@[a].peer);
                assert(out@[b] == self.entries@[b].peer);
            }
        }
        out
    }

    /// Removes the entry for `peer`, if one is live; reports whether one was.
    pub fn remove(&mut self, peer: &SockAddr) -> (r: bool)
        requires
            old(self).wf(),
        ensures
            final(self).wf(),
            final(self)@ == old(self)@.remove(*peer),
            r == old(self)@.contains_key(*peer),
    {
        let n: usize = self.entries.len();
        let mut i: usize = 0;
        while i < n
            invariant
                n == self.entries@.len(),
                i <= n,
                self.wf(),
                self.entries@ == old(self).entries@,
                forall|j: int| 0 <= j < i ==> (#[trigger] self.entries@[j]).peer != *peer,
            decreases n - i,
        {
            let e = self.entries[i];
            if e.peer == *peer {
                proof {
                    lemma_alist_index(self.entries@, i as int);
                    lemma_alist_remove(self.entries@, i as int);
                }
                self.entries.remove(i);
                proof {
                    assert(forall|a: int, b: int|
                        0 <= a < b < self.entries@.len() ==> (#[trigger] self.entries@[a]).peer
                            != (#[trigger] self.entries@[b]).peer) by {
                        assert(forall|a: int|
                            0 <= a < self.entries@.len() ==> #[trigger] self.entries@[a] == if a
                                < i { old(self).entries@[a] } else { old(self).entries@[a + 1] });
                    }
                }
                return true;
            }
            i = i + 1;
        }
        proof {
            lemma_alist_contains(self.entries@, *peer);
            assert(self@ =~= old(self)@.remove(*peer));
        }
        false
    }
}

/// Folding a batch of accepted connections into a registry map, first accept
/// first.
pub open spec fn register_all(
    m: Map<SockAddr, ConnectionHandle>,
    batch: Seq<ConnectionHandle>,
) -> Map<SockAddr, ConnectionHandle>
    decreases batch.len(),
{
    if batch.len() == 0 {
        m
    } else {
        register_all(m, batch.drop_last()).insert(batch.last().peer, batch.last())
    }
}

/// Law: after any number of accepted connections with pairwise-distinct peer
/// addresses, none of them registered before, the registry holds exactly one
/// entry per accept, every earlier entry survives, and each new peer's entry
/// is precisely the handle registered for it — commands addressed through it
/// reach only that connection's channel.
pub proof fn lemma_distinct_accepts_fill_registry(
    m: Map<SockAddr, ConnectionHandle>,
    batch: Seq<ConnectionHandle>,
)
    requires
        m.dom().finite(),
        distinct_peers(batch),
        forall|i: int| 0 <= i < batch.len() ==> !m.contains_key((#[trigger] batch[i]).peer),
    ensures
        register_all(m, batch).dom().finite(),
        register_all(m, batch).dom().len() == m.dom().len() + batch.len(),
        forall|k: SockAddr|
            register_all(m, batch).contains_key(k) <==> (m.contains_key(k) || exists|i: int|
                0 <= i < batch.len() && (#[trigger] batch[i]).peer == k),
        forall|i: int|
            0 <= i < batch.len() ==> register_all(m, batch)[(#[trigger] batch[i]).peer]
                == batch[i],
        forall|k: SockAddr| m.contains_key(k) ==> register_all(m, batch)[k] == m[k],
    decreases batch.len(),
{
    broadcast use vstd::set::group_set_axioms;
    broadcast use vstd::map::group_map_axioms;

    if batch.len() > 0 {
        let prev = batch.drop_last();
        let last = batch.last();
        let mp = register_all(m, prev);
        let mb = register_all(m, batch);
        lemma_distinct_accepts_fill_registry(m, prev);
        assert(batch[batch.len() - 1] == last);
        assert(!m.contains_key(last.peer));
        assert(!mp.contains_key(last.peer)) by {
            if mp.contains_key(last.peer) {
                let i = choose|i: int|
                    0 <= i < prev.len() && (#[trigger] prev[i]).peer == last.peer;
                assert(batch[i].peer == last.peer);
                assert(false);
            }
        }
        assert(mb == mp.insert(last.peer, last));
        assert forall|k: SockAddr| mb.contains_key(k) implies (m.contains_key(k) || exists|i: int|
            0 <= i < batch.len() && (#[trigger] batch[i]).peer == k) by {
            if k == last.peer {
                assert(batch[batch.len() - 1].peer == k);
            } else {
                assert(mp.contains_key(k));
                if !m.contains_key(k) {
                    let i = choose|i: int| 0 <= i < prev.len() && (#[trigger] prev[i]).peer == k;
                    assert(batch[i].peer == k);
                }
            }
        }
        assert forall|k: SockAddr| (m.contains_key(k) || exists|i: int|
            0 <= i < batch.len() && (#[trigger] batch[i]).peer == k) implies mb.contains_key(
            k,
        ) by {
            if m.contains_key(k) {
                assert(mp.contains_key(k));
            } else {
                let i = choose|i: int| 0 <= i < batch.len() && (#[trigger] batch[i]).peer == k;
                if i < batch.len() - 1 {
                    assert(prev[i].peer == k);
                    assert(mp.contains_key(k));
                }
            }
        }
        assert forall|i: int| 0 <= i < batch.len() implies mb[(#[trigger] batch[i]).peer]
            == batch[i] by {
            if i < batch.len() - 1 {
                assert(prev[i] == batch[i]);
                assert(batch[i].peer != last.peer);
                assert(mp[prev[i].peer] == prev[i]);
            }
        }
        assert forall|k: SockAddr| m.contains_key(k) implies mb[k] == m[k] by {
            assert(k != last.peer);
        }
    }
}

} // verus!
