//! Tracker of outstanding server-initiated exchanges.
//!
//! Each entry pairs a fresh 128-bit ticket identifier with what was asked
//! (`kind`), when, and its time budget.  The owner schedules a timer for the
//! ticket when `add` returns; a fired timer attempts `take`, so an entry that
//! was taken or cancelled first makes the late timer a no-op.

use vstd::prelude::*;
use crate::ids::fresh_uuid;

verus! {

/// A handle on one outstanding exchange.  The identifier doubles as the
/// correlation identifier used on the wire for the matching request.
#[derive(Clone, Copy, Debug, PartialEq, Eq)]
pub struct Ticket {
    pub id: u128,
}

impl Ticket {
    pub fn new(id: u128) -> (t: Ticket)
        ensures
            t.id == id,
    {
        Ticket { id }
    }
}

/// A fired timer's delivery: the identifier of the ticket whose budget
/// elapsed.  A late delivery finds the entry gone and changes nothing.
#[derive(Clone, Copy, Debug, PartialEq, Eq)]
pub struct Timeout(pub u128);

/// What an outstanding entry was for: its kind, the instant it was sent
/// (milliseconds, driver clock) and its time budget (milliseconds).
#[derive(Clone, Copy, Debug, PartialEq, Eq)]
pub struct PendingMeta<K> {
    pub kind: K,
    pub sent: u64,
    pub t_out: u64,
}

/// The entries of an association list as a map, later pairs winning.
pub open spec fn entries_map<K>(s: Seq<(u128, PendingMeta<K>)>) -> Map<u128, PendingMeta<K>>
    decreases s.len(),
{
    if s.len() == 0 {
        Map::empty()
    } else {
        entries_map(s.drop_last()).insert(s.last().0, s.last().1)
    }
}

pub proof fn lemma_entries_map_dom<K>(s: Seq<(u128, PendingMeta<K>)>)
    ensures
        forall|k: u128|
            entries_map(s).contains_key(k) <==> exists|i: int| 0 <= i < s.len() && (#[trigger] s[i]).0 == k,
    decreases s.len(),
{
    if s.len() > 0 {
        lemma_entries_map_dom(s.drop_last());
        assert forall|k: u128| entries_map(s).contains_key(k) implies exists|i: int|
            0 <= i < s.len() && (#[trigger] s[i]).0 == k by {
            let t = s.drop_last();
            if k == s.last().0 {
                assert(s[s.len() - 1].0 == k);
            } else {
                assert(entries_map(t).contains_key(k));
                let i = choose|i: int| 0 <= i < t.len() && (#[trigger] t[i]).0 == k;
                assert(t[i] == s[i]);
                assert(s[i].0 == k);
            }
        }
        assert forall|k: u128| (exists|i: int| 0 <= i < s.len() && (#[trigger] s[i]).0 == k)
            implies entries_map(s).contains_key(k) by {
            let i = choose|i: int| 0 <= i < s.len() && (#[trigger] s[i]).0 == k;
            let t = s.drop_last();
            if i < s.len() - 1 {
                assert(t[i] == s[i]);
                assert(exists|j: int| 0 <= j < t.len() && (#[trigger] t[j]).0 == k);
                assert(entries_map(t).contains_key(k));
            } else {
                assert(k == s.last().0);
            }
            assert(entries_map(s) == entries_map(t).insert(s.last().0, s.last().1));
        }
    }
}

proof fn lemma_entries_map_remove<K>(s: Seq<(u128, PendingMeta<K>)>, i: int)
    requires
        0 <= i < s.len(),
        forall|a: int, b: int| 0 <= a < b < s.len() ==> (#[trigger] s[a]).0 != (#[trigger] s[b]).0,
    ensures
        entries_map(s.remove(i)) == entries_map(s).remove(s[i].0),
    decreases s.len(),
{
    lemma_entries_map_dom(s.drop_last());
    if i == s.len() - 1 {
        assert(s.remove(i) =~= s.drop_last());
        assert(!entries_map(s.drop_last()).contains_key(s[i].0));
        assert(entries_map(s.drop_last()).remove(s[i].0) =~= entries_map(s.drop_last()));
        assert(entries_map(s).remove(s[i].0) =~= entries_map(s.drop_last()));
    } else {
        let t = s.drop_last();
        assert(s.remove(i).drop_last() =~= t.remove(i));
        assert(s.remove(i).last() == s.last());
        lemma_entries_map_remove(t, i);
        assert(entries_map(s.remove(i)) == entries_map(t).remove(t[i].0).insert(s.last().0, s.last().1));
        assert(s[i].0 != s.last().0);
        assert(entries_map(t).remove(t[i].0).insert(s.last().0, s.last().1) =~= entries_map(
            t,
        ).insert(s.last().0, s.last().1).remove(s[i].0));
    }
}

/// The outstanding exchanges, keyed by ticket identifier.
pub struct PendingTracker<K> {
    entries: Vec<(u128, PendingMeta<K>)>,
}

impl<K> View for PendingTracker<K> {
    type V = Map<u128, PendingMeta<K>>;

    closed spec fn view(&self) -> Map<u128, PendingMeta<K>> {
        entries_map(self.entries@)
    }
}

impl<K> PendingTracker<K> {
    /// Keys are pairwise distinct, so the map view loses nothing.
    pub closed spec fn wf(&self) -> bool {
        forall|a: int, b: int|
            0 <= a < b < self.entries@.len() ==> (#[trigger] self.entries@[a]).0 != (
            #[trigger] self.entries@[b]).0
    }

    pub fn new() -> (t: Self)
        ensures
            t.wf(),
            t@ == Map::<u128, PendingMeta<K>>::empty(),
    {
        PendingTracker { entries: Vec::new() }
    }

    /// Remove and return the entry of `id`, if any.
    fn remove_id(&mut self, id: u128) -> (r: Option<PendingMeta<K>>)
        requires
            old(self).wf(),
        ensures
            final(self).wf(),
            final(self)@ == old(self)@.remove(id),
            r == if old(self)@.contains_key(id) {
                Some(old(self)@[id])
            } else {
                Option::<PendingMeta<K>>::None
            },
    {
        let ghost s0 = self.entries@;
        let mut i: usize = 0;
        while i < self.entries.len()
            invariant
                self.entries@ == s0,
                old(self)@ == entries_map(s0),
                i <= s0.len(),
                forall|a: int, b: int| 0 <= a < b < s0.len() ==> (#[trigger] s0[a]).0 != (#[trigger] s0[b]).0,
                forall|j: int| 0 <= j < i ==> (#[trigger] s0[j]).0 != id,
            decreases s0.len() - i,
        {
            if self.entries[i].0 == id {
                proof {
                    lemma_entries_map_remove(s0, i as int);
                    lemma_entries_map_value(s0, i as int);
                    assert forall|a: int, b: int| 0 <= a < b < s0.remove(i as int).len() implies (
                    #[trigger] s0.remove(i as int)[a]).0 != (#[trigger] s0.remove(i as int)[b]).0 by {
                        assert(s0.remove(i as int)[a] == if a < i { s0[a] } else { s0[a + 1] });
                        assert(s0.remove(i as int)[b] == if b < i { s0[b] } else { s0[b + 1] });
                    }
                }
                let (_, meta) = self.entries.remove(i);
                return Some(meta);
            }
            i = i + 1;
        }
        proof {
            lemma_entries_map_dom(s0);
            assert(!old(self)@.contains_key(id));
            assert(old(self)@.remove(id) =~= old(self)@);
        }
        None
    }

    /// Record a fresh exchange of the given kind and budget, begun at `now`;
    /// the caller schedules a timer for `t_out` milliseconds under the
    /// returned ticket's identifier.
    pub fn add(&mut self, kind: K, t_out: u64, now: u64) -> (t: Ticket)
        requires
            old(self).wf(),
        ensures
            final(self).wf(),
            final(self)@ == old(self)@.insert(t.id, PendingMeta { kind, sent: now, t_out }),
    {
        let id = fresh_uuid();
        let _ = self.remove_id(id);
        let ghost s1 = self.entries@;
        proof {
            lemma_entries_map_dom(s1);
            assert(!entries_map(s1).contains_key(id));
            assert(forall|j: int| 0 <= j < s1.len() ==> (#[trigger] s1[j]).0 != id);
        }
        let meta = PendingMeta { kind, sent: now, t_out };
        self.entries.push((id, meta));
        proof {
            assert(self.entries@.drop_last() =~= s1);
            assert(entries_map(self.entries@) == entries_map(s1).insert(id, meta));
            assert(old(self)@.remove(id).insert(id, meta) =~= old(self)@.insert(id, meta));
        }
        Ticket { id }
    }

    /// Remove and hand out the entry of `t`: the delivery path of a fired
    /// timer or a matched reply.
    pub fn take(&mut self, t: Ticket) -> (r: Option<PendingMeta<K>>)
        requires
            old(self).wf(),
        ensures
            final(self).wf(),
            final(self)@ == old(self)@.remove(t.id),
            r == if old(self)@.contains_key(t.id) {
                Some(old(self)@[t.id])
            } else {
                Option::<PendingMeta<K>>::None
            },
    {
        self.remove_id(t.id)
    }

    /// Drop the entry of `t`, so that a later timer delivery finds nothing.
    pub fn cancel(&mut self, t: Ticket) -> (r: bool)
        requires
            old(self).wf(),
        ensures
            final(self).wf(),
            final(self)@ == old(self)@.remove(t.id),
            r == old(self)@.contains_key(t.id),
    {
        self.remove_id(t.id).is_some()
    }
}

/// In a distinct-key list the map view sends `s[i].0` to `s[i].1`.
proof fn lemma_entries_map_value<K>(s: Seq<(u128, PendingMeta<K>)>, i: int)
    requires
        0 <= i < s.len(),
        forall|a: int, b: int| 0 <= a < b < s.len() ==> (#[trigger] s[a]).0 != (#[trigger] s[b]).0,
    ensures
        entries_map(s).contains_key(s[i].0),
        entries_map(s)[s[i].0] == s[i].1,
    decreases s.len(),
{
    lemma_entries_map_dom(s);
    if i < s.len() - 1 {
        lemma_entries_map_value(s.drop_last(), i);
        assert(s.drop_last()[i] == s[i]);
    }
}

/// A cancelled ticket's later timeout finds nothing: after `cancel(t)` (or a
/// `take(t)`), the tracker no longer contains `t.id`, so the `take` the timer
/// delivery performs returns `None` and leaves the tracker as it was.
pub proof fn lemma_cancel_then_timeout_is_noop<K>(m: Map<u128, PendingMeta<K>>, id: u128)
    ensures
        !m.remove(id).contains_key(id),
        m.remove(id).remove(id) == m.remove(id),
{
    assert(m.remove(id).remove(id) =~= m.remove(id));
}

} // verus!
