//! Directory of connections and registration.
//!
//! The game keeps two tables: `pending_clients` (connected, not yet
//! registered) and `registered_clients`.  A connection is identified by the
//! 128-bit id it was assigned at accept time and by its session reference
//! (modelled as the session's runtime id).  A given session sits in exactly
//! one of the two tables; registration moves it from the first to the second.

use vstd::prelude::*;
use crate::data_types::{GameSettings, OutRespClientRegistered, TransportEnvelope, TransportMsg};

verus! {

/// What the directory records of a registered client.
#[derive(Debug, Clone, PartialEq, Eq)]
pub struct GameClientInfo {
    pub id: u128,
    pub key: String,
    pub name: String,
}

/// A registered client: its session reference and its public record.
#[derive(Debug, Clone, PartialEq, Eq)]
pub struct RegisteredClient {
    pub session: u64,
    pub info: GameClientInfo,
}

/// What the game asks its surroundings to do after a step.
#[derive(Debug, Clone, PartialEq, Eq)]
pub enum GameEffect {
    /// Hand the new member to the room.
    TellRoomAddClient { uuid: u128, session: u64 },
    /// Give the session its room reference.
    TellSessionSetRoom { session: u64 },
    /// Send a message to a session's transport.
    Send { session: u64, msg: TransportMsg },
}

/// The directory of connections.
pub struct GameActor {
    /// Connected sessions that have not registered, by connection id.
    pub pending_clients: Vec<(u128, u64)>,
    /// Registered clients, by connection id.
    pub registered_clients: Vec<(u128, RegisteredClient)>,
}

/// Copy a client record field by field.
pub(crate) fn dup_info(info: &GameClientInfo) -> (r: GameClientInfo)
    ensures
        r == *info,
{
    GameClientInfo { id: info.id, key: info.key.clone(), name: info.name.clone() }
}

impl GameActor {
    pub open spec fn pending_ids(&self) -> Seq<u128> {
        self.pending_clients@.map_values(|e: (u128, u64)| e.0)
    }

    pub open spec fn registered_ids(&self) -> Seq<u128> {
        self.registered_clients@.map_values(|e: (u128, RegisteredClient)| e.0)
    }

    pub open spec fn pending_sessions(&self) -> Seq<u64> {
        self.pending_clients@.map_values(|e: (u128, u64)| e.1)
    }

    pub open spec fn registered_sessions(&self) -> Seq<u64> {
        self.registered_clients@.map_values(|e: (u128, RegisteredClient)| e.1.session)
    }

    /// Connection ids are unique over both tables; so are sessions.  In
    /// particular no session appears both as pending and as registered, and
    /// each registered record carries its own key.
    pub open spec fn wf(&self) -> bool {
        &&& (self.pending_ids() + self.registered_ids()).no_duplicates()
        &&& (self.pending_sessions() + self.registered_sessions()).no_duplicates()
        &&& forall|i: int|
            0 <= i < self.registered_clients@.len() ==> (#[trigger] self.registered_clients@[i]).1.info.id
                == self.registered_clients@[i].0
    }

    /// Whether some connection, pending or registered, uses this session.
    pub open spec fn spec_knows_session(&self, session: u64) -> bool {
        (self.pending_sessions() + self.registered_sessions()).contains(session)
    }

    /// Whether some connection, pending or registered, carries this id.
    pub open spec fn spec_knows_id(&self, id: u128) -> bool {
        (self.pending_ids() + self.registered_ids()).contains(id)
    }

    pub fn new() -> (g: Self)
        ensures
            g.wf(),
            g.pending_clients@.len() == 0,
            g.registered_clients@.len() == 0,
    {
        GameActor { pending_clients: Vec::new(), registered_clients: Vec::new() }
    }

    pub fn knows_session(&self, session: u64) -> (r: bool)
        ensures
            r == self.spec_knows_session(session),
    {
        let mut i: usize = 0;
        while i < self.pending_clients.len()
            invariant
                i <= self.pending_clients@.len(),
                forall|j: int| 0 <= j < i ==> (#[trigger] self.pending_clients@[j]).1 != session,
            decreases self.pending_clients@.len() - i,
        {
            if self.pending_clients[i].1 == session {
                proof {
                    assert((self.pending_sessions() + self.registered_sessions())[i as int]
                        == session);
                }
                return true;
            }
            i = i + 1;
        }
        let mut j: usize = 0;
        while j < self.registered_clients.len()
            invariant
                j <= self.registered_clients@.len(),
                forall|k: int|
                    0 <= k < j ==> (#[trigger] self.registered_clients@[k]).1.session != session,
            decreases self.registered_clients@.len() - j,
        {
            if self.registered_clients[j].1.session == session {
                proof {
                    assert(self.registered_sessions()[j as int] == session);
                    assert((self.pending_sessions() + self.registered_sessions())[
                        self.pending_sessions().len() + j] == session);
                }
                return true;
            }
            j = j + 1;
        }
        proof {
            let all = self.pending_sessions() + self.registered_sessions();
            assert forall|k: int| 0 <= k < all.len() implies all[k] != session by {
                if k < self.pending_sessions().len() {
                    assert(self.pending_clients@[k].1 != session);
                } else {
                    assert(self.registered_clients@[k - self.pending_sessions().len()].1.session
                        != session);
                }
            }
        }
        false
    }

    pub fn knows_id(&self, id: u128) -> (r: bool)
        ensures
            r == self.spec_knows_id(id),
    {
        let mut i: usize = 0;
        while i < self.pending_clients.len()
            invariant
                i <= self.pending_clients@.len(),
                forall|j: int| 0 <= j < i ==> (#[trigger] self.pending_clients@[j]).0 != id,
            decreases self.pending_clients@.len() - i,
        {
            if self.pending_clients[i].0 == id {
                proof {
                    assert((self.pending_ids() + self.registered_ids())[i as int] == id);
                }
                return true;
            }
            i = i + 1;
        }
        let mut j: usize = 0;
        while j < self.registered_clients.len()
            invariant
                j <= self.registered_clients@.len(),
                forall|k: int| 0 <= k < j ==> (#[trigger] self.registered_clients@[k]).0 != id,
            decreases self.registered_clients@.len() - j,
        {
            if self.registered_clients[j].0 == id {
                proof {
                    assert(self.registered_ids()[j as int] == id);
                    assert((self.pending_ids() + self.registered_ids())[self.pending_ids().len()
                        + j] == id);
                }
                return true;
            }
            j = j + 1;
        }
        proof {
            let all = self.pending_ids() + self.registered_ids();
            assert forall|k: int| 0 <= k < all.len() implies all[k] != id by {
                if k < self.pending_ids().len() {
                    assert(self.pending_clients@[k].0 != id);
                } else {
                    assert(self.registered_clients@[k - self.pending_ids().len()].0 != id);
                }
            }
        }
        false
    }

    /// The record of the first registered client with this id, if any.
    pub open spec fn spec_find_registered(reg: Seq<(u128, RegisteredClient)>, id: u128) -> Option<
        GameClientInfo,
    >
        decreases reg.len(),
    {
        if reg.len() == 0 {
            None
        } else if reg[0].0 == id {
            Some(reg[0].1.info)
        } else {
            Self::spec_find_registered(reg.drop_first(), id)
        }
    }

    /// The records for the given ids, input order kept, unknown ids skipped.
    pub open spec fn spec_infos_for(
        reg: Seq<(u128, RegisteredClient)>,
        ids: Seq<u128>,
    ) -> Seq<GameClientInfo>
        decreases ids.len(),
    {
        if ids.len() == 0 {
            Seq::empty()
        } else {
            let rest = Self::spec_infos_for(reg, ids.drop_last());
            match Self::spec_find_registered(reg, ids.last()) {
                Some(info) => rest.push(info),
                None => rest,
            }
        }
    }

    fn find_registered(&self, id: u128) -> (r: Option<GameClientInfo>)
        ensures
            r == Self::spec_find_registered(self.registered_clients@, id),
    {
        let ghost whole = self.registered_clients@;
        proof {
            assert(whole.skip(0) =~= whole);
        }
        let mut j: usize = 0;
        while j < self.registered_clients.len()
            invariant
                self.registered_clients@ == whole,
                j <= whole.len(),
                Self::spec_find_registered(whole, id) == Self::spec_find_registered(
                    whole.skip(j as int),
                    id,
                ),
            decreases whole.len() - j,
        {
            proof {
                assert(whole.skip(j as int)[0] == whole[j as int]);
                assert(whole.skip(j as int).drop_first() =~= whole.skip(j + 1));
            }
            if self.registered_clients[j].0 == id {
                return Some(dup_info(&self.registered_clients[j].1.info));
            }
            j = j + 1;
        }
        proof {
            assert(whole.skip(whole.len() as int) =~= Seq::<(u128, RegisteredClient)>::empty());
        }
        None
    }

    /// The `{id, key, name}` records for each known registered id, in input
    /// order, skipping unknown ids.
    pub fn get_clients_info(&self, ids: &Vec<u128>) -> (r: Vec<GameClientInfo>)
        ensures
            r@ == Self::spec_infos_for(self.registered_clients@, ids@),
    {
        let mut out: Vec<GameClientInfo> = Vec::new();
        let mut k: usize = 0;
        while k < ids.len()
            invariant
                k <= ids@.len(),
                out@ == Self::spec_infos_for(self.registered_clients@, ids@.take(k as int)),
            decreases ids@.len() - k,
        {
            proof {
                assert(ids@.take(k + 1).drop_last() =~= ids@.take(k as int));
                assert(ids@.take(k + 1).last() == ids@[k as int]);
            }
            match self.find_registered(ids[k]) {
                Some(info) => out.push(info),
                None => (),
            }
            k = k + 1;
        }
        proof {
            assert(ids@.take(ids@.len() as int) =~= ids@);
        }
        out
    }

    /// Move the pending entry of `session` to the registered table under the
    /// record `{id, key, name}`, hand the member to the room, give the
    /// session its room reference, and reply with the assigned id and the
    /// default settings.  A session with no pending entry is ignored.
    pub fn register_client_request(&mut self, session: u64, name: String, pub_key: String, corr: u128)
        -> (r: (Option<u128>, Vec<GameEffect>))
        requires
            old(self).wf(),
        ensures
            final(self).wf(),
            r.0 is None ==> *final(self) == *old(self) && r.1@.len() == 0 && !old(
                self,
            ).pending_sessions().contains(session),
            r.0 matches Some(u) ==> {
                &&& exists|i: int|
                    {
                        &&& 0 <= i < old(self).pending_clients@.len()
                        &&& old(self).pending_clients@[i] == (u, session)
                        &&& final(self).pending_clients@ == old(self).pending_clients@.remove(i)
                    }
                &&& final(self).registered_clients@ == old(self).registered_clients@.push(
                    (u, RegisteredClient { session, info: GameClientInfo { id: u, key: pub_key, name } }),
                )
                &&& r.1@.len() == 3
                &&& r.1@[0] == GameEffect::TellRoomAddClient { uuid: u, session }
                &&& r.1@[1] == (GameEffect::TellSessionSetRoom { session })
                &&& r.1@[2] == (GameEffect::Send {
                    session,
                    msg: TransportMsg::OutRespClientRegistered(
                        TransportEnvelope {
                            correlation_id: corr,
                            payload: OutRespClientRegistered {
                                id: u,
                                game_settings: crate::data_types::spec_default_settings(),
                            },
                        },
                    ),
                })
            },
    {
        let mut i: usize = 0;
        while i < self.pending_clients.len()
            invariant
                old(self).wf(),
                *self == *old(self),
                i <= old(self).pending_clients@.len(),
                forall|j: int| 0 <= j < i ==> (#[trigger] old(self).pending_clients@[j]).1 != session,
            decreases old(self).pending_clients@.len() - i,
        {
            if self.pending_clients[i].1 == session {
                let uuid = self.pending_clients[i].0;
                self.pending_clients.remove(i);
                let record = RegisteredClient {
                    session,
                    info: GameClientInfo { id: uuid, key: pub_key, name },
                };
                self.registered_clients.push((uuid, record));
                proof {
                    assert(old(self).pending_clients@[i as int] == (uuid, session));
                    assert(self.pending_ids() =~= old(self).pending_ids().remove(i as int));
                    assert(self.pending_sessions() =~= old(self).pending_sessions().remove(
                        i as int,
                    ));
                    assert(self.registered_ids() =~= old(self).registered_ids().push(uuid));
                    assert(self.registered_sessions() =~= old(self).registered_sessions().push(
                        session,
                    ));
                    assert(old(self).pending_ids()[i as int] == uuid);
                    assert(old(self).pending_sessions()[i as int] == session);
                    lemma_move_concat(old(self).pending_ids(), old(self).registered_ids(),
                        i as int);
                    lemma_move_concat(
                        old(self).pending_sessions(),
                        old(self).registered_sessions(),
                        i as int,
                    );
                }
                let mut effects: Vec<GameEffect> = Vec::new();
                effects.push(GameEffect::TellRoomAddClient { uuid, session });
                effects.push(GameEffect::TellSessionSetRoom { session });
                effects.push(
                    GameEffect::Send {
                        session,
                        msg: TransportMsg::OutRespClientRegistered(
                            TransportEnvelope {
                                correlation_id: corr,
                                payload: OutRespClientRegistered {
                                    id: uuid,
                                    game_settings: GameSettings::default(),
                                },
                            },
                        ),
                    },
                );
                return (Some(uuid), effects);
            }
            i = i + 1;
        }
        proof {
            assert forall|j: int| 0 <= j < self.pending_sessions().len() implies (
            #[trigger] self.pending_sessions()[j]) != session by {
                assert(old(self).pending_clients@[j].1 != session);
            }
        }
        (None, Vec::new())
    }

    /// A linked child stopped: drop its entry, pending or registered.  An
    /// unknown child stops the game too unless it stopped normally; the
    /// second component says whether the game carries on.
    pub fn on_link_died(&mut self, session: u64, reason_normal: bool) -> (r: (Option<u128>, bool))
        requires
            old(self).wf(),
        ensures
            final(self).wf(),
            r.0 is None ==> *final(self) == *old(self) && !old(self).spec_knows_session(session)
                && r.1 == reason_normal,
            r.0 matches Some(u) ==> r.1 && {
                ||| exists|i: int|
                    {
                        &&& 0 <= i < old(self).pending_clients@.len()
                        &&& old(self).pending_clients@[i] == (u, session)
                        &&& final(self).pending_clients@ == old(self).pending_clients@.remove(i)
                        &&& final(self).registered_clients == old(self).registered_clients
                    }
                ||| exists|i: int|
                    {
                        &&& 0 <= i < old(self).registered_clients@.len()
                        &&& (#[trigger] old(self).registered_clients@[i]).1.session == session
                        &&& old(self).registered_clients@[i].0 == u
                        &&& final(self).registered_clients@ == old(
                            self,
                        ).registered_clients@.remove(i)
                        &&& final(self).pending_clients == old(self).pending_clients
                    }
            },
    {
        let ghost p0 = old(self).pending_clients@;
        let ghost r0 = old(self).registered_clients@;
        let mut i: usize = 0;
        while i < self.pending_clients.len()
            invariant
                old(self).wf(),
                *self == *old(self),
                self.pending_clients@ == p0,
                self.registered_clients@ == r0,
                i <= p0.len(),
                forall|j: int| 0 <= j < i ==> (#[trigger] p0[j]).1 != session,
            decreases p0.len() - i,
        {
            if self.pending_clients[i].1 == session {
                let uuid = self.pending_clients[i].0;
                self.pending_clients.remove(i);
                proof {
                    assert(self.pending_ids() =~= old(self).pending_ids().remove(i as int));
                    assert(self.pending_sessions() =~= old(self).pending_sessions().remove(
                        i as int,
                    ));
                    lemma_remove_concat(old(self).pending_ids(), old(self).registered_ids(),
                        i as int);
                    lemma_remove_concat(
                        old(self).pending_sessions(),
                        old(self).registered_sessions(),
                        i as int,
                    );
                }
                return (Some(uuid), true);
            }
            i = i + 1;
        }
        let mut j: usize = 0;
        while j < self.registered_clients.len()
            invariant
                old(self).wf(),
                *self == *old(self),
                self.pending_clients@ == p0,
                self.registered_clients@ == r0,
                j <= r0.len(),
                forall|k: int| 0 <= k < j ==> (#[trigger] r0[k]).1.session != session,
            decreases r0.len() - j,
        {
            if self.registered_clients[j].1.session == session {
                let uuid = self.registered_clients[j].0;
                self.registered_clients.remove(j);
                proof {
                    assert(self.registered_ids() =~= old(self).registered_ids().remove(j as int));
                    assert(self.registered_sessions() =~= old(self).registered_sessions().remove(
                        j as int,
                    ));
                    lemma_remove_concat_right(old(self).pending_ids(), old(self).registered_ids(),
                        j as int);
                    lemma_remove_concat_right(
                        old(self).pending_sessions(),
                        old(self).registered_sessions(),
                        j as int,
                    );
                }
                return (Some(uuid), true);
            }
            j = j + 1;
        }
        proof {
            let all = self.pending_sessions() + self.registered_sessions();
            assert forall|k: int| 0 <= k < all.len() implies all[k] != session by {
                if k < self.pending_sessions().len() {
                    assert(p0[k].1 != session);
                } else {
                    assert(r0[k - self.pending_sessions().len()].1.session != session);
                }
            }
        }
        (None, reason_normal)
    }

    /// Record a fresh connection under a fresh id, pending registration.
    /// The id is assigned at accept time, before anything is known of the
    /// peer.
    pub fn new_client(&mut self, uuid: u128, session: u64)
        requires
            old(self).wf(),
            !old(self).spec_knows_id(uuid),
            !old(self).spec_knows_session(session),
        ensures
            final(self).wf(),
            final(self).pending_clients@ == old(self).pending_clients@.push((uuid, session)),
            final(self).registered_clients == old(self).registered_clients,
    {
        self.pending_clients.push((uuid, session));
        proof {
            lemma_push_front_concat(old(self).pending_clients@.map_values(|e: (u128, u64)| e.0),
                self.registered_ids(), uuid);
            lemma_push_front_concat(old(self).pending_clients@.map_values(|e: (u128, u64)| e.1),
                self.registered_sessions(), session);
            assert(self.pending_ids() =~= old(self).pending_ids().push(uuid));
            assert(self.pending_sessions() =~= old(self).pending_sessions().push(session));
        }
    }
}

/// No session appears both as pending and as registered.
pub proof fn lemma_pending_registered_disjoint(g: &GameActor)
    requires
        g.wf(),
    ensures
        forall|i: int, j: int|
            0 <= i < g.pending_clients@.len() && 0 <= j < g.registered_clients@.len() ==> (
            #[trigger] g.pending_clients@[i]).1 != (#[trigger] g.registered_clients@[j]).1.session,
{
    assert forall|i: int, j: int|
        0 <= i < g.pending_clients@.len() && 0 <= j < g.registered_clients@.len() implies (
    #[trigger] g.pending_clients@[i]).1 != (#[trigger] g.registered_clients@[j]).1.session by {
        let all = g.pending_sessions() + g.registered_sessions();
        assert(all[i] == g.pending_clients@[i].1);
        assert(all[g.pending_sessions().len() + j] == g.registered_clients@[j].1.session);
    }
}

/// Removing an element on the left of a duplicate-free concatenation and
/// appending it on the right keeps it duplicate-free.
proof fn lemma_move_concat<A>(s: Seq<A>, t: Seq<A>, i: int)
    requires
        (s + t).no_duplicates(),
        0 <= i < s.len(),
    ensures
        (s.remove(i) + t.push(s[i])).no_duplicates(),
{
    let a = s + t;
    let b = s.remove(i) + t.push(s[i]);
    let f = |k: int|
        if k < i {
            k
        } else if k < b.len() - 1 {
            k + 1
        } else {
            i
        };
    assert forall|p: int, q: int| 0 <= p < q < b.len() implies b[p] != b[q] by {
        assert(b[p] == a[f(p)]);
        assert(b[q] == a[f(q)]);
        assert(f(p) != f(q));
    }
}

/// Removing an element on the left of a duplicate-free concatenation keeps it
/// duplicate-free.
proof fn lemma_remove_concat<A>(s: Seq<A>, t: Seq<A>, i: int)
    requires
        (s + t).no_duplicates(),
        0 <= i < s.len(),
    ensures
        (s.remove(i) + t).no_duplicates(),
{
    let a = s + t;
    let b = s.remove(i) + t;
    let f = |k: int|
        if k < i {
            k
        } else {
            k + 1
        };
    assert forall|p: int, q: int| 0 <= p < q < b.len() implies b[p] != b[q] by {
        assert(b[p] == a[f(p)]);
        assert(b[q] == a[f(q)]);
    }
}

/// Removing an element on the right of a duplicate-free concatenation keeps
/// it duplicate-free.
proof fn lemma_remove_concat_right<A>(s: Seq<A>, t: Seq<A>, j: int)
    requires
        (s + t).no_duplicates(),
        0 <= j < t.len(),
    ensures
        (s + t.remove(j)).no_duplicates(),
{
    let a = s + t;
    let b = s + t.remove(j);
    let f = |k: int|
        if k < s.len() + j {
            k
        } else {
            k + 1
        };
    assert forall|p: int, q: int| 0 <= p < q < b.len() implies b[p] != b[q] by {
        assert(b[p] == a[f(p)]);
        assert(b[q] == a[f(q)]);
    }
}

/// Appending one fresh element on the left half of a concatenation keeps it
/// duplicate-free.
proof fn lemma_push_front_concat<A>(s: Seq<A>, t: Seq<A>, x: A)
    requires
        (s + t).no_duplicates(),
        !(s + t).contains(x),
    ensures
        (s.push(x) + t).no_duplicates(),
{
    let a = s + t;
    let b = s.push(x) + t;
    assert forall|i: int, j: int| 0 <= i < j < b.len() implies b[i] != b[j] by {
        if i < s.len() {
            assert(b[i] == a[i]);
        } else if i == s.len() {
            assert(b[i] == x);
        } else {
            assert(b[i] == a[i - 1]);
        }
        if j < s.len() {
            assert(b[j] == a[j]);
        } else if j == s.len() {
            assert(b[j] == x);
        } else {
            assert(b[j] == a[j - 1]);
        }
        if i == s.len() {
            assert(!a.contains(x));
            assert(b[j] == a[j - 1]);
        } else if j == s.len() {
            assert(!a.contains(x));
        }
    }
}

} // verus!
