//! The room: membership, admin election, settings, chat, and the round state
//! machine.
//!
//! A room holds its members in arrival order, with exactly one admin while it
//! is nonempty.  A game is a sequence of rounds: the admin supplies a
//! question on demand, members answer under a time budget, results are
//! broadcast.  Each handler takes one message (plus the driver's clock) and
//! returns the effects to perform: sends, broadcasts in member order, and
//! timer schedules for the pending-request tracker.

use vstd::prelude::*;
use crate::data_types::{
    AnswerInfo, ClientInfo, GameSettings, OutNotifAdminMade, OutNotifChatSent,
    OutNotifClientAnswered, OutNotifClientDisconnected, OutNotifClientRegistered,
    OutNotifGameSettingsChanged, OutNotifGameStarted, OutNotifGameStopped, OutNotifQuestion,
    OutNotifRoundEnded, OutReqQuestion, OutRespClientList, QuestionInfo, TransportEnvelope,
    TransportMsg, answer_is_correct, is_default_question, is_status_msg, status_msg,
};
use crate::game_actor::GameClientInfo;
use crate::ids::fresh_uuid;
use crate::pending_tracker::{PendingMeta, PendingTracker, Ticket, Timeout};

verus! {

/// What an outstanding room exchange was for: a question request to the
/// admin, or a running round's time budget.
#[derive(Clone, Copy, Debug, PartialEq, Eq)]
pub enum RoomPending {
    Question { uuid: u128 },
    Round,
}

/// A member's room-local record.
#[derive(Clone, Copy, Debug, PartialEq, Eq)]
pub struct RoomClientInfo {
    pub is_admin: bool,
}

/// A member: its session reference and its room-local record.
#[derive(Clone, Copy, Debug, PartialEq, Eq)]
pub struct RoomClient {
    pub session: u64,
    pub room_info: RoomClientInfo,
}

/// What the room asks its surroundings to do after a step.
#[derive(Debug, Clone, PartialEq, Eq)]
pub enum RoomEffect {
    /// Send a message to one session's transport.
    Send { session: u64, msg: TransportMsg },
    /// Send a message to every listed session, in order.
    Broadcast { sessions: Vec<u64>, msg: TransportMsg },
    /// Start a timer: deliver `Timeout(id)` after `timeout_ms` milliseconds.
    Schedule { id: u128, timeout_ms: u64 },
}

/// The room's state.
pub struct RoomActor {
    pub name: String,
    /// Members in arrival order, by connection id.
    pub clients: Vec<(u128, RoomClient)>,
    pub game_settings: GameSettings,
    pub current_question: Option<QuestionInfo>,
    /// Answers of the running round, in arrival order.
    pub current_answers: Vec<AnswerInfo>,
    pub is_game_running: bool,
    pub round_ticket: Option<Ticket>,
    pub pending: PendingTracker<RoomPending>,
    /// When the running round began (driver clock, milliseconds).
    pub round_start: Option<u64>,
    pub rounds_played: u64,
}

pub open spec fn member_ids(s: Seq<(u128, RoomClient)>) -> Seq<u128> {
    s.map_values(|c: (u128, RoomClient)| c.0)
}

pub open spec fn member_sessions(s: Seq<(u128, RoomClient)>) -> Seq<u64> {
    s.map_values(|c: (u128, RoomClient)| c.1.session)
}

pub open spec fn answer_ids(s: Seq<AnswerInfo>) -> Seq<u128> {
    s.map_values(|a: AnswerInfo| a.id)
}

/// How many members are admin.
pub open spec fn num_admins(s: Seq<(u128, RoomClient)>) -> int
    decreases s.len(),
{
    if s.len() == 0 {
        0
    } else {
        num_admins(s.drop_last()) + if s.last().1.room_info.is_admin {
            1int
        } else {
            0int
        }
    }
}

/// Seconds to milliseconds, capped at the largest 64-bit value.
pub open spec fn ms_of_secs(secs: u64) -> u64 {
    if secs * 1000 > u64::MAX {
        u64::MAX
    } else {
        (secs * 1000) as u64
    }
}

impl RoomActor {
    /// Member ids and sessions are unique; exactly one member is admin while
    /// the room is nonempty, none otherwise; the running round's answers
    /// carry pairwise distinct ids; the tracker is intact.
    pub open spec fn wf(&self) -> bool {
        &&& member_ids(self.clients@).no_duplicates()
        &&& member_sessions(self.clients@).no_duplicates()
        &&& num_admins(self.clients@) == if self.clients@.len() == 0 {
            0int
        } else {
            1int
        }
        &&& answer_ids(self.current_answers@).no_duplicates()
        &&& self.pending.wf()
    }

    /// While a game runs, the rounds played stay below the configured count.
    pub open spec fn rounds_in_bounds(&self) -> bool {
        self.is_game_running ==> self.rounds_played < self.game_settings.rounds_count
    }

    pub open spec fn has_member_session(&self, session: u64) -> bool {
        exists|i: int| 0 <= i < self.clients@.len() && (#[trigger] self.clients@[i]).1.session == session
    }

    pub fn new(name: String) -> (r: Self)
        ensures
            r.wf(),
            r.rounds_in_bounds(),
            r.name == name,
            r.clients@.len() == 0,
            r.game_settings == crate::data_types::spec_default_settings(),
            r.current_question is None,
            r.current_answers@.len() == 0,
            !r.is_game_running,
            r.round_ticket is None,
            r.pending@ == Map::<u128, PendingMeta<RoomPending>>::empty(),
            r.round_start is None,
            r.rounds_played == 0,
    {
        RoomActor {
            name,
            clients: Vec::new(),
            game_settings: GameSettings::default(),
            current_question: None,
            current_answers: Vec::new(),
            is_game_running: false,
            round_ticket: None,
            pending: PendingTracker::new(),
            round_start: None,
            rounds_played: 0,
        }
    }

    /// The member record of `session`, if any.
    fn find_client(&self, session: u64) -> (r: Option<(u128, RoomClientInfo)>)
        requires
            self.wf(),
        ensures
            match r {
                Some((uuid, info)) => exists|i: int|
                    0 <= i < self.clients@.len() && (#[trigger] self.clients@[i]) == (
                    uuid,
                    RoomClient { session, room_info: info },
                ),
                None => !self.has_member_session(session),
            },
    {
        let mut i: usize = 0;
        while i < self.clients.len()
            invariant
                i <= self.clients@.len(),
                forall|j: int| 0 <= j < i ==> (#[trigger] self.clients@[j]).1.session != session,
            decreases self.clients@.len() - i,
        {
            let (uuid, c) = self.clients[i];
            if c.session == session {
                return Some((uuid, c.room_info));
            }
            i = i + 1;
        }
        None
    }

    /// The sessions of all members, in member order: the fan-out list of a
    /// broadcast.
    fn sessions_vec(&self) -> (r: Vec<u64>)
        ensures
            r@ == member_sessions(self.clients@),
    {
        let mut r: Vec<u64> = Vec::new();
        let mut i: usize = 0;
        while i < self.clients.len()
            invariant
                i <= self.clients@.len(),
                r@ == member_sessions(self.clients@).take(i as int),
            decreases self.clients@.len() - i,
        {
            r.push(self.clients[i].1.session);
            proof {
                assert(r@ =~= member_sessions(self.clients@).take(i + 1));
            }
            i = i + 1;
        }
        proof {
            assert(member_sessions(self.clients@).take(self.clients@.len() as int) =~= member_sessions(
                self.clients@,
            ));
        }
        r
    }

    /// Wrap `msg` as a broadcast to the current members.
    fn broadcast_effect(&self, msg: TransportMsg) -> (e: RoomEffect)
        ensures
            match e {
                RoomEffect::Broadcast { sessions, msg: m } => sessions@ == member_sessions(
                    self.clients@,
                ) && m == msg,
                _ => false,
            },
    {
        RoomEffect::Broadcast { sessions: self.sessions_vec(), msg }
    }
}

/// The effect is a status reply to `session`.
pub open spec fn is_send_status(e: RoomEffect, session: u64, corr: u128, status: Seq<char>) -> bool {
    match e {
        RoomEffect::Send { session: s, msg } => s == session && is_status_msg(msg, corr, status),
        _ => false,
    }
}

/// The effect is a broadcast of `msg`-shaped content to exactly `sessions`.
pub open spec fn is_broadcast_to(e: RoomEffect, sessions: Seq<u64>) -> bool {
    match e {
        RoomEffect::Broadcast { sessions: s, msg: _ } => s@ == sessions,
        _ => false,
    }
}

/// The message carried by a send or broadcast effect.
pub open spec fn effect_msg(e: RoomEffect) -> TransportMsg
    recommends
        !(e is Schedule),
{
    match e {
        RoomEffect::Send { session: _, msg } => msg,
        RoomEffect::Broadcast { sessions: _, msg } => msg,
        RoomEffect::Schedule { .. } => arbitrary(),
    }
}

pub open spec fn is_chat_notif(m: TransportMsg, id: u128, message: Seq<char>) -> bool {
    match m {
        TransportMsg::OutNotifChatSent(e) => e.payload.id == id && e.payload.message@ == message,
        _ => false,
    }
}

pub open spec fn is_admin_made_notif(m: TransportMsg, id: u128) -> bool {
    match m {
        TransportMsg::OutNotifAdminMade(e) => e.payload.id == id,
        _ => false,
    }
}

pub open spec fn is_disconnected_notif(m: TransportMsg, id: u128) -> bool {
    match m {
        TransportMsg::OutNotifClientDisconnected(e) => e.payload.id == id,
        _ => false,
    }
}

pub open spec fn is_registered_notif(m: TransportMsg, info: ClientInfo) -> bool {
    match m {
        TransportMsg::OutNotifClientRegistered(e) => e.payload.client == info,
        _ => false,
    }
}

pub open spec fn is_settings_notif(m: TransportMsg, settings: GameSettings) -> bool {
    match m {
        TransportMsg::OutNotifGameSettingsChanged(e) => e.payload.game_settings == settings,
        _ => false,
    }
}

pub open spec fn is_game_started_notif(m: TransportMsg, settings: GameSettings) -> bool {
    match m {
        TransportMsg::OutNotifGameStarted(e) => e.payload.game_settings == settings,
        _ => false,
    }
}

pub open spec fn is_answered_notif(m: TransportMsg, id: u128) -> bool {
    match m {
        TransportMsg::OutNotifClientAnswered(e) => e.payload.id == id,
        _ => false,
    }
}

pub open spec fn is_question_notif(m: TransportMsg, svg: Seq<char>) -> bool {
    match m {
        TransportMsg::OutNotifQuestion(e) => e.payload.question_svg@ == svg,
        _ => false,
    }
}

pub open spec fn is_out_req_question(m: TransportMsg, corr: u128) -> bool {
    match m {
        TransportMsg::OutReqQuestion(e) => e.correlation_id == corr,
        _ => false,
    }
}

/// The round-ended notification's payload, if the message is one.
pub open spec fn as_round_ended(m: TransportMsg) -> Option<OutNotifRoundEnded> {
    match m {
        TransportMsg::OutNotifRoundEnded(e) => Some(e.payload),
        _ => None,
    }
}

/// The game-stopped notification's payload, if the message is one.
pub open spec fn as_game_stopped(m: TransportMsg) -> Option<OutNotifGameStopped> {
    match m {
        TransportMsg::OutNotifGameStopped(e) => Some(e.payload),
        _ => None,
    }
}

/// Every reply among the effects echoes the request's correlation id.
pub open spec fn replies_echo(effects: Seq<RoomEffect>, corr: u128) -> bool {
    forall|k: int|
        0 <= k < effects.len() ==> match #[trigger] effects[k] {
            RoomEffect::Send { session: _, msg } => msg.is_out_resp() ==> msg.corr_of() == corr,
            RoomEffect::Broadcast { sessions: _, msg } => !msg.is_out_resp(),
            RoomEffect::Schedule { .. } => true,
        }
}

proof fn lemma_num_admins_remove(s: Seq<(u128, RoomClient)>, i: int)
    requires
        0 <= i < s.len(),
    ensures
        num_admins(s.remove(i)) == num_admins(s) - if s[i].1.room_info.is_admin {
            1int
        } else {
            0int
        },
    decreases s.len(),
{
    if i == s.len() - 1 {
        assert(s.remove(i) =~= s.drop_last());
    } else {
        assert(s.remove(i).drop_last() =~= s.drop_last().remove(i));
        assert(s.remove(i).last() == s.last());
        lemma_num_admins_remove(s.drop_last(), i);
    }
}

proof fn lemma_num_admins_insert(s: Seq<(u128, RoomClient)>, i: int, x: (u128, RoomClient))
    requires
        0 <= i <= s.len(),
    ensures
        num_admins(s.insert(i, x)) == num_admins(s) + if x.1.room_info.is_admin {
            1int
        } else {
            0int
        },
    decreases s.len(),
{
    let u = s.insert(i, x);
    if i == s.len() {
        assert(u.drop_last() =~= s);
        assert(u.last() == x);
    } else {
        assert(u.drop_last() =~= s.drop_last().insert(i, x));
        assert(u.last() == s.last());
        lemma_num_admins_insert(s.drop_last(), i, x);
    }
}

proof fn lemma_num_admins_zero(s: Seq<(u128, RoomClient)>)
    ensures
        num_admins(s) >= 0,
        (num_admins(s) == 0 <==> forall|i: int|
            0 <= i < s.len() ==> !(#[trigger] s[i]).1.room_info.is_admin),
    decreases s.len(),
{
    if s.len() > 0 {
        lemma_num_admins_zero(s.drop_last());
        if num_admins(s) == 0 {
            assert forall|i: int| 0 <= i < s.len() implies !(#[trigger] s[i]).1.room_info.is_admin by {
                if i < s.len() - 1 {
                    assert(s.drop_last()[i] == s[i]);
                }
            }
        } else {
            if num_admins(s.drop_last()) > 0 {
                let i = choose|i: int|
                    0 <= i < s.drop_last().len() && (#[trigger] s.drop_last()[i]).1.room_info.is_admin;
                assert(s[i].1.room_info.is_admin);
            }
        }
    }
}

impl RoomActor {
    /// Add a registered member: the first member in becomes admin.  When the
    /// game directory supplied the member's record, everyone (the newcomer
    /// included) is told of the registration, then either of the new admin or
    /// — so that late joiners see them — of the current settings.
    pub fn add_client(&mut self, uuid: u128, session: u64, info: Option<GameClientInfo>) -> (effects:
        Vec<RoomEffect>)
        requires
            old(self).wf(),
            !member_ids(old(self).clients@).contains(uuid),
            !member_sessions(old(self).clients@).contains(session),
        ensures
            final(self).wf(),
            final(self).clients@ == old(self).clients@.push(
                (
                    uuid,
                    RoomClient {
                        session,
                        room_info: RoomClientInfo { is_admin: old(self).clients@.len() == 0 },
                    },
                ),
            ),
            final(self).game_settings == old(self).game_settings,
            final(self).current_question == old(self).current_question,
            final(self).current_answers == old(self).current_answers,
            final(self).is_game_running == old(self).is_game_running,
            final(self).round_ticket == old(self).round_ticket,
            final(self).pending@ == old(self).pending@,
            final(self).round_start == old(self).round_start,
            final(self).rounds_played == old(self).rounds_played,
            old(self).rounds_in_bounds() ==> final(self).rounds_in_bounds(),
            match info {
                None => effects@.len() == 0,
                Some(g) => {
                    &&& effects@.len() == 2
                    &&& is_broadcast_to(effects@[0], member_sessions(final(self).clients@))
                    &&& is_registered_notif(
                        effect_msg(effects@[0]),
                        ClientInfo {
                            id: g.id,
                            key: g.key,
                            name: g.name,
                            is_admin: old(self).clients@.len() == 0,
                        },
                    )
                    &&& is_broadcast_to(effects@[1], member_sessions(final(self).clients@))
                    &&& if old(self).clients@.len() == 0 {
                        is_admin_made_notif(effect_msg(effects@[1]), uuid)
                    } else {
                        is_settings_notif(effect_msg(effects@[1]), old(self).game_settings)
                    }
                },
            },
    {
        let is_admin = self.clients.len() == 0;
        self.clients.push((uuid, RoomClient { session, room_info: RoomClientInfo { is_admin } }));
        proof {
            assert(member_ids(self.clients@) =~= member_ids(old(self).clients@).push(uuid));
            assert(member_sessions(self.clients@) =~= member_sessions(old(self).clients@).push(
                session,
            ));
            lemma_push_unique(member_ids(old(self).clients@), uuid);
            lemma_push_unique(member_sessions(old(self).clients@), session);
            lemma_num_admins_insert(
                old(self).clients@,
                old(self).clients@.len() as int,
                (uuid, RoomClient { session, room_info: RoomClientInfo { is_admin } }),
            );
            assert(old(self).clients@.insert(
                old(self).clients@.len() as int,
                (uuid, RoomClient { session, room_info: RoomClientInfo { is_admin } }),
            ) =~= self.clients@);
        }
        let mut effects: Vec<RoomEffect> = Vec::new();
        let g = match info {
            Some(g) => g,
            None => {
                return effects;
            },
        };
        let client_info = ClientInfo { id: g.id, key: g.key, name: g.name, is_admin };
        effects.push(
            self.broadcast_effect(
                TransportMsg::OutNotifClientRegistered(
                    TransportEnvelope {
                        correlation_id: fresh_uuid(),
                        payload: OutNotifClientRegistered { client: client_info },
                    },
                ),
            ),
        );
        if is_admin {
            effects.push(
                self.broadcast_effect(
                    TransportMsg::OutNotifAdminMade(
                        TransportEnvelope {
                            correlation_id: fresh_uuid(),
                            payload: OutNotifAdminMade { id: uuid },
                        },
                    ),
                ),
            );
        } else {
            let settings = dup_settings(&self.game_settings);
            effects.push(
                self.broadcast_effect(
                    TransportMsg::OutNotifGameSettingsChanged(
                        TransportEnvelope {
                            correlation_id: fresh_uuid(),
                            payload: OutNotifGameSettingsChanged { game_settings: settings },
                        },
                    ),
                ),
            );
        }
        effects
    }
}

/// The member list with its first member made admin.
pub open spec fn promote_first(s: Seq<(u128, RoomClient)>) -> Seq<(u128, RoomClient)>
    recommends
        s.len() > 0,
{
    s.update(0, (s[0].0, RoomClient { session: s[0].1.session, room_info: RoomClientInfo { is_admin: true } }))
}

/// The record of the first listed client with this id, if any.
pub open spec fn find_info(infos: Seq<GameClientInfo>, id: u128) -> Option<GameClientInfo>
    decreases infos.len(),
{
    if infos.len() == 0 {
        None
    } else if infos[0].id == id {
        Some(infos[0])
    } else {
        find_info(infos.drop_first(), id)
    }
}

/// The member list as shown to clients: member order, members the directory
/// does not know skipped, admin flags from the room.
pub open spec fn client_list_spec(
    members: Seq<(u128, RoomClient)>,
    infos: Seq<GameClientInfo>,
) -> Seq<ClientInfo>
    decreases members.len(),
{
    if members.len() == 0 {
        Seq::empty()
    } else {
        let rest = client_list_spec(members.drop_last(), infos);
        match find_info(infos, members.last().0) {
            Some(g) => rest.push(
                ClientInfo {
                    id: g.id,
                    key: g.key,
                    name: g.name,
                    is_admin: members.last().1.room_info.is_admin,
                },
            ),
            None => rest,
        }
    }
}

proof fn lemma_remove_unique<A>(s: Seq<A>, i: int)
    requires
        s.no_duplicates(),
        0 <= i < s.len(),
    ensures
        s.remove(i).no_duplicates(),
{
    let t = s.remove(i);
    assert forall|a: int, b: int| 0 <= a < b < t.len() implies t[a] != t[b] by {
        assert(t[a] == if a < i {
            s[a]
        } else {
            s[a + 1]
        });
        assert(t[b] == if b < i {
            s[b]
        } else {
            s[b + 1]
        });
    }
}

impl RoomActor {
    /// Whether any member is admin.
    fn has_admin(&self) -> (r: bool)
        ensures
            r == (num_admins(self.clients@) != 0),
    {
        let mut i: usize = 0;
        while i < self.clients.len()
            invariant
                i <= self.clients@.len(),
                forall|j: int| 0 <= j < i ==> !(#[trigger] self.clients@[j]).1.room_info.is_admin,
            decreases self.clients@.len() - i,
        {
            if self.clients[i].1.room_info.is_admin {
                proof {
                    lemma_num_admins_zero(self.clients@);
                }
                return true;
            }
            i = i + 1;
        }
        proof {
            lemma_num_admins_zero(self.clients@);
        }
        false
    }

    /// A member's session stopped: drop the member, tell the survivors, and
    /// if no admin is left promote the first remaining member.  The room
    /// itself survives; an unknown session changes nothing.
    pub fn on_link_died(&mut self, session: u64) -> (effects: Vec<RoomEffect>)
        requires
            old(self).wf(),
        ensures
            final(self).wf(),
            final(self).game_settings == old(self).game_settings,
            final(self).current_question == old(self).current_question,
            final(self).current_answers == old(self).current_answers,
            final(self).is_game_running == old(self).is_game_running,
            final(self).round_ticket == old(self).round_ticket,
            final(self).pending@ == old(self).pending@,
            final(self).round_start == old(self).round_start,
            final(self).rounds_played == old(self).rounds_played,
            old(self).rounds_in_bounds() ==> final(self).rounds_in_bounds(),
            !old(self).has_member_session(session) ==> *final(self) == *old(self) && effects@.len()
                == 0,
            old(self).has_member_session(session) ==> exists|i: int|
                {
                    &&& 0 <= i < old(self).clients@.len()
                    &&& (#[trigger] old(self).clients@[i]).1.session == session
                    &&& {
                        let removed = old(self).clients@.remove(i);
                        let promoted = removed.len() > 0 && num_admins(removed) == 0;
                        &&& final(self).clients@ == if promoted {
                            promote_first(removed)
                        } else {
                            removed
                        }
                        &&& effects@.len() == if promoted {
                            2int
                        } else {
                            1int
                        }
                        &&& is_broadcast_to(effects@[0], member_sessions(final(self).clients@))
                        &&& is_disconnected_notif(effect_msg(effects@[0]), old(self).clients@[i].0)
                        &&& promoted ==> is_broadcast_to(
                            effects@[1],
                            member_sessions(final(self).clients@),
                        ) && is_admin_made_notif(effect_msg(effects@[1]), removed[0].0)
                    }
                },
    {
        let mut effects: Vec<RoomEffect> = Vec::new();
        let mut i: usize = 0;
        while i < self.clients.len()
            invariant
                old(self).wf(),
                *self == *old(self),
                i <= old(self).clients@.len(),
                forall|j: int| 0 <= j < i ==> (#[trigger] old(self).clients@[j]).1.session != session,
                effects@.len() == 0,
            decreases old(self).clients@.len() - i,
        {
            if self.clients[i].1.session == session {
                let uuid = self.clients[i].0;
                self.clients.remove(i);
                let ghost removed = old(self).clients@.remove(i as int);
                proof {
                    assert(member_ids(self.clients@) =~= member_ids(old(self).clients@).remove(
                        i as int,
                    ));
                    assert(member_sessions(self.clients@) =~= member_sessions(
                        old(self).clients@,
                    ).remove(i as int));
                    lemma_remove_unique(member_ids(old(self).clients@), i as int);
                    lemma_remove_unique(member_sessions(old(self).clients@), i as int);
                    lemma_num_admins_remove(old(self).clients@, i as int);
                }
                effects.push(
                    self.broadcast_effect(
                        TransportMsg::OutNotifClientDisconnected(
                            TransportEnvelope {
                                correlation_id: fresh_uuid(),
                                payload: OutNotifClientDisconnected { id: uuid },
                            },
                        ),
                    ),
                );
                if self.clients.len() > 0 && !self.has_admin() {
                    let (first_uuid, first) = self.clients[0];
                    self.clients.remove(0);
                    self.clients.insert(
                        0,
                        (
                            first_uuid,
                            RoomClient {
                                session: first.session,
                                room_info: RoomClientInfo { is_admin: true },
                            },
                        ),
                    );
                    proof {
                        assert(self.clients@ =~= promote_first(removed));
                        assert(member_ids(self.clients@) =~= member_ids(removed));
                        assert(member_sessions(self.clients@) =~= member_sessions(removed));
                        lemma_num_admins_zero(removed);
                        assert(!removed[0].1.room_info.is_admin);
                        lemma_num_admins_remove(removed, 0);
                        lemma_num_admins_insert(
                            removed.remove(0),
                            0,
                            (
                                first_uuid,
                                RoomClient {
                                    session: first.session,
                                    room_info: RoomClientInfo { is_admin: true },
                                },
                            ),
                        );
                        assert(removed.remove(0).insert(
                            0,
                            (
                                first_uuid,
                                RoomClient {
                                    session: first.session,
                                    room_info: RoomClientInfo { is_admin: true },
                                },
                            ),
                        ) =~= self.clients@);
                    }
                    effects.push(
                        self.broadcast_effect(
                            TransportMsg::OutNotifAdminMade(
                                TransportEnvelope {
                                    correlation_id: fresh_uuid(),
                                    payload: OutNotifAdminMade { id: first_uuid },
                                },
                            ),
                        ),
                    );
                }
                return effects;
            }
            i = i + 1;
        }
        proof {
            assert forall|j: int| 0 <= j < old(self).clients@.len() implies (
            #[trigger] old(self).clients@[j]).1.session != session by {}
        }
        effects
    }

    /// Store new settings and tell everyone; only the admin may.
    pub fn set_game_settings(&mut self, requester: u64, corr: u128, game_settings: GameSettings)
        -> (effects: Vec<RoomEffect>)
        requires
            old(self).wf(),
        ensures
            final(self).wf(),
            replies_echo(effects@, corr),
            final(self).clients == old(self).clients,
            final(self).current_question == old(self).current_question,
            final(self).current_answers == old(self).current_answers,
            final(self).is_game_running == old(self).is_game_running,
            final(self).round_ticket == old(self).round_ticket,
            final(self).pending@ == old(self).pending@,
            final(self).round_start == old(self).round_start,
            final(self).rounds_played == old(self).rounds_played,
            !old(self).has_member_session(requester) ==> *final(self) == *old(self) && effects@.len()
                == 0,
            old(self).has_member_session(requester) ==> exists|i: int|
                {
                    &&& 0 <= i < old(self).clients@.len()
                    &&& (#[trigger] old(self).clients@[i]).1.session == requester
                    &&& if old(self).clients@[i].1.room_info.is_admin {
                        &&& final(self).game_settings == game_settings
                        &&& effects@.len() == 2
                        &&& is_send_status(effects@[0], requester, corr, "success"@)
                        &&& is_broadcast_to(effects@[1], member_sessions(old(self).clients@))
                        &&& is_settings_notif(effect_msg(effects@[1]), game_settings)
                    } else {
                        &&& final(self).game_settings == old(self).game_settings
                        &&& effects@.len() == 1
                        &&& is_send_status(effects@[0], requester, corr, "not admin"@)
                    }
                },
            // the rounds bound survives unless the running game's count is
            // cut to at most the rounds already played
            (old(self).rounds_in_bounds() && (old(self).is_game_running
                ==> game_settings.rounds_count > old(self).rounds_played)) ==> final(self).rounds_in_bounds(),
    {
        let mut effects: Vec<RoomEffect> = Vec::new();
        let (_uuid, room_info) = match self.find_client(requester) {
            Some(x) => x,
            None => {
                return effects;
            },
        };
        if !room_info.is_admin {
            effects.push(
                RoomEffect::Send { session: requester, msg: status_msg(corr, "not admin") },
            );
            return effects;
        }
        self.game_settings = dup_settings(&game_settings);
        effects.push(RoomEffect::Send { session: requester, msg: status_msg(corr, "success") });
        effects.push(
            self.broadcast_effect(
                TransportMsg::OutNotifGameSettingsChanged(
                    TransportEnvelope {
                        correlation_id: fresh_uuid(),
                        payload: OutNotifGameSettingsChanged { game_settings },
                    },
                ),
            ),
        );
        effects
    }

    /// Reply with success and tell everyone what was said; any member may.
    pub fn send_chat(&mut self, requester: u64, corr: u128, message: String) -> (effects: Vec<
        RoomEffect,
    >)
        requires
            old(self).wf(),
        ensures
            final(self).wf(),
            replies_echo(effects@, corr),
            *final(self) == *old(self),
            !old(self).has_member_session(requester) ==> effects@.len() == 0,
            old(self).has_member_session(requester) ==> exists|i: int|
                {
                    &&& 0 <= i < old(self).clients@.len()
                    &&& (#[trigger] old(self).clients@[i]).1.session == requester
                    &&& effects@.len() == 2
                    &&& is_send_status(effects@[0], requester, corr, "success"@)
                    &&& is_broadcast_to(effects@[1], member_sessions(old(self).clients@))
                    &&& is_chat_notif(effect_msg(effects@[1]), old(self).clients@[i].0, message@)
                },
    {
        let mut effects: Vec<RoomEffect> = Vec::new();
        let (uuid, _room_info) = match self.find_client(requester) {
            Some(x) => x,
            None => {
                return effects;
            },
        };
        effects.push(RoomEffect::Send { session: requester, msg: status_msg(corr, "success") });
        effects.push(
            self.broadcast_effect(
                TransportMsg::OutNotifChatSent(
                    TransportEnvelope {
                        correlation_id: fresh_uuid(),
                        payload: OutNotifChatSent { id: uuid, message },
                    },
                ),
            ),
        );
        effects
    }

    /// The ids whose records the directory is asked for before a client-list
    /// reply: the members, in order.
    pub fn client_list_ids(&self) -> (r: Vec<u128>)
        ensures
            r@ == member_ids(self.clients@),
    {
        let mut r: Vec<u128> = Vec::new();
        let mut i: usize = 0;
        while i < self.clients.len()
            invariant
                i <= self.clients@.len(),
                r@ == member_ids(self.clients@).take(i as int),
            decreases self.clients@.len() - i,
        {
            r.push(self.clients[i].0);
            proof {
                assert(r@ =~= member_ids(self.clients@).take(i + 1));
            }
            i = i + 1;
        }
        proof {
            assert(member_ids(self.clients@).take(self.clients@.len() as int) =~= member_ids(
                self.clients@,
            ));
        }
        r
    }

    /// Reply with the member list, pairing the directory's records with the
    /// room's admin flags.
    pub fn client_list(&self, requester: u64, corr: u128, infos: &Vec<GameClientInfo>) -> (effects:
        Vec<RoomEffect>)
        ensures
            replies_echo(effects@, corr),
            effects@.len() == 1,
            match effects@[0] {
                RoomEffect::Send { session, msg } => session == requester && match msg {
                    TransportMsg::OutRespClientList(e) => e.correlation_id == corr
                        && e.payload.clients@ == client_list_spec(self.clients@, infos@),
                    _ => false,
                },
                _ => false,
            },
    {
        let mut clients: Vec<ClientInfo> = Vec::new();
        let mut i: usize = 0;
        while i < self.clients.len()
            invariant
                i <= self.clients@.len(),
                clients@ == client_list_spec(self.clients@.take(i as int), infos@),
            decreases self.clients@.len() - i,
        {
            proof {
                assert(self.clients@.take(i + 1).drop_last() =~= self.clients@.take(i as int));
                assert(self.clients@.take(i + 1).last() == self.clients@[i as int]);
            }
            match Self::find_info_exec(infos, self.clients[i].0) {
                Some(g) => {
                    clients.push(
                        ClientInfo {
                            id: g.id,
                            key: g.key,
                            name: g.name,
                            is_admin: self.clients[i].1.room_info.is_admin,
                        },
                    );
                },
                None => (),
            }
            i = i + 1;
        }
        proof {
            assert(self.clients@.take(self.clients@.len() as int) =~= self.clients@);
        }
        let mut effects: Vec<RoomEffect> = Vec::new();
        effects.push(
            RoomEffect::Send {
                session: requester,
                msg: TransportMsg::OutRespClientList(
                    TransportEnvelope { correlation_id: corr, payload: OutRespClientList { clients } },
                ),
            },
        );
        effects
    }

    fn find_info_exec(infos: &Vec<GameClientInfo>, id: u128) -> (r: Option<GameClientInfo>)
        ensures
            r == find_info(infos@, id),
    {
        let ghost whole = infos@;
        proof {
            assert(whole.skip(0) =~= whole);
        }
        let mut j: usize = 0;
        while j < infos.len()
            invariant
                infos@ == whole,
                j <= whole.len(),
                find_info(whole, id) == find_info(whole.skip(j as int), id),
            decreases whole.len() - j,
        {
            proof {
                assert(whole.skip(j as int)[0] == whole[j as int]);
                assert(whole.skip(j as int).drop_first() =~= whole.skip(j + 1));
            }
            if infos[j].id == id {
                return Some(crate::game_actor::dup_info(&infos[j]));
            }
            j = j + 1;
        }
        proof {
            assert(whole.skip(whole.len() as int) =~= Seq::<GameClientInfo>::empty());
        }
        None
    }
}

/// The member ids that have not answered yet, in member order.
pub open spec fn missing_ids(members: Seq<(u128, RoomClient)>, answered: Seq<u128>) -> Seq<u128> {
    member_ids(members).filter(|id: u128| !answered.contains(id))
}

/// Milliseconds since the round began; zero before any round.
pub open spec fn elapsed_ms(round_start: Option<u64>, now: u64) -> u64 {
    match round_start {
        Some(s) => if now >= s {
            (now - s) as u64
        } else {
            0
        },
        None => 0,
    }
}

/// The next rounds-played count, capped at the largest 64-bit value.
pub open spec fn next_round_count(rounds: u64) -> u64 {
    if rounds + 1 > u64::MAX {
        u64::MAX
    } else {
        (rounds + 1) as u64
    }
}

proof fn lemma_filter_agree(s: Seq<u128>, p: spec_fn(u128) -> bool, q: spec_fn(u128) -> bool)
    requires
        forall|i: int| 0 <= i < s.len() ==> (p(#[trigger] s[i]) <==> q(s[i])),
    ensures
        s.filter(p) == s.filter(q),
    decreases s.len(),
{
    reveal(Seq::filter);
    if s.len() > 0 {
        lemma_filter_agree(s.drop_last(), p, q);
        assert(forall|i: int| 0 <= i < s.drop_last().len() ==> s.drop_last()[i] == s[i]);
    }
}

proof fn lemma_filter_no_dup(s: Seq<u128>, p: spec_fn(u128) -> bool)
    requires
        s.no_duplicates(),
    ensures
        s.filter(p).no_duplicates(),
        forall|x: u128| #[trigger] s.filter(p).contains(x) ==> s.contains(x),
    decreases s.len(),
{
    reveal(Seq::filter);
    if s.len() > 0 {
        let t = s.drop_last();
        assert(forall|i: int| 0 <= i < t.len() ==> t[i] == s[i]);
        lemma_filter_no_dup(t, p);
        assert forall|x: u128| #[trigger] t.contains(x) implies s.contains(x) by {
            let i = choose|i: int| 0 <= i < t.len() && t[i] == x;
            assert(s[i] == x);
        }
        if p(s.last()) {
            assert(!t.contains(s.last())) by {
                if t.contains(s.last()) {
                    let i = choose|i: int| 0 <= i < t.len() && t[i] == s.last();
                    assert(s[i] == s[s.len() - 1]);
                }
            }
            assert(!t.filter(p).contains(s.last()));
            lemma_push_unique(t.filter(p), s.last());
            assert forall|x: u128| #[trigger] s.filter(p).contains(x) implies s.contains(x) by {
                if x == s.last() {
                    assert(s[s.len() - 1] == x);
                } else {
                    let i = choose|i: int|
                        0 <= i < s.filter(p).len() && (#[trigger] s.filter(p)[i]) == x;
                    assert(s.filter(p) == t.filter(p).push(s.last()));
                    assert(i < t.filter(p).len());
                    assert(t.filter(p)[i] == x);
                    assert(t.filter(p).contains(x));
                    assert(t.contains(x));
                }
            }
        } else {
            assert forall|x: u128| #[trigger] s.filter(p).contains(x) implies s.contains(x) by {
                assert(t.filter(p).contains(x));
            }
        }
    }
}

/// When everyone who answered is a member, members answer once each, and
/// answers are distinct, the answers plus the missing members together count
/// the membership exactly.
proof fn lemma_filled_count(mids: Seq<u128>, answered: Seq<u128>)
    requires
        mids.no_duplicates(),
        answered.no_duplicates(),
        forall|j: int| 0 <= j < answered.len() ==> mids.contains(#[trigger] answered[j]),
    ensures
        answered.len() + mids.filter(|id: u128| !answered.contains(id)).len() == mids.len(),
    decreases mids.len(),
{
    reveal(Seq::filter);
    let p = |id: u128| !answered.contains(id);
    if mids.len() == 0 {
        if answered.len() > 0 {
            assert(mids.contains(answered[0]));
        }
    } else {
        let t = mids.drop_last();
        let x = mids.last();
        assert(forall|i: int| 0 <= i < t.len() ==> t[i] == mids[i]);
        assert(!t.contains(x)) by {
            if t.contains(x) {
                let i = choose|i: int| 0 <= i < t.len() && t[i] == x;
                assert(mids[i] == mids[mids.len() - 1]);
            }
        }
        if answered.contains(x) {
            let ix = choose|ix: int| 0 <= ix < answered.len() && answered[ix] == x;
            let a2 = answered.remove(ix);
            lemma_remove_unique(answered, ix);
            assert forall|j: int| 0 <= j < a2.len() implies t.contains(#[trigger] a2[j]) by {
                let orig = if j < ix {
                    j
                } else {
                    j + 1
                };
                assert(a2[j] == answered[orig]);
                assert(a2[j] != x);
                assert(mids.contains(a2[j]));
                let i = choose|i: int| 0 <= i < mids.len() && mids[i] == a2[j];
                assert(i < t.len());
                assert(t[i] == a2[j]);
            }
            lemma_filled_count(t, a2);
            let p2 = |id: u128| !a2.contains(id);
            assert forall|i: int| 0 <= i < t.len() implies (p(#[trigger] t[i]) <==> p2(t[i])) by {
                // t's elements differ from x, and a2 is answered without x
                assert(t[i] != x);
                if answered.contains(t[i]) {
                    let j = choose|j: int| 0 <= j < answered.len() && answered[j] == t[i];
                    assert(j != ix);
                    let j2 = if j < ix {
                        j
                    } else {
                        j - 1
                    };
                    assert(a2[j2] == answered[j]);
                } else {
                    if a2.contains(t[i]) {
                        let j2 = choose|j2: int| 0 <= j2 < a2.len() && a2[j2] == t[i];
                        let orig = if j2 < ix {
                            j2
                        } else {
                            j2 + 1
                        };
                        assert(answered[orig] == t[i]);
                    }
                }
            }
            lemma_filter_agree(t, p, p2);
            assert(mids.filter(p) == t.filter(p));
        } else {
            assert forall|j: int| 0 <= j < answered.len() implies t.contains(#[trigger] answered[j]) by {
                assert(mids.contains(answered[j]));
                assert(answered[j] != x);
                let i = choose|i: int| 0 <= i < mids.len() && mids[i] == answered[j];
                assert(i < t.len());
                assert(t[i] == answered[j]);
            }
            lemma_filled_count(t, answered);
            assert(mids.filter(p) == t.filter(p).push(x));
        }
    }
}

/// Two duplicate-free sequences with no element in common concatenate to a
/// duplicate-free sequence.
proof fn lemma_disjoint_concat_unique(a: Seq<u128>, b: Seq<u128>)
    requires
        a.no_duplicates(),
        b.no_duplicates(),
        forall|x: u128| #[trigger] b.contains(x) ==> !a.contains(x),
    ensures
        (a + b).no_duplicates(),
{
    let c = a + b;
    assert forall|i: int, j: int| 0 <= i < j < c.len() implies c[i] != c[j] by {
        if i < a.len() && j >= a.len() {
            assert(c[i] == a[i]);
            assert(c[j] == b[j - a.len()]);
            if c[i] == c[j] {
                assert(b.contains(c[j]));
                assert(a.contains(c[i]));
            }
        } else if i >= a.len() {
            assert(c[i] == b[i - a.len()]);
            assert(c[j] == b[j - a.len()]);
        } else {
            assert(c[i] == a[i] && c[j] == a[j]);
        }
    }
}

impl RoomActor {
    fn vec_contains_id(v: &Vec<u128>, x: u128) -> (r: bool)
        ensures
            r == v@.contains(x),
    {
        let mut i: usize = 0;
        while i < v.len()
            invariant
                i <= v@.len(),
                forall|j: int| 0 <= j < i ==> v@[j] != x,
            decreases v@.len() - i,
        {
            if v[i] == x {
                return true;
            }
            i = i + 1;
        }
        false
    }

    fn answered_ids(&self) -> (r: Vec<u128>)
        ensures
            r@ == answer_ids(self.current_answers@),
    {
        let mut r: Vec<u128> = Vec::new();
        let mut i: usize = 0;
        while i < self.current_answers.len()
            invariant
                i <= self.current_answers@.len(),
                r@ == answer_ids(self.current_answers@).take(i as int),
            decreases self.current_answers@.len() - i,
        {
            r.push(self.current_answers[i].id);
            proof {
                assert(r@ =~= answer_ids(self.current_answers@).take(i + 1));
            }
            i = i + 1;
        }
        proof {
            assert(answer_ids(self.current_answers@).take(self.current_answers@.len() as int)
                =~= answer_ids(self.current_answers@));
        }
        r
    }

    fn secs_to_ms(secs: u64) -> (r: u64)
        ensures
            r == ms_of_secs(secs),
    {
        if secs > u64::MAX / 1000 {
            proof {
                assert(secs * 1000 > u64::MAX) by (nonlinear_arith)
                    requires
                        secs > u64::MAX / 1000,
                ;
            }
            u64::MAX
        } else {
            proof {
                assert(secs * 1000 <= u64::MAX) by (nonlinear_arith)
                    requires
                        secs <= u64::MAX / 1000,
                ;
            }
            secs * 1000
        }
    }

    /// For each member that has not answered, append an empty, incorrect
    /// answer charged with the full round duration, in member order.
    fn push_missing_answers(&mut self)
        requires
            old(self).wf(),
        ensures
            final(self).wf(),
            final(self).name == old(self).name,
            final(self).clients == old(self).clients,
            final(self).game_settings == old(self).game_settings,
            final(self).current_question == old(self).current_question,
            final(self).is_game_running == old(self).is_game_running,
            final(self).round_ticket == old(self).round_ticket,
            final(self).pending@ == old(self).pending@,
            final(self).round_start == old(self).round_start,
            final(self).rounds_played == old(self).rounds_played,
            filled_answers(
                old(self).clients@,
                old(self).game_settings,
                old(self).current_answers@,
                final(self).current_answers@,
            ),
    {
        let ghost pre = *old(self);
        let ghost answered = answer_ids(old(self).current_answers@);
        let ghost missing = missing_ids(old(self).clients@, answered);
        let snapshot = self.answered_ids();
        let max_time = Self::secs_to_ms(self.game_settings.round_duration);
        let ghost n0 = old(self).current_answers@.len() as int;
        let mut k: usize = 0;
        while k < self.clients.len()
            invariant
                pre.wf(),
                self.name == pre.name,
                self.clients == pre.clients,
                self.game_settings == pre.game_settings,
                self.current_question == pre.current_question,
                self.is_game_running == pre.is_game_running,
                self.round_ticket == pre.round_ticket,
                self.pending == pre.pending,
                self.round_start == pre.round_start,
                self.rounds_played == pre.rounds_played,
                k <= pre.clients@.len(),
                snapshot@ == answered,
                answered == answer_ids(pre.current_answers@),
                max_time == ms_of_secs(pre.game_settings.round_duration),
                n0 == pre.current_answers@.len() as int,
                self.current_answers@.take(n0) == pre.current_answers@,
                answer_ids(self.current_answers@).take(n0) == answered,
                self.current_answers@.len() == n0 + member_ids(pre.clients@).take(k as int).filter(
                    |id: u128| !answered.contains(id),
                ).len(),
                forall|j: int|
                    n0 <= j < self.current_answers@.len() ==> {
                        let a = #[trigger] self.current_answers@[j];
                        &&& a.id == member_ids(pre.clients@).take(k as int).filter(
                            |id: u128| !answered.contains(id),
                        )[j - n0]
                        &&& a.answer@ == Seq::<char>::empty()
                        &&& !a.is_correct
                        &&& a.answer_time == ms_of_secs(pre.game_settings.round_duration)
                    },
            decreases pre.clients@.len() - k,
        {
            let ghost mk = member_ids(pre.clients@).take(k as int);
            let ghost mk1 = member_ids(pre.clients@).take(k + 1);
            proof {
                reveal(Seq::filter);
                assert(mk1.drop_last() =~= mk);
                assert(mk1.last() == pre.clients@[k as int].0);
            }
            let uuid = self.clients[k].0;
            if !Self::vec_contains_id(&snapshot, uuid) {
                self.current_answers.push(
                    AnswerInfo {
                        id: uuid,
                        answer: String::new(),
                        is_correct: false,
                        answer_time: max_time,
                    },
                );
                proof {
                    assert(self.current_answers@.take(n0) =~= pre.current_answers@);
                    assert(answer_ids(self.current_answers@).take(n0) =~= answered);
                }
            }
            k = k + 1;
        }
        proof {
            assert(member_ids(pre.clients@).take(pre.clients@.len() as int) =~= member_ids(
                pre.clients@,
            ));
            // the new identifiers are fresh among themselves and against the
            // old ones, so all answer ids stay distinct
            let p = |id: u128| !answered.contains(id);
            lemma_filter_no_dup(member_ids(pre.clients@), p);
            let suffix = answer_ids(self.current_answers@).skip(n0);
            assert(suffix =~= missing) by {
                assert forall|j: int| 0 <= j < suffix.len() implies suffix[j] == missing[j] by {
                    assert(self.current_answers@[n0 + j].id == missing[j]);
                }
            }
            assert(answer_ids(self.current_answers@) =~= answered + missing);
            assert forall|x: u128| #[trigger] missing.contains(x) implies !answered.contains(x) by {
                let i = choose|i: int| 0 <= i < missing.len() && missing[i] == x;
                Seq::lemma_filter_pred(member_ids(pre.clients@), p, i);
            }
            lemma_disjoint_concat_unique(answered, missing);
        }
    }
}

/// `post` is `pre` with one empty answer appended, in member order, for each
/// member whose id was not among `pre`'s.
pub open spec fn filled_answers(
    members: Seq<(u128, RoomClient)>,
    settings: GameSettings,
    pre: Seq<AnswerInfo>,
    post: Seq<AnswerInfo>,
) -> bool {
    let answered = answer_ids(pre);
    let missing = missing_ids(members, answered);
    &&& post.len() == pre.len() + missing.len()
    &&& post.take(pre.len() as int) == pre
    &&& forall|j: int|
        pre.len() <= j < post.len() ==> {
            let a = #[trigger] post[j];
            &&& a.id == missing[j - pre.len()]
            &&& a.answer@ == Seq::<char>::empty()
            &&& !a.is_correct
            &&& a.answer_time == ms_of_secs(settings.round_duration)
        }
}

/// The effects of asking the admin for a question: when one exists, a fresh
/// pending entry of five seconds, the request to the admin under the entry's
/// identifier, and the matching timer; with no admin left the game stops.
pub open spec fn question_request_effects(
    members: Seq<(u128, RoomClient)>,
    pre_pending: Map<u128, PendingMeta<RoomPending>>,
    post_pending: Map<u128, PendingMeta<RoomPending>>,
    pre_running: bool,
    post_running: bool,
    effs: Seq<RoomEffect>,
    now: u64,
) -> bool {
    if num_admins(members) == 0 {
        &&& post_pending == pre_pending
        &&& !post_running
        &&& effs.len() == 0
    } else {
        &&& post_running == pre_running
        &&& exists|i: int, tid: u128|
            #![trigger members[i], pre_pending.insert(tid, PendingMeta { kind: RoomPending::Question { uuid: members[i].0 }, sent: now, t_out: 5000 })]
            {
                &&& 0 <= i < members.len()
                &&& members[i].1.room_info.is_admin
                &&& post_pending == pre_pending.insert(
                    tid,
                    PendingMeta { kind: RoomPending::Question { uuid: members[i].0 }, sent: now, t_out: 5000 },
                )
                &&& effs.len() == 2
                &&& (match effs[0] {
                    RoomEffect::Send { session, msg } => session == members[i].1.session
                        && is_out_req_question(msg, tid),
                    _ => false,
                })
                &&& effs[1] == (RoomEffect::Schedule { id: tid, timeout_ms: 5000 })
            }
    }
}

/// What ending a round does: fill the missing answers, tell everyone the
/// results, clear the round, count it, and either stop the game after the
/// last round or ask the admin for the next question.  A finish on a stopped
/// game changes nothing.
pub open spec fn finish_round_relation(
    members: Seq<(u128, RoomClient)>,
    settings: GameSettings,
    pre_question: Option<QuestionInfo>,
    pre_answers: Seq<AnswerInfo>,
    pre_pending: Map<u128, PendingMeta<RoomPending>>,
    pre_ticket: Option<Ticket>,
    pre_start: Option<u64>,
    pre_rounds: u64,
    pre_running: bool,
    post: RoomActor,
    effs: Seq<RoomEffect>,
    now: u64,
) -> bool {
    if !pre_running {
        &&& post.clients@ == members
        &&& post.game_settings == settings
        &&& post.current_question == pre_question
        &&& post.current_answers@ == pre_answers
        &&& post.pending@ == pre_pending
        &&& post.round_ticket == pre_ticket
        &&& post.round_start == pre_start
        &&& post.rounds_played == pre_rounds
        &&& !post.is_game_running
        &&& effs.len() == 0
    } else {
        let new_rounds = next_round_count(pre_rounds);
        &&& post.clients@ == members
        &&& post.game_settings == settings
        &&& post.current_question is None
        &&& post.current_answers@.len() == 0
        &&& post.round_ticket is None
        &&& post.round_start is None
        &&& post.rounds_played == new_rounds
        &&& effs.len() >= 1
        &&& is_broadcast_to(effs[0], member_sessions(members))
        &&& (match as_round_ended(effect_msg(effs[0])) {
            Some(p) => {
                &&& filled_answers(members, settings, pre_answers, p.answers@)
                &&& (match pre_question {
                    Some(q) => p.question == q,
                    None => is_default_question(p.question),
                })
            },
            None => false,
        })
        &&& if new_rounds >= settings.rounds_count {
            &&& !post.is_game_running
            &&& post.pending@ == pre_pending
            &&& effs.len() == 2
            &&& is_broadcast_to(effs[1], member_sessions(members))
            &&& (match as_game_stopped(effect_msg(effs[1])) {
                Some(p) => is_default_question(p.question) && p.answers@.len() == 0,
                None => false,
            })
        } else {
            question_request_effects(
                members,
                pre_pending,
                post.pending@,
                true,
                post.is_game_running,
                effs.subrange(1, effs.len() as int),
                now,
            )
        }
    }
}

impl RoomActor {
    /// Ask the current admin for the next question under a fresh pending
    /// entry with a five-second budget; with no admin left, stop the game.
    fn request_question(&mut self, now: u64) -> (effects: Vec<RoomEffect>)
        requires
            old(self).wf(),
        ensures
            final(self).wf(),
            final(self).name == old(self).name,
            final(self).clients == old(self).clients,
            final(self).game_settings == old(self).game_settings,
            final(self).current_question == old(self).current_question,
            final(self).current_answers == old(self).current_answers,
            final(self).round_ticket == old(self).round_ticket,
            final(self).round_start == old(self).round_start,
            final(self).rounds_played == old(self).rounds_played,
            question_request_effects(
                old(self).clients@,
                old(self).pending@,
                final(self).pending@,
                old(self).is_game_running,
                final(self).is_game_running,
                effects@,
                now,
            ),
    {
        let mut effects: Vec<RoomEffect> = Vec::new();
        let mut i: usize = 0;
        while i < self.clients.len()
            invariant
                old(self).wf(),
                *self == *old(self),
                i <= old(self).clients@.len(),
                forall|j: int| 0 <= j < i ==> !(#[trigger] old(self).clients@[j]).1.room_info.is_admin,
                effects@.len() == 0,
            decreases old(self).clients@.len() - i,
        {
            if self.clients[i].1.room_info.is_admin {
                let admin_uuid = self.clients[i].0;
                let admin_session = self.clients[i].1.session;
                let ticket = self.pending.add(
                    RoomPending::Question { uuid: admin_uuid },
                    5000,
                    now,
                );
                effects.push(
                    RoomEffect::Send {
                        session: admin_session,
                        msg: TransportMsg::OutReqQuestion(
                            TransportEnvelope { correlation_id: ticket.id, payload: OutReqQuestion {  } },
                        ),
                    },
                );
                effects.push(RoomEffect::Schedule { id: ticket.id, timeout_ms: 5000 });
                proof {
                    lemma_num_admins_zero(old(self).clients@);
                    assert(num_admins(old(self).clients@) != 0);
                }
                return effects;
            }
            i = i + 1;
        }
        proof {
            lemma_num_admins_zero(old(self).clients@);
            assert(num_admins(old(self).clients@) == 0);
        }
        self.is_game_running = false;
        effects
    }
}

impl RoomActor {
    /// End the running round: fill missing answers, broadcast the results,
    /// count the round, and stop the game or ask for the next question.
    /// While no game runs this changes nothing.  Whenever everyone who
    /// answered is still a member, the broadcast carries exactly one answer
    /// per member.
    pub fn finish_round(&mut self, now: u64) -> (effects: Vec<RoomEffect>)
        requires
            old(self).wf(),
        ensures
            final(self).wf(),
            final(self).name == old(self).name,
            finish_round_relation(
                old(self).clients@,
                old(self).game_settings,
                old(self).current_question,
                old(self).current_answers@,
                old(self).pending@,
                old(self).round_ticket,
                old(self).round_start,
                old(self).rounds_played,
                old(self).is_game_running,
                *final(self),
                effects@,
                now,
            ),
            old(self).rounds_in_bounds() ==> final(self).rounds_in_bounds(),
            (old(self).is_game_running && (forall|j: int|
                0 <= j < old(self).current_answers@.len() ==> member_ids(old(self).clients@).contains(
                    (#[trigger] old(self).current_answers@[j]).id,
                ))) ==> (match as_round_ended(effect_msg(effects@[0])) {
                Some(p) => p.answers@.len() == old(self).clients@.len(),
                None => false,
            }),
    {
        let mut effects: Vec<RoomEffect> = Vec::new();
        if !self.is_game_running {
            return effects;
        }
        self.push_missing_answers();
        let mut answers: Vec<AnswerInfo> = Vec::new();
        core::mem::swap(&mut answers, &mut self.current_answers);
        let mut taken: Option<QuestionInfo> = None;
        core::mem::swap(&mut taken, &mut self.current_question);
        let question = match taken {
            Some(q) => q,
            None => QuestionInfo::default(),
        };
        proof {
            if old(self).is_game_running && (forall|j: int|
                0 <= j < old(self).current_answers@.len() ==> member_ids(old(self).clients@).contains(
                    (#[trigger] old(self).current_answers@[j]).id,
                )) {
                lemma_filled_count(
                    member_ids(old(self).clients@),
                    answer_ids(old(self).current_answers@),
                );
                assert forall|j: int| 0 <= j < answer_ids(old(self).current_answers@).len()
                    implies member_ids(old(self).clients@).contains(
                    #[trigger] answer_ids(old(self).current_answers@)[j],
                ) by {
                    assert(answer_ids(old(self).current_answers@)[j] == old(
                        self,
                    ).current_answers@[j].id);
                }
            }
        }
        effects.push(
            self.broadcast_effect(
                TransportMsg::OutNotifRoundEnded(
                    TransportEnvelope {
                        correlation_id: fresh_uuid(),
                        payload: OutNotifRoundEnded { question, answers },
                    },
                ),
            ),
        );
        self.round_ticket = None;
        self.round_start = None;
        self.rounds_played = self.rounds_played.saturating_add(1);
        if self.rounds_played >= self.game_settings.rounds_count {
            self.is_game_running = false;
            effects.push(
                self.broadcast_effect(
                    TransportMsg::OutNotifGameStopped(
                        TransportEnvelope {
                            correlation_id: fresh_uuid(),
                            payload: OutNotifGameStopped {
                                question: QuestionInfo::default(),
                                answers: Vec::new(),
                            },
                        },
                    ),
                ),
            );
            return effects;
        }
        let mut qeff = self.request_question(now);
        let ghost qe = qeff@;
        effects.append(&mut qeff);
        proof {
            assert(effects@.subrange(1, effects@.len() as int) =~= qe);
        }
        effects
    }

    /// A timer fired.  A ticket already taken or cancelled changes nothing; a
    /// question budget merely lapses (the game can hang awaiting its admin);
    /// a round budget ends the round.
    pub fn handle_timeout(&mut self, timeout: Timeout, now: u64) -> (effects: Vec<RoomEffect>)
        requires
            old(self).wf(),
        ensures
            final(self).wf(),
            final(self).name == old(self).name,
            old(self).rounds_in_bounds() ==> final(self).rounds_in_bounds(),
            !old(self).pending@.contains_key(timeout.0) ==> {
                &&& final(self).clients@ == old(self).clients@
                &&& final(self).game_settings == old(self).game_settings
                &&& final(self).current_question == old(self).current_question
                &&& final(self).current_answers@ == old(self).current_answers@
                &&& final(self).is_game_running == old(self).is_game_running
                &&& final(self).round_ticket == old(self).round_ticket
                &&& final(self).round_start == old(self).round_start
                &&& final(self).rounds_played == old(self).rounds_played
                &&& final(self).pending@ == old(self).pending@
                &&& effects@.len() == 0
            },
            old(self).pending@.contains_key(timeout.0) ==> match old(self).pending@[timeout.0].kind {
                RoomPending::Question { .. } => {
                    &&& final(self).clients == old(self).clients
                    &&& final(self).game_settings == old(self).game_settings
                    &&& final(self).current_question == old(self).current_question
                    &&& final(self).current_answers == old(self).current_answers
                    &&& final(self).is_game_running == old(self).is_game_running
                    &&& final(self).round_ticket == old(self).round_ticket
                    &&& final(self).round_start == old(self).round_start
                    &&& final(self).rounds_played == old(self).rounds_played
                    &&& final(self).pending@ == old(self).pending@.remove(timeout.0)
                    &&& effects@.len() == 0
                },
                RoomPending::Round => finish_round_relation(
                    old(self).clients@,
                    old(self).game_settings,
                    old(self).current_question,
                    old(self).current_answers@,
                    old(self).pending@.remove(timeout.0),
                    None,
                    old(self).round_start,
                    old(self).rounds_played,
                    old(self).is_game_running,
                    *final(self),
                    effects@,
                    now,
                ),
            },
    {
        let taken = self.pending.take(Ticket::new(timeout.0));
        match taken {
            None => Vec::new(),
            Some(meta) => match meta.kind {
                RoomPending::Question { .. } => Vec::new(),
                RoomPending::Round => {
                    self.round_ticket = None;
                    self.finish_round(now)
                },
            },
        }
    }

    /// Start a game: admin only, refused while one is running.  The round
    /// state is reset, the given settings take effect, everyone learns the
    /// game started, and the admin is asked for the first question.
    pub fn start_game(&mut self, requester: u64, corr: u128, game_settings: GameSettings, now: u64)
        -> (effects: Vec<RoomEffect>)
        requires
            old(self).wf(),
        ensures
            final(self).wf(),
            final(self).name == old(self).name,
            final(self).clients == old(self).clients,
            replies_echo(effects@, corr),
            !old(self).has_member_session(requester) ==> *final(self) == *old(self) && effects@.len()
                == 0,
            old(self).has_member_session(requester) ==> exists|i: int|
                {
                    &&& 0 <= i < old(self).clients@.len()
                    &&& (#[trigger] old(self).clients@[i]).1.session == requester
                    &&& if !old(self).clients@[i].1.room_info.is_admin {
                        &&& *final(self) == *old(self)
                        &&& effects@.len() == 1
                        &&& is_send_status(effects@[0], requester, corr, "not admin"@)
                    } else if old(self).is_game_running {
                        &&& *final(self) == *old(self)
                        &&& effects@.len() == 1
                        &&& is_send_status(effects@[0], requester, corr, "already running"@)
                    } else {
                        &&& final(self).game_settings == game_settings
                        &&& final(self).current_question is None
                        &&& final(self).current_answers@.len() == 0
                        &&& final(self).round_ticket is None
                        &&& final(self).rounds_played == 0
                        &&& final(self).is_game_running
                        &&& effects@.len() == 4
                        &&& is_send_status(effects@[0], requester, corr, "success"@)
                        &&& is_broadcast_to(effects@[1], member_sessions(old(self).clients@))
                        &&& is_game_started_notif(effect_msg(effects@[1]), game_settings)
                        &&& question_request_effects(
                            old(self).clients@,
                            old(self).pending@,
                            final(self).pending@,
                            true,
                            true,
                            effects@.subrange(2, effects@.len() as int),
                            now,
                        )
                    }
                },
            (old(self).rounds_in_bounds() && game_settings.rounds_count > 0) ==> final(self).rounds_in_bounds(),
    {
        let mut effects: Vec<RoomEffect> = Vec::new();
        let (_uuid, room_info) = match self.find_client(requester) {
            Some(x) => x,
            None => {
                return effects;
            },
        };
        if !room_info.is_admin {
            effects.push(
                RoomEffect::Send { session: requester, msg: status_msg(corr, "not admin") },
            );
            return effects;
        }
        if self.is_game_running {
            effects.push(
                RoomEffect::Send { session: requester, msg: status_msg(corr, "already running") },
            );
            return effects;
        }
        self.current_question = None;
        self.current_answers.clear();
        self.round_ticket = None;
        self.game_settings = dup_settings(&game_settings);
        self.is_game_running = true;
        self.rounds_played = 0;
        effects.push(RoomEffect::Send { session: requester, msg: status_msg(corr, "success") });
        effects.push(
            self.broadcast_effect(
                TransportMsg::OutNotifGameStarted(
                    TransportEnvelope {
                        correlation_id: fresh_uuid(),
                        payload: OutNotifGameStarted { game_settings },
                    },
                ),
            ),
        );
        let mut qeff = self.request_question(now);
        let ghost qe = qeff@;
        effects.append(&mut qeff);
        proof {
            assert(effects@.subrange(2, effects@.len() as int) =~= qe);
            // the requester is an admin member, so the game was not stopped
            // for want of one
            lemma_num_admins_zero(old(self).clients@);
        }
        effects
    }

    /// The admin answered a question request.  A reply whose correlation
    /// entry names the requester's member starts the round: the question is
    /// stored, everyone gets its rendering, and the round timer starts.  Any
    /// other reply is dropped — though it still consumes the entry.
    pub fn provide_question(
        &mut self,
        requester: u64,
        corr: u128,
        question_info: QuestionInfo,
        question_svg: String,
        now: u64,
    ) -> (effects: Vec<RoomEffect>)
        requires
            old(self).wf(),
        ensures
            final(self).wf(),
            final(self).name == old(self).name,
            final(self).clients == old(self).clients,
            final(self).game_settings == old(self).game_settings,
            final(self).is_game_running == old(self).is_game_running,
            final(self).rounds_played == old(self).rounds_played,
            old(self).rounds_in_bounds() ==> final(self).rounds_in_bounds(),
            ({
                let matched = old(self).pending@.contains_key(corr) && match old(
                    self,
                ).pending@[corr].kind {
                    RoomPending::Question { uuid } => exists|i: int|
                        0 <= i < old(self).clients@.len() && (#[trigger] old(self).clients@[i]) == (
                        uuid,
                        RoomClient { session: requester, room_info: old(self).clients@[i].1.room_info },
                    ),
                    RoomPending::Round => false,
                };
                if matched {
                    &&& final(self).current_question == Some(question_info)
                    &&& final(self).current_answers@.len() == 0
                    &&& final(self).round_start == Some(now)
                    &&& final(self).round_ticket is Some
                    &&& {
                        let tid = final(self).round_ticket.unwrap().id;
                        &&& final(self).pending@ == old(self).pending@.remove(corr).insert(
                            tid,
                            PendingMeta {
                                kind: RoomPending::Round,
                                sent: now,
                                t_out: ms_of_secs(old(self).game_settings.round_duration),
                            },
                        )
                        &&& effects@.len() == 2
                        &&& is_broadcast_to(effects@[0], member_sessions(old(self).clients@))
                        &&& is_question_notif(effect_msg(effects@[0]), question_svg@)
                        &&& effects@[1] == (RoomEffect::Schedule {
                            id: tid,
                            timeout_ms: ms_of_secs(old(self).game_settings.round_duration),
                        })
                    }
                } else {
                    &&& final(self).current_question == old(self).current_question
                    &&& final(self).current_answers == old(self).current_answers
                    &&& final(self).round_ticket == old(self).round_ticket
                    &&& final(self).round_start == old(self).round_start
                    &&& final(self).pending@ == old(self).pending@.remove(corr)
                    &&& effects@.len() == 0
                }
            }),
    {
        let mut effects: Vec<RoomEffect> = Vec::new();
        let meta = match self.pending.take(Ticket::new(corr)) {
            Some(m) => m,
            None => {
                return effects;
            },
        };
        let uuid = match meta.kind {
            RoomPending::Question { uuid } => uuid,
            RoomPending::Round => {
                return effects;
            },
        };
        // the entry must name the requester's membership
        let mut found = false;
        let mut i: usize = 0;
        while i < self.clients.len() && !found
            invariant
                i <= self.clients@.len(),
                found ==> exists|k: int|
                    0 <= k < self.clients@.len() && (#[trigger] self.clients@[k]) == (
                    uuid,
                    RoomClient { session: requester, room_info: self.clients@[k].1.room_info },
                ),
                !found ==> forall|k: int|
                    0 <= k < i ==> !((#[trigger] self.clients@[k]).0 == uuid && self.clients@[k].1.session
                        == requester),
            decreases self.clients@.len() - i, if found { 0int } else { 1int },
        {
            if self.clients[i].0 == uuid && self.clients[i].1.session == requester {
                found = true;
                proof {
                    assert(self.clients@[i as int] == (
                        uuid,
                        RoomClient {
                            session: requester,
                            room_info: self.clients@[i as int].1.room_info,
                        },
                    ));
                }
            } else {
                i = i + 1;
            }
        }
        if !found {
            return effects;
        }
        self.current_question = Some(question_info);
        self.current_answers.clear();
        effects.push(
            self.broadcast_effect(
                TransportMsg::OutNotifQuestion(
                    TransportEnvelope {
                        correlation_id: fresh_uuid(),
                        payload: OutNotifQuestion { question_svg },
                    },
                ),
            ),
        );
        self.round_start = Some(now);
        let budget = Self::secs_to_ms(self.game_settings.round_duration);
        let ticket = self.pending.add(RoomPending::Round, budget, now);
        self.round_ticket = Some(ticket);
        effects.push(RoomEffect::Schedule { id: ticket.id, timeout_ms: budget });
        effects
    }

    /// A member answers the running round: record it once per member, tell
    /// everyone who answered, and end the round early when every member has.
    pub fn send_answer(&mut self, requester: u64, corr: u128, answer: String, now: u64) -> (effects:
        Vec<RoomEffect>)
        requires
            old(self).wf(),
        ensures
            final(self).wf(),
            final(self).name == old(self).name,
            final(self).clients@ == old(self).clients@,
            final(self).game_settings == old(self).game_settings,
            replies_echo(effects@, corr),
            old(self).rounds_in_bounds() ==> final(self).rounds_in_bounds(),
            !old(self).has_member_session(requester) ==> *final(self) == *old(self) && effects@.len()
                == 0,
            old(self).has_member_session(requester) ==> exists|i: int|
                {
                    &&& 0 <= i < old(self).clients@.len()
                    &&& (#[trigger] old(self).clients@[i]).1.session == requester
                    &&& {
                        let uuid = old(self).clients@[i].0;
                        if !old(self).is_game_running || old(self).current_question is None {
                            &&& *final(self) == *old(self)
                            &&& effects@.len() == 1
                            &&& is_send_status(effects@[0], requester, corr, "no active round"@)
                        } else if answer_ids(old(self).current_answers@).contains(uuid) {
                            &&& *final(self) == *old(self)
                            &&& effects@.len() == 1
                            &&& is_send_status(effects@[0], requester, corr, "already answered"@)
                        } else {
                            let new_answer = AnswerInfo {
                                id: uuid,
                                answer,
                                is_correct: (match old(self).current_question {
                                    Some(q) => answer_is_correct(q, answer@),
                                    None => false,
                                }),
                                answer_time: elapsed_ms(old(self).round_start, now),
                            };
                            let appended = old(self).current_answers@.push(new_answer);
                            &&& effects@.len() >= 2
                            &&& is_send_status(effects@[0], requester, corr, "success"@)
                            &&& is_broadcast_to(effects@[1], member_sessions(old(self).clients@))
                            &&& is_answered_notif(effect_msg(effects@[1]), uuid)
                            &&& if appended.len() != old(self).clients@.len() {
                                &&& final(self).current_answers@ == appended
                                &&& final(self).current_question == old(self).current_question
                                &&& final(self).is_game_running == old(self).is_game_running
                                &&& final(self).round_ticket == old(self).round_ticket
                                &&& final(self).round_start == old(self).round_start
                                &&& final(self).rounds_played == old(self).rounds_played
                                &&& final(self).pending@ == old(self).pending@
                                &&& effects@.len() == 2
                            } else {
                                let mid_pending = match old(self).round_ticket {
                                    Some(t) => old(self).pending@.remove(t.id),
                                    None => old(self).pending@,
                                };
                                finish_round_relation(
                                    old(self).clients@,
                                    old(self).game_settings,
                                    old(self).current_question,
                                    appended,
                                    mid_pending,
                                    None,
                                    old(self).round_start,
                                    old(self).rounds_played,
                                    true,
                                    *final(self),
                                    effects@.subrange(2, effects@.len() as int),
                                    now,
                                )
                            }
                        }
                    }
                },
    {
        let mut effects: Vec<RoomEffect> = Vec::new();
        let (uuid, _room_info) = match self.find_client(requester) {
            Some(x) => x,
            None => {
                return effects;
            },
        };
        if !self.is_game_running || self.current_question.is_none() {
            effects.push(
                RoomEffect::Send { session: requester, msg: status_msg(corr, "no active round") },
            );
            return effects;
        }
        let answered = self.answered_ids();
        if Self::vec_contains_id(&answered, uuid) {
            effects.push(
                RoomEffect::Send { session: requester, msg: status_msg(corr, "already answered") },
            );
            return effects;
        }
        let elapsed = match self.round_start {
            Some(s) => if now >= s {
                now - s
            } else {
                0
            },
            None => 0,
        };
        let is_correct = match &self.current_question {
            Some(q) => Self::reading_matches(q, &answer),
            None => false,
        };
        self.current_answers.push(
            AnswerInfo { id: uuid, answer, is_correct, answer_time: elapsed },
        );
        proof {
            lemma_push_unique(
                answer_ids(old(self).current_answers@),
                uuid,
            );
            assert(answer_ids(self.current_answers@) =~= answer_ids(
                old(self).current_answers@,
            ).push(uuid));
        }
        effects.push(RoomEffect::Send { session: requester, msg: status_msg(corr, "success") });
        effects.push(
            self.broadcast_effect(
                TransportMsg::OutNotifClientAnswered(
                    TransportEnvelope {
                        correlation_id: fresh_uuid(),
                        payload: OutNotifClientAnswered { id: uuid },
                    },
                ),
            ),
        );
        if self.current_answers.len() == self.clients.len() {
            match self.round_ticket {
                Some(t) => {
                    self.pending.cancel(t);
                    self.round_ticket = None;
                },
                None => (),
            }
            let mut feff = self.finish_round(now);
            let ghost fe = feff@;
            effects.append(&mut feff);
            proof {
                assert(effects@.subrange(2, effects@.len() as int) =~= fe);
            }
        }
        effects
    }

    /// Whether the answer reads as one of the question's accepted readings.
    fn reading_matches(q: &QuestionInfo, answer: &String) -> (r: bool)
        ensures
            r == answer_is_correct(*q, answer@),
    {
        let mut i: usize = 0;
        while i < q.word_info.readings.len()
            invariant
                i <= q.word_info.readings@.len(),
                forall|j: int|
                    0 <= j < i ==> (#[trigger] q.word_info.readings@[j]).reading@ != answer@,
            decreases q.word_info.readings@.len() - i,
        {
            if q.word_info.readings[i].reading == *answer {
                proof {
                    assert(q.word_info.readings@[i as int].reading@ == answer@);
                }
                return true;
            }
            i = i + 1;
        }
        false
    }

    /// Stop the running game: admin only.  The missing answers of a running
    /// round are filled in, everyone sees the final state, and all round
    /// fields reset — the rounds played among them.
    pub fn stop_game(&mut self, requester: u64, corr: u128) -> (effects: Vec<RoomEffect>)
        requires
            old(self).wf(),
        ensures
            final(self).wf(),
            final(self).name == old(self).name,
            final(self).clients == old(self).clients,
            final(self).game_settings == old(self).game_settings,
            old(self).rounds_in_bounds() ==> final(self).rounds_in_bounds(),
            replies_echo(effects@, corr),
            !old(self).has_member_session(requester) ==> *final(self) == *old(self) && effects@.len()
                == 0,
            old(self).has_member_session(requester) ==> exists|i: int|
                {
                    &&& 0 <= i < old(self).clients@.len()
                    &&& (#[trigger] old(self).clients@[i]).1.session == requester
                    &&& if !old(self).clients@[i].1.room_info.is_admin {
                        &&& *final(self) == *old(self)
                        &&& effects@.len() == 1
                        &&& is_send_status(effects@[0], requester, corr, "not admin"@)
                    } else if !old(self).is_game_running {
                        &&& *final(self) == *old(self)
                        &&& effects@.len() == 1
                        &&& is_send_status(effects@[0], requester, corr, "not running"@)
                    } else {
                        &&& !final(self).is_game_running
                        &&& final(self).current_question is None
                        &&& final(self).current_answers@.len() == 0
                        &&& final(self).round_start is None
                        &&& final(self).round_ticket is None
                        &&& final(self).rounds_played == 0
                        &&& final(self).pending@ == (match old(self).round_ticket {
                            Some(t) => old(self).pending@.remove(t.id),
                            None => old(self).pending@,
                        })
                        &&& effects@.len() == 2
                        &&& is_send_status(effects@[0], requester, corr, "success"@)
                        &&& is_broadcast_to(effects@[1], member_sessions(old(self).clients@))
                        &&& (match as_game_stopped(effect_msg(effects@[1])) {
                            Some(p) => if old(self).current_question is Some {
                                &&& p.question == old(self).current_question.unwrap()
                                &&& filled_answers(
                                    old(self).clients@,
                                    old(self).game_settings,
                                    old(self).current_answers@,
                                    p.answers@,
                                )
                            } else {
                                &&& is_default_question(p.question)
                                &&& p.answers@ == old(self).current_answers@
                            },
                            None => false,
                        })
                    }
                },
    {
        let mut effects: Vec<RoomEffect> = Vec::new();
        let (_uuid, room_info) = match self.find_client(requester) {
            Some(x) => x,
            None => {
                return effects;
            },
        };
        if !room_info.is_admin {
            effects.push(
                RoomEffect::Send { session: requester, msg: status_msg(corr, "not admin") },
            );
            return effects;
        }
        if !self.is_game_running {
            effects.push(
                RoomEffect::Send { session: requester, msg: status_msg(corr, "not running") },
            );
            return effects;
        }
        match self.round_ticket {
            Some(t) => {
                self.pending.cancel(t);
                self.round_ticket = None;
            },
            None => (),
        }
        let had_question = self.current_question.is_some();
        if had_question {
            self.push_missing_answers();
        }
        effects.push(RoomEffect::Send { session: requester, msg: status_msg(corr, "success") });
        let mut answers: Vec<AnswerInfo> = Vec::new();
        core::mem::swap(&mut answers, &mut self.current_answers);
        let mut taken: Option<QuestionInfo> = None;
        core::mem::swap(&mut taken, &mut self.current_question);
        let question = match taken {
            Some(q) => q,
            None => QuestionInfo::default(),
        };
        effects.push(
            self.broadcast_effect(
                TransportMsg::OutNotifGameStopped(
                    TransportEnvelope {
                        correlation_id: fresh_uuid(),
                        payload: OutNotifGameStopped { question, answers },
                    },
                ),
            ),
        );
        self.is_game_running = false;
        self.round_start = None;
        self.rounds_played = 0;
        effects
    }
}

/// Copy the settings field by field.
pub fn dup_settings(g: &GameSettings) -> (r: GameSettings)
    ensures
        r == *g,
{
    GameSettings {
        min_frequency: g.min_frequency,
        max_frequency: g.max_frequency,
        using_max_frequency: g.using_max_frequency,
        round_duration: g.round_duration,
        rounds_count: g.rounds_count,
        word_part: match &g.word_part {
            Some(s) => Some(s.clone()),
            None => None,
        },
        word_part_reading: match &g.word_part_reading {
            Some(s) => Some(s.clone()),
            None => None,
        },
        fonts_count: g.fonts_count,
        first_font_name: match &g.first_font_name {
            Some(s) => Some(s.clone()),
            None => None,
        },
    }
}

proof fn lemma_push_unique<A>(s: Seq<A>, x: A)
    requires
        s.no_duplicates(),
        !s.contains(x),
    ensures
        s.push(x).no_duplicates(),
{
    assert forall|i: int, j: int| 0 <= i < j < s.push(x).len() implies s.push(x)[i] != s.push(x)[j] by {
        if j == s.len() {
            assert(s.push(x)[i] == s[i]);
        }
    }
}

} // verus!
