//! Per-connection session state machine.
//!
//! A session holds the handshake state of one connection: the public key the
//! peer announced, the outstanding sign challenge, whether a signature has
//! been verified, and whether a room reference has been set.  `handle` takes
//! one decoded message and decides what changes and what goes out: messages
//! back to the connection's own transport, a registration request to the
//! game, or a room request.  The surrounding runtime delivers the actions.

use vstd::prelude::*;
use vstd::string::StringSliceAdditionalSpecFns;
use vstd::utf8::is_ascii_chars;
use crate::data_types::{
    GameSettings, OutRespSignMessage, QuestionInfo, ToTransport, TransportEnvelope, TransportMsg,
    is_status_msg, status_msg,
};
use crate::ids::{ascii_bytes, fresh_uuid, lemma_uuid_seq_ascii, uuid_seq, uuid_string};
use crate::tools::{verify_signature, verify_signature_result};

verus! {

/// A request forwarded to the room on behalf of this session.
#[derive(Debug, Clone, PartialEq, Eq)]
pub enum RoomRequest {
    ClientList { corr: u128 },
    SetGameSettings { corr: u128, game_settings: GameSettings },
    SendChat { corr: u128, message: String },
    StartGame { corr: u128, game_settings: GameSettings },
    ProvideQuestion { corr: u128, question: QuestionInfo, question_svg: String },
    SendAnswer { corr: u128, answer: String },
    StopGame { corr: u128 },
}

/// What the session asks its surroundings to do after a step.
#[derive(Debug, Clone, PartialEq, Eq)]
pub enum SessionAction {
    /// Hand a frame to this connection's transport.
    Transport(ToTransport),
    /// Ask the game to register this session.
    TellGameRegister { name: String, pub_key: String, corr: u128 },
    /// Forward a request to the current room.
    TellRoom(RoomRequest),
}

/// Ask the session to stop; the runtime kills the actor on receipt.
#[derive(Debug, Clone, Copy, PartialEq, Eq)]
pub struct Shutdown;

/// Send raw text over this connection.
#[derive(Debug, Clone, PartialEq, Eq)]
pub struct SendRaw(pub String);

/// Send a typed message over this connection.
#[derive(Debug, Clone, PartialEq, Eq)]
pub struct SendWs(pub TransportMsg);

/// Handshake and routing state of one connection.
pub struct SessionClientActor {
    pub pub_key: Option<String>,
    pub sign_challenge: Option<u128>,
    pub signature_verified: bool,
    pub room_set: bool,
}

/// The action is a status reply to the connection itself.
pub open spec fn is_transport_status(a: SessionAction, corr: u128, status: Seq<char>) -> bool {
    match a {
        SessionAction::Transport(ToTransport::Ws(m)) => is_status_msg(m, corr, status),
        _ => false,
    }
}

/// The action is the sign-challenge reply carrying `message`.
pub open spec fn is_sign_message(a: SessionAction, corr: u128, message: Seq<char>) -> bool {
    match a {
        SessionAction::Transport(ToTransport::Ws(TransportMsg::OutRespSignMessage(e))) => e.correlation_id
            == corr && e.payload.message@ == message,
        _ => false,
    }
}

pub open spec fn unchanged(pre: SessionClientActor, post: SessionClientActor) -> bool {
    &&& post.pub_key == pre.pub_key
    &&& post.sign_challenge == pre.sign_challenge
    &&& post.signature_verified == pre.signature_verified
    &&& post.room_set == pre.room_set
}

/// The boolean the session stores after a verify-signature exchange when a
/// challenge and a key are present: the curve check's outcome, or false when
/// the exchange itself was rejected.
pub open spec fn verify_outcome(pre: SessionClientActor, signature: Seq<char>) -> bool {
    match verify_signature_result(
        ascii_bytes(uuid_seq(pre.sign_challenge.unwrap())),
        signature,
        pre.pub_key.unwrap()@,
    ) {
        Ok(b) => b,
        Err(_) => false,
    }
}

/// Whether the room can be reached: a reference was set and it is still
/// alive.
pub open spec fn room_reachable(pre: SessionClientActor, room_alive: bool) -> bool {
    pre.room_set && room_alive
}

/// What one session step does, for every message: how the state changes and
/// which actions come out, up to the freshly drawn challenge value.
pub open spec fn session_step_ok(
    pre: SessionClientActor,
    post: SessionClientActor,
    msg: TransportMsg,
    room_alive: bool,
    game_alive: bool,
    acts: Seq<SessionAction>,
) -> bool {
    match msg {
        TransportMsg::InReqSendPublicKey(env) => {
            &&& post.pub_key == Some(env.payload.key)
            &&& post.sign_challenge is Some
            &&& post.signature_verified == pre.signature_verified
            &&& post.room_set == pre.room_set
            &&& if pre.signature_verified {
                &&& acts.len() == 2
                &&& is_transport_status(acts[0], env.correlation_id, "signature already verified"@)
                &&& is_sign_message(acts[1], env.correlation_id, uuid_seq(post.sign_challenge.unwrap()))
            } else {
                &&& acts.len() == 1
                &&& is_sign_message(acts[0], env.correlation_id, uuid_seq(post.sign_challenge.unwrap()))
            }
        },
        TransportMsg::InReqVerifySignature(env) => {
            if pre.sign_challenge is None {
                &&& unchanged(pre, post)
                &&& acts.len() == 1
                &&& is_transport_status(acts[0], env.correlation_id, "no stored challenges"@)
            } else if pre.pub_key is None {
                &&& unchanged(pre, post)
                &&& acts.len() == 1
                &&& is_transport_status(acts[0], env.correlation_id, "no public key"@)
            } else {
                &&& post.pub_key == pre.pub_key
                &&& post.sign_challenge == pre.sign_challenge
                &&& post.room_set == pre.room_set
                &&& post.signature_verified == verify_outcome(pre, env.payload.signature@)
                &&& match verify_signature_result(
                    ascii_bytes(uuid_seq(pre.sign_challenge.unwrap())),
                    env.payload.signature@,
                    pre.pub_key.unwrap()@,
                ) {
                    Ok(b) => acts.len() == 1 && is_transport_status(
                        acts[0],
                        env.correlation_id,
                        if b {
                            "success"@
                        } else {
                            "error"@
                        },
                    ),
                    Err(_) => acts.len() == 2 && is_transport_status(
                        acts[0],
                        env.correlation_id,
                        "error"@,
                    ) && is_transport_status(acts[1], env.correlation_id, "error"@),
                }
            }
        },
        TransportMsg::InReqRegisterClient(env) => {
            &&& unchanged(pre, post)
            &&& if !pre.signature_verified || !game_alive {
                acts.len() == 1 && is_transport_status(acts[0], env.correlation_id, "error"@)
            } else if pre.pub_key is None {
                acts.len() == 1 && is_transport_status(acts[0], env.correlation_id, "no public key"@)
            } else {
                acts.len() == 1 && acts[0] == (SessionAction::TellGameRegister {
                    name: env.payload.name,
                    pub_key: pre.pub_key.unwrap(),
                    corr: env.correlation_id,
                })
            }
        },
        TransportMsg::InReqClientList(env) => {
            &&& unchanged(pre, post)
            &&& if room_reachable(pre, room_alive) {
                acts =~= seq![SessionAction::TellRoom(RoomRequest::ClientList { corr: env.correlation_id })]
            } else {
                acts.len() == 1 && is_transport_status(acts[0], env.correlation_id, "no room"@)
            }
        },
        TransportMsg::InReqSendGameSettings(env) => {
            &&& unchanged(pre, post)
            &&& if room_reachable(pre, room_alive) {
                acts =~= seq![
                    SessionAction::TellRoom(
                        RoomRequest::SetGameSettings {
                            corr: env.correlation_id,
                            game_settings: env.payload.game_settings,
                        },
                    ),
                ]
            } else {
                acts.len() == 1 && is_transport_status(acts[0], env.correlation_id, "no room"@)
            }
        },
        TransportMsg::InReqSendChat(env) => {
            &&& unchanged(pre, post)
            &&& if room_reachable(pre, room_alive) {
                acts =~= seq![
                    SessionAction::TellRoom(
                        RoomRequest::SendChat {
                            corr: env.correlation_id,
                            message: env.payload.message,
                        },
                    ),
                ]
            } else {
                acts.len() == 1 && is_transport_status(acts[0], env.correlation_id, "no room"@)
            }
        },
        TransportMsg::InReqStartGame(env) => {
            &&& unchanged(pre, post)
            &&& if room_reachable(pre, room_alive) {
                acts =~= seq![
                    SessionAction::TellRoom(
                        RoomRequest::StartGame {
                            corr: env.correlation_id,
                            game_settings: env.payload.game_settings,
                        },
                    ),
                ]
            } else {
                acts.len() == 1 && is_transport_status(acts[0], env.correlation_id, "no room"@)
            }
        },
        TransportMsg::InRespQuestion(env) => {
            &&& unchanged(pre, post)
            &&& if room_reachable(pre, room_alive) {
                acts =~= seq![
                    SessionAction::TellRoom(
                        RoomRequest::ProvideQuestion {
                            corr: env.correlation_id,
                            question: env.payload.question,
                            question_svg: env.payload.question_svg,
                        },
                    ),
                ]
            } else {
                acts.len() == 0
            }
        },
        TransportMsg::InReqSendAnswer(env) => {
            &&& unchanged(pre, post)
            &&& if room_reachable(pre, room_alive) {
                acts =~= seq![
                    SessionAction::TellRoom(
                        RoomRequest::SendAnswer {
                            corr: env.correlation_id,
                            answer: env.payload.answer,
                        },
                    ),
                ]
            } else {
                acts.len() == 1 && is_transport_status(acts[0], env.correlation_id, "no room"@)
            }
        },
        TransportMsg::InReqStopGame(env) => {
            &&& unchanged(pre, post)
            &&& if room_reachable(pre, room_alive) {
                acts =~= seq![SessionAction::TellRoom(RoomRequest::StopGame { corr: env.correlation_id })]
            } else {
                acts.len() == 1 && is_transport_status(acts[0], env.correlation_id, "no room"@)
            }
        },
        // Everything else inbound is out of protocol: logged and dropped.
        _ => unchanged(pre, post) && acts.len() == 0,
    }
}

impl SessionClientActor {
    pub fn new() -> (s: Self)
        ensures
            s.pub_key is None,
            s.sign_challenge is None,
            !s.signature_verified,
            !s.room_set,
    {
        SessionClientActor {
            pub_key: None,
            sign_challenge: None,
            signature_verified: false,
            room_set: false,
        }
    }

    /// The game handed this session its room reference.
    pub fn set_room(&mut self)
        ensures
            final(self).room_set,
            final(self).pub_key == old(self).pub_key,
            final(self).sign_challenge == old(self).sign_challenge,
            final(self).signature_verified == old(self).signature_verified,
    {
        self.room_set = true;
    }

    /// Forward raw text to this connection's transport.
    pub fn handle_send_raw(&self, m: SendRaw) -> (a: SessionAction)
        ensures
            a == SessionAction::Transport(ToTransport::Raw(m.0)),
    {
        SessionAction::Transport(ToTransport::Raw(m.0))
    }

    /// Forward a typed message to this connection's transport.
    pub fn handle_send_ws(&self, m: SendWs) -> (a: SessionAction)
        ensures
            a == SessionAction::Transport(ToTransport::Ws(m.0)),
    {
        SessionAction::Transport(ToTransport::Ws(m.0))
    }

    /// One step of the session state machine.  `room_alive` and `game_alive`
    /// say whether the weakly referenced room and game can still be reached.
    /// Every reply echoes the request's correlation identifier, and
    /// `signature_verified` moves as the verify exchange dictates.
    pub fn handle(&mut self, msg: TransportMsg, room_alive: bool, game_alive: bool) -> (acts: Vec<
        SessionAction,
    >)
        ensures
            session_step_ok(*old(self), *final(self), msg, room_alive, game_alive, acts@),
            // Replies echo the request's correlation identifier.
            forall|k: int|
                0 <= k < acts@.len() ==> match #[trigger] acts@[k] {
                    SessionAction::Transport(ToTransport::Ws(m)) => m.is_out_resp()
                        ==> m.corr_of() == msg.corr_of(),
                    _ => true,
                },
    {
        let mut acts: Vec<SessionAction> = Vec::new();
        match msg {
            TransportMsg::InReqSendPublicKey(env) => {
                if self.signature_verified {
                    acts.push(
                        SessionAction::Transport(
                            ToTransport::Ws(
                                status_msg(env.correlation_id, "signature already verified"),
                            ),
                        ),
                    );
                }
                self.pub_key = Some(env.payload.key);
                let challenge = fresh_uuid();
                self.sign_challenge = Some(challenge);
                let resp = TransportMsg::OutRespSignMessage(
                    TransportEnvelope {
                        correlation_id: env.correlation_id,
                        payload: OutRespSignMessage { message: uuid_string(challenge) },
                    },
                );
                acts.push(SessionAction::Transport(ToTransport::Ws(resp)));
            },
            TransportMsg::InReqVerifySignature(env) => {
                let challenge = match self.sign_challenge {
                    Some(c) => c,
                    None => {
                        acts.push(
                            SessionAction::Transport(
                                ToTransport::Ws(status_msg(env.correlation_id, "no stored challenges")),
                            ),
                        );
                        return acts;
                    },
                };
                let key_ok = self.pub_key.is_some();
                if !key_ok {
                    acts.push(
                        SessionAction::Transport(
                            ToTransport::Ws(status_msg(env.correlation_id, "no public key")),
                        ),
                    );
                    return acts;
                }
                let challenge_text = uuid_string(challenge);
                let challenge_str = challenge_text.as_str();
                proof {
                    lemma_uuid_seq_ascii(challenge);
                    vstd::utf8::is_ascii_chars_encode_utf8(uuid_seq(challenge));
                    assert(challenge_str@ == uuid_seq(challenge));
                    assert(challenge_str.spec_bytes() =~= ascii_bytes(uuid_seq(challenge)));
                }
                let outcome = match &self.pub_key {
                    Some(key) => verify_signature(
                        challenge_str,
                        env.payload.signature.as_str(),
                        key.as_str(),
                    ),
                    None => {
                        // unreachable: checked just above
                        Err(crate::tools::SigError::InvalidPublicKey)
                    },
                };
                let is_ok = match outcome {
                    Ok(ok) => ok,
                    Err(_) => {
                        acts.push(
                            SessionAction::Transport(
                                ToTransport::Ws(status_msg(env.correlation_id, "error")),
                            ),
                        );
                        false
                    },
                };
                self.signature_verified = is_ok;
                let status = if is_ok {
                    "success"
                } else {
                    "error"
                };
                acts.push(
                    SessionAction::Transport(ToTransport::Ws(status_msg(env.correlation_id, status))),
                );
            },
            TransportMsg::InReqRegisterClient(env) => {
                if !self.signature_verified || !game_alive {
                    acts.push(
                        SessionAction::Transport(
                            ToTransport::Ws(status_msg(env.correlation_id, "error")),
                        ),
                    );
                    return acts;
                }
                match &self.pub_key {
                    Some(key) => {
                        acts.push(
                            SessionAction::TellGameRegister {
                                name: env.payload.name,
                                pub_key: key.clone(),
                                corr: env.correlation_id,
                            },
                        );
                    },
                    None => {
                        acts.push(
                            SessionAction::Transport(
                                ToTransport::Ws(status_msg(env.correlation_id, "no public key")),
                            ),
                        );
                    },
                }
            },
            TransportMsg::InReqClientList(env) => {
                if self.room_set && room_alive {
                    acts.push(
                        SessionAction::TellRoom(RoomRequest::ClientList { corr: env.correlation_id }),
                    );
                } else {
                    acts.push(
                        SessionAction::Transport(
                            ToTransport::Ws(status_msg(env.correlation_id, "no room")),
                        ),
                    );
                }
            },
            TransportMsg::InReqSendGameSettings(env) => {
                if self.room_set && room_alive {
                    acts.push(
                        SessionAction::TellRoom(
                            RoomRequest::SetGameSettings {
                                corr: env.correlation_id,
                                game_settings: env.payload.game_settings,
                            },
                        ),
                    );
                } else {
                    acts.push(
                        SessionAction::Transport(
                            ToTransport::Ws(status_msg(env.correlation_id, "no room")),
                        ),
                    );
                }
            },
            TransportMsg::InReqSendChat(env) => {
                if self.room_set && room_alive {
                    acts.push(
                        SessionAction::TellRoom(
                            RoomRequest::SendChat {
                                corr: env.correlation_id,
                                message: env.payload.message,
                            },
                        ),
                    );
                } else {
                    acts.push(
                        SessionAction::Transport(
                            ToTransport::Ws(status_msg(env.correlation_id, "no room")),
                        ),
                    );
                }
            },
            TransportMsg::InReqStartGame(env) => {
                if self.room_set && room_alive {
                    acts.push(
                        SessionAction::TellRoom(
                            RoomRequest::StartGame {
                                corr: env.correlation_id,
                                game_settings: env.payload.game_settings,
                            },
                        ),
                    );
                } else {
                    acts.push(
                        SessionAction::Transport(
                            ToTransport::Ws(status_msg(env.correlation_id, "no room")),
                        ),
                    );
                }
            },
            TransportMsg::InRespQuestion(env) => {
                if self.room_set && room_alive {
                    acts.push(
                        SessionAction::TellRoom(
                            RoomRequest::ProvideQuestion {
                                corr: env.correlation_id,
                                question: env.payload.question,
                                question_svg: env.payload.question_svg,
                            },
                        ),
                    );
                }
            },
            TransportMsg::InReqSendAnswer(env) => {
                if self.room_set && room_alive {
                    acts.push(
                        SessionAction::TellRoom(
                            RoomRequest::SendAnswer {
                                corr: env.correlation_id,
                                answer: env.payload.answer,
                            },
                        ),
                    );
                } else {
                    acts.push(
                        SessionAction::Transport(
                            ToTransport::Ws(status_msg(env.correlation_id, "no room")),
                        ),
                    );
                }
            },
            TransportMsg::InReqStopGame(env) => {
                if self.room_set && room_alive {
                    acts.push(
                        SessionAction::TellRoom(RoomRequest::StopGame { corr: env.correlation_id }),
                    );
                } else {
                    acts.push(
                        SessionAction::Transport(
                            ToTransport::Ws(status_msg(env.correlation_id, "no room")),
                        ),
                    );
                }
            },
            _ => {
                // Out-of-protocol inbound message: dropped.
            },
        }
        acts
    }
}

/// Within a session, `signature_verified` can go from false to true but never
/// back, except on the one excluded input: a verify-signature exchange, made
/// with a challenge and key present, whose outcome is negative.
pub proof fn lemma_verified_monotone(
    pre: SessionClientActor,
    post: SessionClientActor,
    msg: TransportMsg,
    room_alive: bool,
    game_alive: bool,
    acts: Seq<SessionAction>,
)
    requires
        session_step_ok(pre, post, msg, room_alive, game_alive, acts),
        pre.signature_verified,
        (match msg {
            TransportMsg::InReqVerifySignature(env) => pre.sign_challenge is Some && pre.pub_key is Some
                ==> verify_outcome(pre, env.payload.signature@),
            _ => true,
        }),
    ensures
        post.signature_verified,
{
}

} // verus!
