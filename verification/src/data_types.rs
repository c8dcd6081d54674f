//! Typed wire messages.
//!
//! Every message on the wire is an envelope `{messageType, correlationId,
//! payload}`; the closed tag set has five families: client requests
//! (`IN_REQ_*`), server replies (`OUT_RESP_*`), server requests (`OUT_REQ_*`),
//! client replies (`IN_RESP_*`) and server notifications (`OUT_NOTIF_*`).
//! Identifiers travel as hyphenated hexadecimal text and are held here as
//! their 128-bit values (see `ids`).

use vstd::prelude::*;

verus! {

/// The outer frame of every message: a reply echoes the request's
/// `correlation_id`; a notification carries a fresh one.
#[derive(Debug, Clone, PartialEq, Eq)]
pub struct TransportEnvelope<T> {
    pub correlation_id: u128,
    pub payload: T,
}

/// A member as shown to clients.
#[derive(Debug, Clone, PartialEq, Eq)]
pub struct ClientInfo {
    pub id: u128,
    pub key: String,
    pub name: String,
    pub is_admin: bool,
}

/// One example word for a word part.
#[derive(Debug, Clone, PartialEq, Eq)]
pub struct WordPartExample {
    pub word: String,
    pub reading: String,
}

/// A part of a word together with its reading and examples.
#[derive(Debug, Clone, PartialEq, Eq)]
pub struct WordPartInfo {
    pub word_part: String,
    pub word_part_reading: String,
    pub examples: Vec<WordPartExample>,
}

/// One accepted reading of the word under question.
#[derive(Debug, Clone, PartialEq, Eq)]
pub struct ReadingWithParts {
    pub reading: String,
    pub parts: Vec<WordPartInfo>,
}

/// The word a round asks about: an answer is correct exactly when it equals
/// one of the readings.
#[derive(Debug, Clone, PartialEq, Eq)]
pub struct WordInfo {
    pub word: String,
    pub meanings: Vec<String>,
    pub readings: Vec<ReadingWithParts>,
}

/// A round's question as supplied by the admin.
#[derive(Debug, Clone, PartialEq, Eq)]
pub struct QuestionInfo {
    pub word_info: WordInfo,
    pub font_name: String,
}

/// One member's answer within a round; `answer_time` is in milliseconds.
#[derive(Debug, Clone, PartialEq, Eq)]
pub struct AnswerInfo {
    pub id: u128,
    pub answer: String,
    pub is_correct: bool,
    pub answer_time: u64,
}

/// The room's settings; `round_duration` is in seconds.
#[derive(Debug, Clone, PartialEq, Eq)]
pub struct GameSettings {
    pub min_frequency: u64,
    pub max_frequency: u64,
    pub using_max_frequency: bool,
    pub round_duration: u64,
    pub rounds_count: u64,
    pub word_part: Option<String>,
    pub word_part_reading: Option<String>,
    pub fonts_count: u64,
    pub first_font_name: Option<String>,
}

/// The settings a room starts with, and the settings echoed in the
/// registration reply.
pub open spec fn spec_default_settings() -> GameSettings {
    GameSettings {
        min_frequency: 0,
        max_frequency: 0,
        using_max_frequency: false,
        round_duration: 0,
        rounds_count: 0,
        word_part: None,
        word_part_reading: None,
        fonts_count: 0,
        first_font_name: None,
    }
}

impl Default for GameSettings {
    fn default() -> (r: Self)
        ensures
            r == spec_default_settings(),
    {
        GameSettings {
            min_frequency: 0,
            max_frequency: 0,
            using_max_frequency: false,
            round_duration: 0,
            rounds_count: 0,
            word_part: None,
            word_part_reading: None,
            fonts_count: 0,
            first_font_name: None,
        }
    }
}

pub open spec fn is_default_question(q: QuestionInfo) -> bool {
    &&& q.word_info.word@ == Seq::<char>::empty()
    &&& q.word_info.meanings@.len() == 0
    &&& q.word_info.readings@.len() == 0
    &&& q.font_name@ == Seq::<char>::empty()
}

impl Default for QuestionInfo {
    fn default() -> (r: Self)
        ensures
            is_default_question(r),
    {
        QuestionInfo {
            word_info: WordInfo { word: String::new(), meanings: Vec::new(), readings: Vec::new() },
            font_name: String::new(),
        }
    }
}

// Client requests.
#[derive(Debug, Clone, PartialEq, Eq)]
pub struct InReqSendPublicKey {
    pub key: String,
}

#[derive(Debug, Clone, PartialEq, Eq)]
pub struct InReqVerifySignature {
    pub signature: String,
}

#[derive(Debug, Clone, PartialEq, Eq)]
pub struct InReqRegisterClient {
    pub name: String,
}

#[derive(Debug, Clone, PartialEq, Eq)]
pub struct InReqSendChat {
    pub message: String,
}

#[derive(Debug, Clone, PartialEq, Eq)]
pub struct InReqMakeAdmin {
    pub admin_password: String,
    pub client_id: u128,
}

#[derive(Debug, Clone, PartialEq, Eq)]
pub struct InReqClientList {
}

#[derive(Debug, Clone, PartialEq, Eq)]
pub struct InReqStartGame {
    pub game_settings: GameSettings,
}

#[derive(Debug, Clone, PartialEq, Eq)]
pub struct InReqStopGame {
}

#[derive(Debug, Clone, PartialEq, Eq)]
pub struct InReqSendAnswer {
    pub answer: String,
}

#[derive(Debug, Clone, PartialEq, Eq)]
pub struct InReqSendGameSettings {
    pub game_settings: GameSettings,
}

// Server replies.
#[derive(Debug, Clone, PartialEq, Eq)]
pub struct OutRespClientRegistered {
    pub id: u128,
    pub game_settings: GameSettings,
}

#[derive(Debug, Clone, PartialEq, Eq)]
pub struct OutRespStatus {
    pub status: String,
}

#[derive(Debug, Clone, PartialEq, Eq)]
pub struct OutRespClientList {
    pub clients: Vec<ClientInfo>,
}

#[derive(Debug, Clone, PartialEq, Eq)]
pub struct OutRespSignMessage {
    pub message: String,
}

// Server requests.
#[derive(Debug, Clone, PartialEq, Eq)]
pub struct OutReqQuestion {
}

// Client replies.
#[derive(Debug, Clone, PartialEq, Eq)]
pub struct InRespQuestion {
    pub question: QuestionInfo,
    pub question_svg: String,
}

// Server notifications.
#[derive(Debug, Clone, PartialEq, Eq)]
pub struct OutNotifClientRegistered {
    pub client: ClientInfo,
}

#[derive(Debug, Clone, PartialEq, Eq)]
pub struct OutNotifClientDisconnected {
    pub id: u128,
}

#[derive(Debug, Clone, PartialEq, Eq)]
pub struct OutNotifChatSent {
    pub id: u128,
    pub message: String,
}

#[derive(Debug, Clone, PartialEq, Eq)]
pub struct OutNotifAdminMade {
    pub id: u128,
}

#[derive(Debug, Clone, PartialEq, Eq)]
pub struct OutNotifGameStarted {
    pub game_settings: GameSettings,
}

#[derive(Debug, Clone, PartialEq, Eq)]
pub struct OutNotifGameStopped {
    pub question: QuestionInfo,
    pub answers: Vec<AnswerInfo>,
}

#[derive(Debug, Clone, PartialEq, Eq)]
pub struct OutNotifQuestion {
    pub question_svg: String,
}

#[derive(Debug, Clone, PartialEq, Eq)]
pub struct OutNotifClientAnswered {
    pub id: u128,
}

#[derive(Debug, Clone, PartialEq, Eq)]
pub struct OutNotifRoundEnded {
    pub question: QuestionInfo,
    pub answers: Vec<AnswerInfo>,
}

#[derive(Debug, Clone, PartialEq, Eq)]
pub struct OutNotifGameSettingsChanged {
    pub game_settings: GameSettings,
}

/// A frame handed to a connection's transport: raw text goes out as it is, a
/// typed message is serialized first.
#[derive(Debug, Clone, PartialEq, Eq)]
pub enum ToTransport {
    Raw(String),
    Ws(TransportMsg),
}

/// Every message of the protocol, by tag.
#[derive(Debug, Clone, PartialEq, Eq)]
pub enum TransportMsg {
    InReqSendPublicKey(TransportEnvelope<InReqSendPublicKey>),
    InReqVerifySignature(TransportEnvelope<InReqVerifySignature>),
    InReqRegisterClient(TransportEnvelope<InReqRegisterClient>),
    InReqSendChat(TransportEnvelope<InReqSendChat>),
    InReqMakeAdmin(TransportEnvelope<InReqMakeAdmin>),
    InReqClientList(TransportEnvelope<InReqClientList>),
    InReqStartGame(TransportEnvelope<InReqStartGame>),
    InReqStopGame(TransportEnvelope<InReqStopGame>),
    InReqSendAnswer(TransportEnvelope<InReqSendAnswer>),
    InReqSendGameSettings(TransportEnvelope<InReqSendGameSettings>),
    OutRespClientRegistered(TransportEnvelope<OutRespClientRegistered>),
    OutRespStatus(TransportEnvelope<OutRespStatus>),
    OutRespClientList(TransportEnvelope<OutRespClientList>),
    OutRespSignMessage(TransportEnvelope<OutRespSignMessage>),
    OutReqQuestion(TransportEnvelope<OutReqQuestion>),
    InRespQuestion(TransportEnvelope<InRespQuestion>),
    OutNotifClientRegistered(TransportEnvelope<OutNotifClientRegistered>),
    OutNotifClientDisconnected(TransportEnvelope<OutNotifClientDisconnected>),
    OutNotifChatSent(TransportEnvelope<OutNotifChatSent>),
    OutNotifAdminMade(TransportEnvelope<OutNotifAdminMade>),
    OutNotifGameStarted(TransportEnvelope<OutNotifGameStarted>),
    OutNotifGameStopped(TransportEnvelope<OutNotifGameStopped>),
    OutNotifQuestion(TransportEnvelope<OutNotifQuestion>),
    OutNotifClientAnswered(TransportEnvelope<OutNotifClientAnswered>),
    OutNotifRoundEnded(TransportEnvelope<OutNotifRoundEnded>),
    OutNotifGameSettingsChanged(TransportEnvelope<OutNotifGameSettingsChanged>),
}

impl TransportMsg {
    /// Whether this message is a reply to a client request.
    pub open spec fn is_out_resp(self) -> bool {
        match self {
            TransportMsg::OutRespClientRegistered(_) => true,
            TransportMsg::OutRespStatus(_) => true,
            TransportMsg::OutRespClientList(_) => true,
            TransportMsg::OutRespSignMessage(_) => true,
            _ => false,
        }
    }

    /// The correlation identifier of the envelope, whatever the tag.
    pub open spec fn corr_of(self) -> u128 {
        match self {
            TransportMsg::InReqSendPublicKey(e) => e.correlation_id,
            TransportMsg::InReqVerifySignature(e) => e.correlation_id,
            TransportMsg::InReqRegisterClient(e) => e.correlation_id,
            TransportMsg::InReqSendChat(e) => e.correlation_id,
            TransportMsg::InReqMakeAdmin(e) => e.correlation_id,
            TransportMsg::InReqClientList(e) => e.correlation_id,
            TransportMsg::InReqStartGame(e) => e.correlation_id,
            TransportMsg::InReqStopGame(e) => e.correlation_id,
            TransportMsg::InReqSendAnswer(e) => e.correlation_id,
            TransportMsg::InReqSendGameSettings(e) => e.correlation_id,
            TransportMsg::OutRespClientRegistered(e) => e.correlation_id,
            TransportMsg::OutRespStatus(e) => e.correlation_id,
            TransportMsg::OutRespClientList(e) => e.correlation_id,
            TransportMsg::OutRespSignMessage(e) => e.correlation_id,
            TransportMsg::OutReqQuestion(e) => e.correlation_id,
            TransportMsg::InRespQuestion(e) => e.correlation_id,
            TransportMsg::OutNotifClientRegistered(e) => e.correlation_id,
            TransportMsg::OutNotifClientDisconnected(e) => e.correlation_id,
            TransportMsg::OutNotifChatSent(e) => e.correlation_id,
            TransportMsg::OutNotifAdminMade(e) => e.correlation_id,
            TransportMsg::OutNotifGameStarted(e) => e.correlation_id,
            TransportMsg::OutNotifGameStopped(e) => e.correlation_id,
            TransportMsg::OutNotifQuestion(e) => e.correlation_id,
            TransportMsg::OutNotifClientAnswered(e) => e.correlation_id,
            TransportMsg::OutNotifRoundEnded(e) => e.correlation_id,
            TransportMsg::OutNotifGameSettingsChanged(e) => e.correlation_id,
        }
    }
}

/// An answer is correct exactly when it reads as one of the question's
/// accepted readings.
pub open spec fn answer_is_correct(q: QuestionInfo, answer: Seq<char>) -> bool {
    exists|i: int| 0 <= i < q.word_info.readings@.len() && q.word_info.readings@[i].reading@ == answer
}

/// The status reply with the request's correlation identifier and the given
/// status text.
pub open spec fn is_status_msg(m: TransportMsg, corr: u128, status: Seq<char>) -> bool {
    match m {
        TransportMsg::OutRespStatus(e) => e.correlation_id == corr && e.payload.status@ == status,
        _ => false,
    }
}

/// Build a status reply.
pub fn status_msg(corr: u128, status: &str) -> (m: TransportMsg)
    ensures
        is_status_msg(m, corr, status@),
        m.is_out_resp() && m.corr_of() == corr,
{
    TransportMsg::OutRespStatus(
        TransportEnvelope {
            correlation_id: corr,
            payload: OutRespStatus { status: status.to_owned() },
        },
    )
}

} // verus!
