//! The envelope codec: typed messages to and from JSON values.
//!
//! `represents` says when a JSON value is a faithful wire form of a message:
//! three fields `correlationId` / `messageType` / `payload` (object keys
//! sorted, as the transport delivers them), the identifier as hyphenated
//! hexadecimal text, the tag one of the protocol's closed set, and the
//! payload shaped by the tag.  `serialize` produces such a form and `parse`
//! accepts exactly such forms, so a serialized message always parses.

use vstd::prelude::*;
use crate::data_types::{
    AnswerInfo, ClientInfo, GameSettings, InReqClientList, InReqMakeAdmin, InReqRegisterClient,
    InReqSendAnswer, InReqSendChat, InReqSendGameSettings, InReqSendPublicKey, InReqStartGame,
    InReqStopGame, InReqVerifySignature, InRespQuestion, OutNotifAdminMade, OutNotifChatSent,
    OutNotifClientAnswered, OutNotifClientDisconnected, OutNotifClientRegistered,
    OutNotifGameSettingsChanged, OutNotifGameStarted, OutNotifGameStopped, OutNotifQuestion,
    OutNotifRoundEnded, OutReqQuestion, OutRespClientList, OutRespClientRegistered,
    OutRespSignMessage, OutRespStatus, QuestionInfo, ReadingWithParts, TransportEnvelope,
    TransportMsg, WordInfo, WordPartExample, WordPartInfo,
};
use crate::ids::{lemma_uuid_round_trip, parse_uuid, parse_uuid_seq, uuid_seq, uuid_string};
use crate::json::JsonVal;

verus! {

broadcast use vstd::string::group_string_axioms;

/// Whether `k`'s text is `name`.
fn key_is(k: &String, name: &str) -> (r: bool)
    ensures
        r == (k@ == name@),
{
    *k == name.to_owned()
}

/// A key/value pair for an object under construction.
fn field(name: &str, v: JsonVal) -> (r: (String, JsonVal))
    ensures
        r.0@ == name@,
        r.1 == v,
{
    (name.to_owned(), v)
}

/// A JSON string showing the given text.
pub open spec fn rep_text(x: String, v: JsonVal) -> bool {
    match v {
        JsonVal::Str(s) => s@ == x@,
        _ => false,
    }
}

pub open spec fn rep_text_seq(xs: Seq<String>, s: Seq<JsonVal>) -> bool {
    xs.len() == s.len() && (forall|i: int| 0 <= i < s.len() ==> rep_text(xs[i], #[trigger] s[i]))
}

fn parse_text_vec(vs: &Vec<JsonVal>) -> (r: Option<Vec<String>>)
    ensures
        match r {
            Some(out) => rep_text_seq(out@, vs@),
            None => forall|xs: Seq<String>| !rep_text_seq(xs, vs@),
        },
{
    let mut out: Vec<String> = Vec::new();
    let mut k: usize = 0;
    while k < vs.len()
        invariant
            k <= vs@.len(),
            out@.len() == k,
            forall|i: int| 0 <= i < k ==> rep_text(out@[i], #[trigger] vs@[i]),
        decreases vs@.len() - k,
    {
        match &vs[k] {
            JsonVal::Str(s) => out.push(s.clone()),
            _ => {
                proof {
                    assert forall|xs: Seq<String>| !rep_text_seq(xs, vs@) by {
                        if rep_text_seq(xs, vs@) {
                            assert(rep_text(xs[k as int], vs@[k as int]));
                        }
                    }
                }
                return None;
            },
        }
        k = k + 1;
    }
    Some(out)
}

fn enc_text_vec(xs: &Vec<String>) -> (r: Vec<JsonVal>)
    ensures
        rep_text_seq(xs@, r@),
{
    let mut r: Vec<JsonVal> = Vec::new();
    let mut k: usize = 0;
    while k < xs.len()
        invariant
            k <= xs@.len(),
            r@.len() == k,
            forall|i: int| 0 <= i < k ==> rep_text(xs@[i], #[trigger] r@[i]),
        decreases xs@.len() - k,
    {
        r.push(JsonVal::Str(xs[k].clone()));
        k = k + 1;
    }
    r
}

pub open spec fn rep_game_settings(x: GameSettings, v: JsonVal) -> bool {
    match v {
        JsonVal::Obj(fields) => {
            let f = fields@;
            &&& f.len() == 9
            &&& f[0].0@ == "firstFontName"@
            &&& (match (f[0].1, x.first_font_name) { (JsonVal::Null, Option::<String>::None) => true, (JsonVal::Str(s), Some(w)) => s@ == w@, _ => false })
            &&& f[1].0@ == "fontsCount"@
            &&& f[1].1 == JsonVal::UInt(x.fonts_count)
            &&& f[2].0@ == "maxFrequency"@
            &&& f[2].1 == JsonVal::UInt(x.max_frequency)
            &&& f[3].0@ == "minFrequency"@
            &&& f[3].1 == JsonVal::UInt(x.min_frequency)
            &&& f[4].0@ == "roundDuration"@
            &&& f[4].1 == JsonVal::UInt(x.round_duration)
            &&& f[5].0@ == "roundsCount"@
            &&& f[5].1 == JsonVal::UInt(x.rounds_count)
            &&& f[6].0@ == "usingMaxFrequency"@
            &&& f[6].1 == JsonVal::Bool(x.using_max_frequency)
            &&& f[7].0@ == "wordPart"@
            &&& (match (f[7].1, x.word_part) { (JsonVal::Null, Option::<String>::None) => true, (JsonVal::Str(s), Some(w)) => s@ == w@, _ => false })
            &&& f[8].0@ == "wordPartReading"@
            &&& (match (f[8].1, x.word_part_reading) { (JsonVal::Null, Option::<String>::None) => true, (JsonVal::Str(s), Some(w)) => s@ == w@, _ => false })
        },
        _ => false,
    }
}

fn parse_game_settings(v: &JsonVal) -> (r: Option<GameSettings>)
    ensures
        match r {
            Some(x) => rep_game_settings(x, *v),
            None => forall|x: GameSettings| !rep_game_settings(x, *v),
        },
{
    match v {
        JsonVal::Obj(fields) => {
            if fields.len() != 9 {
                return None;
            }
            if !(key_is(&fields[0].0, "firstFontName") && key_is(&fields[1].0, "fontsCount") && key_is(&fields[2].0, "maxFrequency") && key_is(&fields[3].0, "minFrequency") && key_is(&fields[4].0, "roundDuration") && key_is(&fields[5].0, "roundsCount") && key_is(&fields[6].0, "usingMaxFrequency") && key_is(&fields[7].0, "wordPart") && key_is(&fields[8].0, "wordPartReading")) {
                return None;
            }
            let first_font_name = match &fields[0].1 {
                JsonVal::Null => None,
                JsonVal::Str(s) => Some(s.clone()),
                _ => { return None; },
            };
            let fonts_count = match &fields[1].1 {
                JsonVal::UInt(n) => *n,
                _ => { return None; },
            };
            let max_frequency = match &fields[2].1 {
                JsonVal::UInt(n) => *n,
                _ => { return None; },
            };
            let min_frequency = match &fields[3].1 {
                JsonVal::UInt(n) => *n,
                _ => { return None; },
            };
            let round_duration = match &fields[4].1 {
                JsonVal::UInt(n) => *n,
                _ => { return None; },
            };
            let rounds_count = match &fields[5].1 {
                JsonVal::UInt(n) => *n,
                _ => { return None; },
            };
            let using_max_frequency = match &fields[6].1 {
                JsonVal::Bool(b) => *b,
                _ => { return None; },
            };
            let word_part = match &fields[7].1 {
                JsonVal::Null => None,
                JsonVal::Str(s) => Some(s.clone()),
                _ => { return None; },
            };
            let word_part_reading = match &fields[8].1 {
                JsonVal::Null => None,
                JsonVal::Str(s) => Some(s.clone()),
                _ => { return None; },
            };
            Some(GameSettings { first_font_name, fonts_count, max_frequency, min_frequency, round_duration, rounds_count, using_max_frequency, word_part, word_part_reading })
        },
        _ => None,
    }
}

fn enc_game_settings(x: &GameSettings) -> (v: JsonVal)
    ensures
        rep_game_settings(*x, v),
{
    let mut f: Vec<(String, JsonVal)> = Vec::new();
    let first_font_name_v = match &x.first_font_name {
        Some(s) => JsonVal::Str(s.clone()),
        None => JsonVal::Null,
    };
    f.push(field("firstFontName", first_font_name_v));
    f.push(field("fontsCount", JsonVal::UInt(x.fonts_count)));
    f.push(field("maxFrequency", JsonVal::UInt(x.max_frequency)));
    f.push(field("minFrequency", JsonVal::UInt(x.min_frequency)));
    f.push(field("roundDuration", JsonVal::UInt(x.round_duration)));
    f.push(field("roundsCount", JsonVal::UInt(x.rounds_count)));
    f.push(field("usingMaxFrequency", JsonVal::Bool(x.using_max_frequency)));
    let word_part_v = match &x.word_part {
        Some(s) => JsonVal::Str(s.clone()),
        None => JsonVal::Null,
    };
    f.push(field("wordPart", word_part_v));
    let word_part_reading_v = match &x.word_part_reading {
        Some(s) => JsonVal::Str(s.clone()),
        None => JsonVal::Null,
    };
    f.push(field("wordPartReading", word_part_reading_v));
    JsonVal::Obj(f)
}

pub open spec fn rep_client_info(x: ClientInfo, v: JsonVal) -> bool {
    match v {
        JsonVal::Obj(fields) => {
            let f = fields@;
            &&& f.len() == 4
            &&& f[0].0@ == "id"@
            &&& (match f[0].1 { JsonVal::Str(s) => parse_uuid_seq(s@) == Some(x.id), _ => false })
            &&& f[1].0@ == "isAdmin"@
            &&& f[1].1 == JsonVal::Bool(x.is_admin)
            &&& f[2].0@ == "key"@
            &&& (match f[2].1 { JsonVal::Str(s) => s@ == x.key@, _ => false })
            &&& f[3].0@ == "name"@
            &&& (match f[3].1 { JsonVal::Str(s) => s@ == x.name@, _ => false })
        },
        _ => false,
    }
}

fn parse_client_info(v: &JsonVal) -> (r: Option<ClientInfo>)
    ensures
        match r {
            Some(x) => rep_client_info(x, *v),
            None => forall|x: ClientInfo| !rep_client_info(x, *v),
        },
{
    match v {
        JsonVal::Obj(fields) => {
            if fields.len() != 4 {
                return None;
            }
            if !(key_is(&fields[0].0, "id") && key_is(&fields[1].0, "isAdmin") && key_is(&fields[2].0, "key") && key_is(&fields[3].0, "name")) {
                return None;
            }
            let id = match &fields[0].1 {
                JsonVal::Str(s) => match parse_uuid(s.as_str()) {
                    Some(u) => u,
                    None => { return None; },
                },
                _ => { return None; },
            };
            let is_admin = match &fields[1].1 {
                JsonVal::Bool(b) => *b,
                _ => { return None; },
            };
            let key = match &fields[2].1 {
                JsonVal::Str(s) => s.clone(),
                _ => { return None; },
            };
            let name = match &fields[3].1 {
                JsonVal::Str(s) => s.clone(),
                _ => { return None; },
            };
            Some(ClientInfo { id, is_admin, key, name })
        },
        _ => None,
    }
}

fn enc_client_info(x: &ClientInfo) -> (v: JsonVal)
    ensures
        rep_client_info(*x, v),
{
    let mut f: Vec<(String, JsonVal)> = Vec::new();
    f.push(field("id", JsonVal::Str(uuid_string(x.id))));
    proof { lemma_uuid_round_trip(x.id); }
    f.push(field("isAdmin", JsonVal::Bool(x.is_admin)));
    f.push(field("key", JsonVal::Str(x.key.clone())));
    f.push(field("name", JsonVal::Str(x.name.clone())));
    JsonVal::Obj(f)
}

pub open spec fn rep_client_info_seq(xs: Seq<ClientInfo>, s: Seq<JsonVal>) -> bool {
    xs.len() == s.len() && (forall|i: int| 0 <= i < s.len() ==> rep_client_info(xs[i], #[trigger] s[i]))
}

fn parse_client_info_vec(vs: &Vec<JsonVal>) -> (r: Option<Vec<ClientInfo>>)
    ensures
        match r {
            Some(out) => rep_client_info_seq(out@, vs@),
            None => forall|xs: Seq<ClientInfo>| !rep_client_info_seq(xs, vs@),
        },
{
    let mut out: Vec<ClientInfo> = Vec::new();
    let mut k: usize = 0;
    while k < vs.len()
        invariant
            k <= vs@.len(),
            out@.len() == k,
            forall|i: int| 0 <= i < k ==> rep_client_info(out@[i], #[trigger] vs@[i]),
        decreases vs@.len() - k,
    {
        match parse_client_info(&vs[k]) {
            Some(x) => out.push(x),
            None => {
                proof {
                    assert forall|xs: Seq<ClientInfo>| !rep_client_info_seq(xs, vs@) by {
                        if rep_client_info_seq(xs, vs@) {
                            assert(rep_client_info(xs[k as int], vs@[k as int]));
                        }
                    }
                }
                return None;
            },
        }
        k = k + 1;
    }
    Some(out)
}

fn enc_client_info_vec(xs: &Vec<ClientInfo>) -> (r: Vec<JsonVal>)
    ensures
        rep_client_info_seq(xs@, r@),
{
    let mut r: Vec<JsonVal> = Vec::new();
    let mut k: usize = 0;
    while k < xs.len()
        invariant
            k <= xs@.len(),
            r@.len() == k,
            forall|i: int| 0 <= i < k ==> rep_client_info(xs@[i], #[trigger] r@[i]),
        decreases xs@.len() - k,
    {
        r.push(enc_client_info(&xs[k]));
        k = k + 1;
    }
    r
}

pub open spec fn rep_answer_info(x: AnswerInfo, v: JsonVal) -> bool {
    match v {
        JsonVal::Obj(fields) => {
            let f = fields@;
            &&& f.len() == 4
            &&& f[0].0@ == "answer"@
            &&& (match f[0].1 { JsonVal::Str(s) => s@ == x.answer@, _ => false })
            &&& f[1].0@ == "answerTime"@
            &&& f[1].1 == JsonVal::UInt(x.answer_time)
            &&& f[2].0@ == "id"@
            &&& (match f[2].1 { JsonVal::Str(s) => parse_uuid_seq(s@) == Some(x.id), _ => false })
            &&& f[3].0@ == "isCorrect"@
            &&& f[3].1 == JsonVal::Bool(x.is_correct)
        },
        _ => false,
    }
}

fn parse_answer_info(v: &JsonVal) -> (r: Option<AnswerInfo>)
    ensures
        match r {
            Some(x) => rep_answer_info(x, *v),
            None => forall|x: AnswerInfo| !rep_answer_info(x, *v),
        },
{
    match v {
        JsonVal::Obj(fields) => {
            if fields.len() != 4 {
                return None;
            }
            if !(key_is(&fields[0].0, "answer") && key_is(&fields[1].0, "answerTime") && key_is(&fields[2].0, "id") && key_is(&fields[3].0, "isCorrect")) {
                return None;
            }
            let answer = match &fields[0].1 {
                JsonVal::Str(s) => s.clone(),
                _ => { return None; },
            };
            let answer_time = match &fields[1].1 {
                JsonVal::UInt(n) => *n,
                _ => { return None; },
            };
            let id = match &fields[2].1 {
                JsonVal::Str(s) => match parse_uuid(s.as_str()) {
                    Some(u) => u,
                    None => { return None; },
                },
                _ => { return None; },
            };
            let is_correct = match &fields[3].1 {
                JsonVal::Bool(b) => *b,
                _ => { return None; },
            };
            Some(AnswerInfo { answer, answer_time, id, is_correct })
        },
        _ => None,
    }
}

fn enc_answer_info(x: &AnswerInfo) -> (v: JsonVal)
    ensures
        rep_answer_info(*x, v),
{
    let mut f: Vec<(String, JsonVal)> = Vec::new();
    f.push(field("answer", JsonVal::Str(x.answer.clone())));
    f.push(field("answerTime", JsonVal::UInt(x.answer_time)));
    f.push(field("id", JsonVal::Str(uuid_string(x.id))));
    proof { lemma_uuid_round_trip(x.id); }
    f.push(field("isCorrect", JsonVal::Bool(x.is_correct)));
    JsonVal::Obj(f)
}

pub open spec fn rep_answer_info_seq(xs: Seq<AnswerInfo>, s: Seq<JsonVal>) -> bool {
    xs.len() == s.len() && (forall|i: int| 0 <= i < s.len() ==> rep_answer_info(xs[i], #[trigger] s[i]))
}

fn parse_answer_info_vec(vs: &Vec<JsonVal>) -> (r: Option<Vec<AnswerInfo>>)
    ensures
        match r {
            Some(out) => rep_answer_info_seq(out@, vs@),
            None => forall|xs: Seq<AnswerInfo>| !rep_answer_info_seq(xs, vs@),
        },
{
    let mut out: Vec<AnswerInfo> = Vec::new();
    let mut k: usize = 0;
    while k < vs.len()
        invariant
            k <= vs@.len(),
            out@.len() == k,
            forall|i: int| 0 <= i < k ==> rep_answer_info(out@[i], #[trigger] vs@[i]),
        decreases vs@.len() - k,
    {
        match parse_answer_info(&vs[k]) {
            Some(x) => out.push(x),
            None => {
                proof {
                    assert forall|xs: Seq<AnswerInfo>| !rep_answer_info_seq(xs, vs@) by {
                        if rep_answer_info_seq(xs, vs@) {
                            assert(rep_answer_info(xs[k as int], vs@[k as int]));
                        }
                    }
                }
                return None;
            },
        }
        k = k + 1;
    }
    Some(out)
}

fn enc_answer_info_vec(xs: &Vec<AnswerInfo>) -> (r: Vec<JsonVal>)
    ensures
        rep_answer_info_seq(xs@, r@),
{
    let mut r: Vec<JsonVal> = Vec::new();
    let mut k: usize = 0;
    while k < xs.len()
        invariant
            k <= xs@.len(),
            r@.len() == k,
            forall|i: int| 0 <= i < k ==> rep_answer_info(xs@[i], #[trigger] r@[i]),
        decreases xs@.len() - k,
    {
        r.push(enc_answer_info(&xs[k]));
        k = k + 1;
    }
    r
}

pub open spec fn rep_word_part_example(x: WordPartExample, v: JsonVal) -> bool {
    match v {
        JsonVal::Obj(fields) => {
            let f = fields@;
            &&& f.len() == 2
            &&& f[0].0@ == "reading"@
            &&& (match f[0].1 { JsonVal::Str(s) => s@ == x.reading@, _ => false })
            &&& f[1].0@ == "word"@
            &&& (match f[1].1 { JsonVal::Str(s) => s@ == x.word@, _ => false })
        },
        _ => false,
    }
}

fn parse_word_part_example(v: &JsonVal) -> (r: Option<WordPartExample>)
    ensures
        match r {
            Some(x) => rep_word_part_example(x, *v),
            None => forall|x: WordPartExample| !rep_word_part_example(x, *v),
        },
{
    match v {
        JsonVal::Obj(fields) => {
            if fields.len() != 2 {
                return None;
            }
            if !(key_is(&fields[0].0, "reading") && key_is(&fields[1].0, "word")) {
                return None;
            }
            let reading = match &fields[0].1 {
                JsonVal::Str(s) => s.clone(),
                _ => { return None; },
            };
            let word = match &fields[1].1 {
                JsonVal::Str(s) => s.clone(),
                _ => { return None; },
            };
            Some(WordPartExample { reading, word })
        },
        _ => None,
    }
}

fn enc_word_part_example(x: &WordPartExample) -> (v: JsonVal)
    ensures
        rep_word_part_example(*x, v),
{
    let mut f: Vec<(String, JsonVal)> = Vec::new();
    f.push(field("reading", JsonVal::Str(x.reading.clone())));
    f.push(field("word", JsonVal::Str(x.word.clone())));
    JsonVal::Obj(f)
}

pub open spec fn rep_word_part_example_seq(xs: Seq<WordPartExample>, s: Seq<JsonVal>) -> bool {
    xs.len() == s.len() && (forall|i: int| 0 <= i < s.len() ==> rep_word_part_example(xs[i], #[trigger] s[i]))
}

fn parse_word_part_example_vec(vs: &Vec<JsonVal>) -> (r: Option<Vec<WordPartExample>>)
    ensures
        match r {
            Some(out) => rep_word_part_example_seq(out@, vs@),
            None => forall|xs: Seq<WordPartExample>| !rep_word_part_example_seq(xs, vs@),
        },
{
    let mut out: Vec<WordPartExample> = Vec::new();
    let mut k: usize = 0;
    while k < vs.len()
        invariant
            k <= vs@.len(),
            out@.len() == k,
            forall|i: int| 0 <= i < k ==> rep_word_part_example(out@[i], #[trigger] vs@[i]),
        decreases vs@.len() - k,
    {
        match parse_word_part_example(&vs[k]) {
            Some(x) => out.push(x),
            None => {
                proof {
                    assert forall|xs: Seq<WordPartExample>| !rep_word_part_example_seq(xs, vs@) by {
                        if rep_word_part_example_seq(xs, vs@) {
                            assert(rep_word_part_example(xs[k as int], vs@[k as int]));
                        }
                    }
                }
                return None;
            },
        }
        k = k + 1;
    }
    Some(out)
}

fn enc_word_part_example_vec(xs: &Vec<WordPartExample>) -> (r: Vec<JsonVal>)
    ensures
        rep_word_part_example_seq(xs@, r@),
{
    let mut r: Vec<JsonVal> = Vec::new();
    let mut k: usize = 0;
    while k < xs.len()
        invariant
            k <= xs@.len(),
            r@.len() == k,
            forall|i: int| 0 <= i < k ==> rep_word_part_example(xs@[i], #[trigger] r@[i]),
        decreases xs@.len() - k,
    {
        r.push(enc_word_part_example(&xs[k]));
        k = k + 1;
    }
    r
}

pub open spec fn rep_word_part_info(x: WordPartInfo, v: JsonVal) -> bool {
    match v {
        JsonVal::Obj(fields) => {
            let f = fields@;
            &&& f.len() == 3
            &&& f[0].0@ == "examples"@
            &&& (match f[0].1 { JsonVal::Arr(items) => rep_word_part_example_seq(x.examples@, items@), _ => false })
            &&& f[1].0@ == "wordPart"@
            &&& (match f[1].1 { JsonVal::Str(s) => s@ == x.word_part@, _ => false })
            &&& f[2].0@ == "wordPartReading"@
            &&& (match f[2].1 { JsonVal::Str(s) => s@ == x.word_part_reading@, _ => false })
        },
        _ => false,
    }
}

fn parse_word_part_info(v: &JsonVal) -> (r: Option<WordPartInfo>)
    ensures
        match r {
            Some(x) => rep_word_part_info(x, *v),
            None => forall|x: WordPartInfo| !rep_word_part_info(x, *v),
        },
{
    match v {
        JsonVal::Obj(fields) => {
            if fields.len() != 3 {
                return None;
            }
            if !(key_is(&fields[0].0, "examples") && key_is(&fields[1].0, "wordPart") && key_is(&fields[2].0, "wordPartReading")) {
                return None;
            }
            let examples = match &fields[0].1 {
                JsonVal::Arr(items) => match parse_word_part_example_vec(items) {
                    Some(x) => x,
                    None => {
                        proof {
                            assert forall|x: WordPartInfo| !rep_word_part_info(x, *v) by {
                                if rep_word_part_info(x, *v) {
                                    assert(rep_word_part_example_seq(x.examples@, items@));
                                }
                            }
                        }
                        return None;
                    },
                },
                _ => { return None; },
            };
            let word_part = match &fields[1].1 {
                JsonVal::Str(s) => s.clone(),
                _ => { return None; },
            };
            let word_part_reading = match &fields[2].1 {
                JsonVal::Str(s) => s.clone(),
                _ => { return None; },
            };
            Some(WordPartInfo { examples, word_part, word_part_reading })
        },
        _ => None,
    }
}

fn enc_word_part_info(x: &WordPartInfo) -> (v: JsonVal)
    ensures
        rep_word_part_info(*x, v),
{
    let mut f: Vec<(String, JsonVal)> = Vec::new();
    f.push(field("examples", JsonVal::Arr(enc_word_part_example_vec(&x.examples))));
    f.push(field("wordPart", JsonVal::Str(x.word_part.clone())));
    f.push(field("wordPartReading", JsonVal::Str(x.word_part_reading.clone())));
    JsonVal::Obj(f)
}

pub open spec fn rep_word_part_info_seq(xs: Seq<WordPartInfo>, s: Seq<JsonVal>) -> bool {
    xs.len() == s.len() && (forall|i: int| 0 <= i < s.len() ==> rep_word_part_info(xs[i], #[trigger] s[i]))
}

fn parse_word_part_info_vec(vs: &Vec<JsonVal>) -> (r: Option<Vec<WordPartInfo>>)
    ensures
        match r {
            Some(out) => rep_word_part_info_seq(out@, vs@),
            None => forall|xs: Seq<WordPartInfo>| !rep_word_part_info_seq(xs, vs@),
        },
{
    let mut out: Vec<WordPartInfo> = Vec::new();
    let mut k: usize = 0;
    while k < vs.len()
        invariant
            k <= vs@.len(),
            out@.len() == k,
            forall|i: int| 0 <= i < k ==> rep_word_part_info(out@[i], #[trigger] vs@[i]),
        decreases vs@.len() - k,
    {
        match parse_word_part_info(&vs[k]) {
            Some(x) => out.push(x),
            None => {
                proof {
                    assert forall|xs: Seq<WordPartInfo>| !rep_word_part_info_seq(xs, vs@) by {
                        if rep_word_part_info_seq(xs, vs@) {
                            assert(rep_word_part_info(xs[k as int], vs@[k as int]));
                        }
                    }
                }
                return None;
            },
        }
        k = k + 1;
    }
    Some(out)
}

fn enc_word_part_info_vec(xs: &Vec<WordPartInfo>) -> (r: Vec<JsonVal>)
    ensures
        rep_word_part_info_seq(xs@, r@),
{
    let mut r: Vec<JsonVal> = Vec::new();
    let mut k: usize = 0;
    while k < xs.len()
        invariant
            k <= xs@.len(),
            r@.len() == k,
            forall|i: int| 0 <= i < k ==> rep_word_part_info(xs@[i], #[trigger] r@[i]),
        decreases xs@.len() - k,
    {
        r.push(enc_word_part_info(&xs[k]));
        k = k + 1;
    }
    r
}

pub open spec fn rep_reading_with_parts(x: ReadingWithParts, v: JsonVal) -> bool {
    match v {
        JsonVal::Obj(fields) => {
            let f = fields@;
            &&& f.len() == 2
            &&& f[0].0@ == "parts"@
            &&& (match f[0].1 { JsonVal::Arr(items) => rep_word_part_info_seq(x.parts@, items@), _ => false })
            &&& f[1].0@ == "reading"@
            &&& (match f[1].1 { JsonVal::Str(s) => s@ == x.reading@, _ => false })
        },
        _ => false,
    }
}

fn parse_reading_with_parts(v: &JsonVal) -> (r: Option<ReadingWithParts>)
    ensures
        match r {
            Some(x) => rep_reading_with_parts(x, *v),
            None => forall|x: ReadingWithParts| !rep_reading_with_parts(x, *v),
        },
{
    match v {
        JsonVal::Obj(fields) => {
            if fields.len() != 2 {
                return None;
            }
            if !(key_is(&fields[0].0, "parts") && key_is(&fields[1].0, "reading")) {
                return None;
            }
            let parts = match &fields[0].1 {
                JsonVal::Arr(items) => match parse_word_part_info_vec(items) {
                    Some(x) => x,
                    None => {
                        proof {
                            assert forall|x: ReadingWithParts| !rep_reading_with_parts(x, *v) by {
                                if rep_reading_with_parts(x, *v) {
                                    assert(rep_word_part_info_seq(x.parts@, items@));
                                }
                            }
                        }
                        return None;
                    },
                },
                _ => { return None; },
            };
            let reading = match &fields[1].1 {
                JsonVal::Str(s) => s.clone(),
                _ => { return None; },
            };
            Some(ReadingWithParts { parts, reading })
        },
        _ => None,
    }
}

fn enc_reading_with_parts(x: &ReadingWithParts) -> (v: JsonVal)
    ensures
        rep_reading_with_parts(*x, v),
{
    let mut f: Vec<(String, JsonVal)> = Vec::new();
    f.push(field("parts", JsonVal::Arr(enc_word_part_info_vec(&x.parts))));
    f.push(field("reading", JsonVal::Str(x.reading.clone())));
    JsonVal::Obj(f)
}

pub open spec fn rep_reading_with_parts_seq(xs: Seq<ReadingWithParts>, s: Seq<JsonVal>) -> bool {
    xs.len() == s.len() && (forall|i: int| 0 <= i < s.len() ==> rep_reading_with_parts(xs[i], #[trigger] s[i]))
}

fn parse_reading_with_parts_vec(vs: &Vec<JsonVal>) -> (r: Option<Vec<ReadingWithParts>>)
    ensures
        match r {
            Some(out) => rep_reading_with_parts_seq(out@, vs@),
            None => forall|xs: Seq<ReadingWithParts>| !rep_reading_with_parts_seq(xs, vs@),
        },
{
    let mut out: Vec<ReadingWithParts> = Vec::new();
    let mut k: usize = 0;
    while k < vs.len()
        invariant
            k <= vs@.len(),
            out@.len() == k,
            forall|i: int| 0 <= i < k ==> rep_reading_with_parts(out@[i], #[trigger] vs@[i]),
        decreases vs@.len() - k,
    {
        match parse_reading_with_parts(&vs[k]) {
            Some(x) => out.push(x),
            None => {
                proof {
                    assert forall|xs: Seq<ReadingWithParts>| !rep_reading_with_parts_seq(xs, vs@) by {
                        if rep_reading_with_parts_seq(xs, vs@) {
                            assert(rep_reading_with_parts(xs[k as int], vs@[k as int]));
                        }
                    }
                }
                return None;
            },
        }
        k = k + 1;
    }
    Some(out)
}

fn enc_reading_with_parts_vec(xs: &Vec<ReadingWithParts>) -> (r: Vec<JsonVal>)
    ensures
        rep_reading_with_parts_seq(xs@, r@),
{
    let mut r: Vec<JsonVal> = Vec::new();
    let mut k: usize = 0;
    while k < xs.len()
        invariant
            k <= xs@.len(),
            r@.len() == k,
            forall|i: int| 0 <= i < k ==> rep_reading_with_parts(xs@[i], #[trigger] r@[i]),
        decreases xs@.len() - k,
    {
        r.push(enc_reading_with_parts(&xs[k]));
        k = k + 1;
    }
    r
}

pub open spec fn rep_word_info(x: WordInfo, v: JsonVal) -> bool {
    match v {
        JsonVal::Obj(fields) => {
            let f = fields@;
            &&& f.len() == 3
            &&& f[0].0@ == "meanings"@
            &&& (match f[0].1 { JsonVal::Arr(items) => rep_text_seq(x.meanings@, items@), _ => false })
            &&& f[1].0@ == "readings"@
            &&& (match f[1].1 { JsonVal::Arr(items) => rep_reading_with_parts_seq(x.readings@, items@), _ => false })
            &&& f[2].0@ == "word"@
            &&& (match f[2].1 { JsonVal::Str(s) => s@ == x.word@, _ => false })
        },
        _ => false,
    }
}

fn parse_word_info(v: &JsonVal) -> (r: Option<WordInfo>)
    ensures
        match r {
            Some(x) => rep_word_info(x, *v),
            None => forall|x: WordInfo| !rep_word_info(x, *v),
        },
{
    match v {
        JsonVal::Obj(fields) => {
            if fields.len() != 3 {
                return None;
            }
            if !(key_is(&fields[0].0, "meanings") && key_is(&fields[1].0, "readings") && key_is(&fields[2].0, "word")) {
                return None;
            }
            let meanings = match &fields[0].1 {
                JsonVal::Arr(items) => match parse_text_vec(items) {
                    Some(x) => x,
                    None => {
                        proof {
                            assert forall|x: WordInfo| !rep_word_info(x, *v) by {
                                if rep_word_info(x, *v) {
                                    assert(rep_text_seq(x.meanings@, items@));
                                }
                            }
                        }
                        return None;
                    },
                },
                _ => { return None; },
            };
            let readings = match &fields[1].1 {
                JsonVal::Arr(items) => match parse_reading_with_parts_vec(items) {
                    Some(x) => x,
                    None => {
                        proof {
                            assert forall|x: WordInfo| !rep_word_info(x, *v) by {
                                if rep_word_info(x, *v) {
                                    assert(rep_reading_with_parts_seq(x.readings@, items@));
                                }
                            }
                        }
                        return None;
                    },
                },
                _ => { return None; },
            };
            let word = match &fields[2].1 {
                JsonVal::Str(s) => s.clone(),
                _ => { return None; },
            };
            Some(WordInfo { meanings, readings, word })
        },
        _ => None,
    }
}

fn enc_word_info(x: &WordInfo) -> (v: JsonVal)
    ensures
        rep_word_info(*x, v),
{
    let mut f: Vec<(String, JsonVal)> = Vec::new();
    f.push(field("meanings", JsonVal::Arr(enc_text_vec(&x.meanings))));
    f.push(field("readings", JsonVal::Arr(enc_reading_with_parts_vec(&x.readings))));
    f.push(field("word", JsonVal::Str(x.word.clone())));
    JsonVal::Obj(f)
}

pub open spec fn rep_question_info(x: QuestionInfo, v: JsonVal) -> bool {
    match v {
        JsonVal::Obj(fields) => {
            let f = fields@;
            &&& f.len() == 2
            &&& f[0].0@ == "fontName"@
            &&& (match f[0].1 { JsonVal::Str(s) => s@ == x.font_name@, _ => false })
            &&& f[1].0@ == "wordInfo"@
            &&& rep_word_info(x.word_info, f[1].1)
        },
        _ => false,
    }
}

fn parse_question_info(v: &JsonVal) -> (r: Option<QuestionInfo>)
    ensures
        match r {
            Some(x) => rep_question_info(x, *v),
            None => forall|x: QuestionInfo| !rep_question_info(x, *v),
        },
{
    match v {
        JsonVal::Obj(fields) => {
            if fields.len() != 2 {
                return None;
            }
            if !(key_is(&fields[0].0, "fontName") && key_is(&fields[1].0, "wordInfo")) {
                return None;
            }
            let font_name = match &fields[0].1 {
                JsonVal::Str(s) => s.clone(),
                _ => { return None; },
            };
            let word_info = match parse_word_info(&fields[1].1) {
                Some(x) => x,
                None => {
                    proof {
                        assert forall|x: QuestionInfo| !rep_question_info(x, *v) by {
                            if rep_question_info(x, *v) {
                                assert(rep_word_info(x.word_info, fields@[1].1));
                            }
                        }
                    }
                    return None;
                },
            };
            Some(QuestionInfo { font_name, word_info })
        },
        _ => None,
    }
}

fn enc_question_info(x: &QuestionInfo) -> (v: JsonVal)
    ensures
        rep_question_info(*x, v),
{
    let mut f: Vec<(String, JsonVal)> = Vec::new();
    f.push(field("fontName", JsonVal::Str(x.font_name.clone())));
    f.push(field("wordInfo", enc_word_info(&x.word_info)));
    JsonVal::Obj(f)
}

pub open spec fn rep_in_req_send_public_key(x: InReqSendPublicKey, v: JsonVal) -> bool {
    match v {
        JsonVal::Obj(fields) => {
            let f = fields@;
            &&& f.len() == 1
            &&& f[0].0@ == "key"@
            &&& (match f[0].1 { JsonVal::Str(s) => s@ == x.key@, _ => false })
        },
        _ => false,
    }
}

fn parse_in_req_send_public_key(v: &JsonVal) -> (r: Option<InReqSendPublicKey>)
    ensures
        match r {
            Some(x) => rep_in_req_send_public_key(x, *v),
            None => forall|x: InReqSendPublicKey| !rep_in_req_send_public_key(x, *v),
        },
{
    match v {
        JsonVal::Obj(fields) => {
            if fields.len() != 1 {
                return None;
            }
            if !(key_is(&fields[0].0, "key")) {
                return None;
            }
            let key = match &fields[0].1 {
                JsonVal::Str(s) => s.clone(),
                _ => { return None; },
            };
            Some(InReqSendPublicKey { key })
        },
        _ => None,
    }
}

fn enc_in_req_send_public_key(x: &InReqSendPublicKey) -> (v: JsonVal)
    ensures
        rep_in_req_send_public_key(*x, v),
{
    let mut f: Vec<(String, JsonVal)> = Vec::new();
    f.push(field("key", JsonVal::Str(x.key.clone())));
    JsonVal::Obj(f)
}

pub open spec fn rep_in_req_verify_signature(x: InReqVerifySignature, v: JsonVal) -> bool {
    match v {
        JsonVal::Obj(fields) => {
            let f = fields@;
            &&& f.len() == 1
            &&& f[0].0@ == "signature"@
            &&& (match f[0].1 { JsonVal::Str(s) => s@ == x.signature@, _ => false })
        },
        _ => false,
    }
}

fn parse_in_req_verify_signature(v: &JsonVal) -> (r: Option<InReqVerifySignature>)
    ensures
        match r {
            Some(x) => rep_in_req_verify_signature(x, *v),
            None => forall|x: InReqVerifySignature| !rep_in_req_verify_signature(x, *v),
        },
{
    match v {
        JsonVal::Obj(fields) => {
            if fields.len() != 1 {
                return None;
            }
            if !(key_is(&fields[0].0, "signature")) {
                return None;
            }
            let signature = match &fields[0].1 {
                JsonVal::Str(s) => s.clone(),
                _ => { return None; },
            };
            Some(InReqVerifySignature { signature })
        },
        _ => None,
    }
}

fn enc_in_req_verify_signature(x: &InReqVerifySignature) -> (v: JsonVal)
    ensures
        rep_in_req_verify_signature(*x, v),
{
    let mut f: Vec<(String, JsonVal)> = Vec::new();
    f.push(field("signature", JsonVal::Str(x.signature.clone())));
    JsonVal::Obj(f)
}

pub open spec fn rep_in_req_register_client(x: InReqRegisterClient, v: JsonVal) -> bool {
    match v {
        JsonVal::Obj(fields) => {
            let f = fields@;
            &&& f.len() == 1
            &&& f[0].0@ == "name"@
            &&& (match f[0].1 { JsonVal::Str(s) => s@ == x.name@, _ => false })
        },
        _ => false,
    }
}

fn parse_in_req_register_client(v: &JsonVal) -> (r: Option<InReqRegisterClient>)
    ensures
        match r {
            Some(x) => rep_in_req_register_client(x, *v),
            None => forall|x: InReqRegisterClient| !rep_in_req_register_client(x, *v),
        },
{
    match v {
        JsonVal::Obj(fields) => {
            if fields.len() != 1 {
                return None;
            }
            if !(key_is(&fields[0].0, "name")) {
                return None;
            }
            let name = match &fields[0].1 {
                JsonVal::Str(s) => s.clone(),
                _ => { return None; },
            };
            Some(InReqRegisterClient { name })
        },
        _ => None,
    }
}

fn enc_in_req_register_client(x: &InReqRegisterClient) -> (v: JsonVal)
    ensures
        rep_in_req_register_client(*x, v),
{
    let mut f: Vec<(String, JsonVal)> = Vec::new();
    f.push(field("name", JsonVal::Str(x.name.clone())));
    JsonVal::Obj(f)
}

pub open spec fn rep_in_req_send_chat(x: InReqSendChat, v: JsonVal) -> bool {
    match v {
        JsonVal::Obj(fields) => {
            let f = fields@;
            &&& f.len() == 1
            &&& f[0].0@ == "message"@
            &&& (match f[0].1 { JsonVal::Str(s) => s@ == x.message@, _ => false })
        },
        _ => false,
    }
}

fn parse_in_req_send_chat(v: &JsonVal) -> (r: Option<InReqSendChat>)
    ensures
        match r {
            Some(x) => rep_in_req_send_chat(x, *v),
            None => forall|x: InReqSendChat| !rep_in_req_send_chat(x, *v),
        },
{
    match v {
        JsonVal::Obj(fields) => {
            if fields.len() != 1 {
                return None;
            }
            if !(key_is(&fields[0].0, "message")) {
                return None;
            }
            let message = match &fields[0].1 {
                JsonVal::Str(s) => s.clone(),
                _ => { return None; },
            };
            Some(InReqSendChat { message })
        },
        _ => None,
    }
}

fn enc_in_req_send_chat(x: &InReqSendChat) -> (v: JsonVal)
    ensures
        rep_in_req_send_chat(*x, v),
{
    let mut f: Vec<(String, JsonVal)> = Vec::new();
    f.push(field("message", JsonVal::Str(x.message.clone())));
    JsonVal::Obj(f)
}

pub open spec fn rep_in_req_make_admin(x: InReqMakeAdmin, v: JsonVal) -> bool {
    match v {
        JsonVal::Obj(fields) => {
            let f = fields@;
            &&& f.len() == 2
            &&& f[0].0@ == "adminPassword"@
            &&& (match f[0].1 { JsonVal::Str(s) => s@ == x.admin_password@, _ => false })
            &&& f[1].0@ == "clientId"@
            &&& (match f[1].1 { JsonVal::Str(s) => parse_uuid_seq(s@) == Some(x.client_id), _ => false })
        },
        _ => false,
    }
}

fn parse_in_req_make_admin(v: &JsonVal) -> (r: Option<InReqMakeAdmin>)
    ensures
        match r {
            Some(x) => rep_in_req_make_admin(x, *v),
            None => forall|x: InReqMakeAdmin| !rep_in_req_make_admin(x, *v),
        },
{
    match v {
        JsonVal::Obj(fields) => {
            if fields.len() != 2 {
                return None;
            }
            if !(key_is(&fields[0].0, "adminPassword") && key_is(&fields[1].0, "clientId")) {
                return None;
            }
            let admin_password = match &fields[0].1 {
                JsonVal::Str(s) => s.clone(),
                _ => { return None; },
            };
            let client_id = match &fields[1].1 {
                JsonVal::Str(s) => match parse_uuid(s.as_str()) {
                    Some(u) => u,
                    None => { return None; },
                },
                _ => { return None; },
            };
            Some(InReqMakeAdmin { admin_password, client_id })
        },
        _ => None,
    }
}

fn enc_in_req_make_admin(x: &InReqMakeAdmin) -> (v: JsonVal)
    ensures
        rep_in_req_make_admin(*x, v),
{
    let mut f: Vec<(String, JsonVal)> = Vec::new();
    f.push(field("adminPassword", JsonVal::Str(x.admin_password.clone())));
    f.push(field("clientId", JsonVal::Str(uuid_string(x.client_id))));
    proof { lemma_uuid_round_trip(x.client_id); }
    JsonVal::Obj(f)
}

pub open spec fn rep_in_req_client_list(x: InReqClientList, v: JsonVal) -> bool {
    match v {
        JsonVal::Obj(fields) => {
            let f = fields@;
            &&& f.len() == 0
        },
        _ => false,
    }
}

fn parse_in_req_client_list(v: &JsonVal) -> (r: Option<InReqClientList>)
    ensures
        match r {
            Some(x) => rep_in_req_client_list(x, *v),
            None => forall|x: InReqClientList| !rep_in_req_client_list(x, *v),
        },
{
    match v {
        JsonVal::Obj(fields) => {
            if fields.len() != 0 {
                return None;
            }
            Some(InReqClientList {  })
        },
        _ => None,
    }
}

fn enc_in_req_client_list(x: &InReqClientList) -> (v: JsonVal)
    ensures
        rep_in_req_client_list(*x, v),
{
    let mut f: Vec<(String, JsonVal)> = Vec::new();
    JsonVal::Obj(f)
}

pub open spec fn rep_in_req_start_game(x: InReqStartGame, v: JsonVal) -> bool {
    match v {
        JsonVal::Obj(fields) => {
            let f = fields@;
            &&& f.len() == 1
            &&& f[0].0@ == "gameSettings"@
            &&& rep_game_settings(x.game_settings, f[0].1)
        },
        _ => false,
    }
}

fn parse_in_req_start_game(v: &JsonVal) -> (r: Option<InReqStartGame>)
    ensures
        match r {
            Some(x) => rep_in_req_start_game(x, *v),
            None => forall|x: InReqStartGame| !rep_in_req_start_game(x, *v),
        },
{
    match v {
        JsonVal::Obj(fields) => {
            if fields.len() != 1 {
                return None;
            }
            if !(key_is(&fields[0].0, "gameSettings")) {
                return None;
            }
            let game_settings = match parse_game_settings(&fields[0].1) {
                Some(x) => x,
                None => {
                    proof {
                        assert forall|x: InReqStartGame| !rep_in_req_start_game(x, *v) by {
                            if rep_in_req_start_game(x, *v) {
                                assert(rep_game_settings(x.game_settings, fields@[0].1));
                            }
                        }
                    }
                    return None;
                },
            };
            Some(InReqStartGame { game_settings })
        },
        _ => None,
    }
}

fn enc_in_req_start_game(x: &InReqStartGame) -> (v: JsonVal)
    ensures
        rep_in_req_start_game(*x, v),
{
    let mut f: Vec<(String, JsonVal)> = Vec::new();
    f.push(field("gameSettings", enc_game_settings(&x.game_settings)));
    JsonVal::Obj(f)
}

pub open spec fn rep_in_req_stop_game(x: InReqStopGame, v: JsonVal) -> bool {
    match v {
        JsonVal::Obj(fields) => {
            let f = fields@;
            &&& f.len() == 0
        },
        _ => false,
    }
}

fn parse_in_req_stop_game(v: &JsonVal) -> (r: Option<InReqStopGame>)
    ensures
        match r {
            Some(x) => rep_in_req_stop_game(x, *v),
            None => forall|x: InReqStopGame| !rep_in_req_stop_game(x, *v),
        },
{
    match v {
        JsonVal::Obj(fields) => {
            if fields.len() != 0 {
                return None;
            }
            Some(InReqStopGame {  })
        },
        _ => None,
    }
}

fn enc_in_req_stop_game(x: &InReqStopGame) -> (v: JsonVal)
    ensures
        rep_in_req_stop_game(*x, v),
{
    let mut f: Vec<(String, JsonVal)> = Vec::new();
    JsonVal::Obj(f)
}

pub open spec fn rep_in_req_send_answer(x: InReqSendAnswer, v: JsonVal) -> bool {
    match v {
        JsonVal::Obj(fields) => {
            let f = fields@;
            &&& f.len() == 1
            &&& f[0].0@ == "answer"@
            &&& (match f[0].1 { JsonVal::Str(s) => s@ == x.answer@, _ => false })
        },
        _ => false,
    }
}

fn parse_in_req_send_answer(v: &JsonVal) -> (r: Option<InReqSendAnswer>)
    ensures
        match r {
            Some(x) => rep_in_req_send_answer(x, *v),
            None => forall|x: InReqSendAnswer| !rep_in_req_send_answer(x, *v),
        },
{
    match v {
        JsonVal::Obj(fields) => {
            if fields.len() != 1 {
                return None;
            }
            if !(key_is(&fields[0].0, "answer")) {
                return None;
            }
            let answer = match &fields[0].1 {
                JsonVal::Str(s) => s.clone(),
                _ => { return None; },
            };
            Some(InReqSendAnswer { answer })
        },
        _ => None,
    }
}

fn enc_in_req_send_answer(x: &InReqSendAnswer) -> (v: JsonVal)
    ensures
        rep_in_req_send_answer(*x, v),
{
    let mut f: Vec<(String, JsonVal)> = Vec::new();
    f.push(field("answer", JsonVal::Str(x.answer.clone())));
    JsonVal::Obj(f)
}

pub open spec fn rep_in_req_send_game_settings(x: InReqSendGameSettings, v: JsonVal) -> bool {
    match v {
        JsonVal::Obj(fields) => {
            let f = fields@;
            &&& f.len() == 1
            &&& f[0].0@ == "gameSettings"@
            &&& rep_game_settings(x.game_settings, f[0].1)
        },
        _ => false,
    }
}

fn parse_in_req_send_game_settings(v: &JsonVal) -> (r: Option<InReqSendGameSettings>)
    ensures
        match r {
            Some(x) => rep_in_req_send_game_settings(x, *v),
            None => forall|x: InReqSendGameSettings| !rep_in_req_send_game_settings(x, *v),
        },
{
    match v {
        JsonVal::Obj(fields) => {
            if fields.len() != 1 {
                return None;
            }
            if !(key_is(&fields[0].0, "gameSettings")) {
                return None;
            }
            let game_settings = match parse_game_settings(&fields[0].1) {
                Some(x) => x,
                None => {
                    proof {
                        assert forall|x: InReqSendGameSettings| !rep_in_req_send_game_settings(x, *v) by {
                            if rep_in_req_send_game_settings(x, *v) {
                                assert(rep_game_settings(x.game_settings, fields@[0].1));
                            }
                        }
                    }
                    return None;
                },
            };
            Some(InReqSendGameSettings { game_settings })
        },
        _ => None,
    }
}

fn enc_in_req_send_game_settings(x: &InReqSendGameSettings) -> (v: JsonVal)
    ensures
        rep_in_req_send_game_settings(*x, v),
{
    let mut f: Vec<(String, JsonVal)> = Vec::new();
    f.push(field("gameSettings", enc_game_settings(&x.game_settings)));
    JsonVal::Obj(f)
}

pub open spec fn rep_out_resp_client_registered(x: OutRespClientRegistered, v: JsonVal) -> bool {
    match v {
        JsonVal::Obj(fields) => {
            let f = fields@;
            &&& f.len() == 2
            &&& f[0].0@ == "gameSettings"@
            &&& rep_game_settings(x.game_settings, f[0].1)
            &&& f[1].0@ == "id"@
            &&& (match f[1].1 { JsonVal::Str(s) => parse_uuid_seq(s@) == Some(x.id), _ => false })
        },
        _ => false,
    }
}

fn parse_out_resp_client_registered(v: &JsonVal) -> (r: Option<OutRespClientRegistered>)
    ensures
        match r {
            Some(x) => rep_out_resp_client_registered(x, *v),
            None => forall|x: OutRespClientRegistered| !rep_out_resp_client_registered(x, *v),
        },
{
    match v {
        JsonVal::Obj(fields) => {
            if fields.len() != 2 {
                return None;
            }
            if !(key_is(&fields[0].0, "gameSettings") && key_is(&fields[1].0, "id")) {
                return None;
            }
            let game_settings = match parse_game_settings(&fields[0].1) {
                Some(x) => x,
                None => {
                    proof {
                        assert forall|x: OutRespClientRegistered| !rep_out_resp_client_registered(x, *v) by {
                            if rep_out_resp_client_registered(x, *v) {
                                assert(rep_game_settings(x.game_settings, fields@[0].1));
                            }
                        }
                    }
                    return None;
                },
            };
            let id = match &fields[1].1 {
                JsonVal::Str(s) => match parse_uuid(s.as_str()) {
                    Some(u) => u,
                    None => { return None; },
                },
                _ => { return None; },
            };
            Some(OutRespClientRegistered { game_settings, id })
        },
        _ => None,
    }
}

fn enc_out_resp_client_registered(x: &OutRespClientRegistered) -> (v: JsonVal)
    ensures
        rep_out_resp_client_registered(*x, v),
{
    let mut f: Vec<(String, JsonVal)> = Vec::new();
    f.push(field("gameSettings", enc_game_settings(&x.game_settings)));
    f.push(field("id", JsonVal::Str(uuid_string(x.id))));
    proof { lemma_uuid_round_trip(x.id); }
    JsonVal::Obj(f)
}

pub open spec fn rep_out_resp_status(x: OutRespStatus, v: JsonVal) -> bool {
    match v {
        JsonVal::Obj(fields) => {
            let f = fields@;
            &&& f.len() == 1
            &&& f[0].0@ == "status"@
            &&& (match f[0].1 { JsonVal::Str(s) => s@ == x.status@, _ => false })
        },
        _ => false,
    }
}

fn parse_out_resp_status(v: &JsonVal) -> (r: Option<OutRespStatus>)
    ensures
        match r {
            Some(x) => rep_out_resp_status(x, *v),
            None => forall|x: OutRespStatus| !rep_out_resp_status(x, *v),
        },
{
    match v {
        JsonVal::Obj(fields) => {
            if fields.len() != 1 {
                return None;
            }
            if !(key_is(&fields[0].0, "status")) {
                return None;
            }
            let status = match &fields[0].1 {
                JsonVal::Str(s) => s.clone(),
                _ => { return None; },
            };
            Some(OutRespStatus { status })
        },
        _ => None,
    }
}

fn enc_out_resp_status(x: &OutRespStatus) -> (v: JsonVal)
    ensures
        rep_out_resp_status(*x, v),
{
    let mut f: Vec<(String, JsonVal)> = Vec::new();
    f.push(field("status", JsonVal::Str(x.status.clone())));
    JsonVal::Obj(f)
}

pub open spec fn rep_out_resp_client_list(x: OutRespClientList, v: JsonVal) -> bool {
    match v {
        JsonVal::Obj(fields) => {
            let f = fields@;
            &&& f.len() == 1
            &&& f[0].0@ == "clients"@
            &&& (match f[0].1 { JsonVal::Arr(items) => rep_client_info_seq(x.clients@, items@), _ => false })
        },
        _ => false,
    }
}

fn parse_out_resp_client_list(v: &JsonVal) -> (r: Option<OutRespClientList>)
    ensures
        match r {
            Some(x) => rep_out_resp_client_list(x, *v),
            None => forall|x: OutRespClientList| !rep_out_resp_client_list(x, *v),
        },
{
    match v {
        JsonVal::Obj(fields) => {
            if fields.len() != 1 {
                return None;
            }
            if !(key_is(&fields[0].0, "clients")) {
                return None;
            }
            let clients = match &fields[0].1 {
                JsonVal::Arr(items) => match parse_client_info_vec(items) {
                    Some(x) => x,
                    None => {
                        proof {
                            assert forall|x: OutRespClientList| !rep_out_resp_client_list(x, *v) by {
                                if rep_out_resp_client_list(x, *v) {
                                    assert(rep_client_info_seq(x.clients@, items@));
                                }
                            }
                        }
                        return None;
                    },
                },
                _ => { return None; },
            };
            Some(OutRespClientList { clients })
        },
        _ => None,
    }
}

fn enc_out_resp_client_list(x: &OutRespClientList) -> (v: JsonVal)
    ensures
        rep_out_resp_client_list(*x, v),
{
    let mut f: Vec<(String, JsonVal)> = Vec::new();
    f.push(field("clients", JsonVal::Arr(enc_client_info_vec(&x.clients))));
    JsonVal::Obj(f)
}

pub open spec fn rep_out_resp_sign_message(x: OutRespSignMessage, v: JsonVal) -> bool {
    match v {
        JsonVal::Obj(fields) => {
            let f = fields@;
            &&& f.len() == 1
            &&& f[0].0@ == "message"@
            &&& (match f[0].1 { JsonVal::Str(s) => s@ == x.message@, _ => false })
        },
        _ => false,
    }
}

fn parse_out_resp_sign_message(v: &JsonVal) -> (r: Option<OutRespSignMessage>)
    ensures
        match r {
            Some(x) => rep_out_resp_sign_message(x, *v),
            None => forall|x: OutRespSignMessage| !rep_out_resp_sign_message(x, *v),
        },
{
    match v {
        JsonVal::Obj(fields) => {
            if fields.len() != 1 {
                return None;
            }
            if !(key_is(&fields[0].0, "message")) {
                return None;
            }
            let message = match &fields[0].1 {
                JsonVal::Str(s) => s.clone(),
                _ => { return None; },
            };
            Some(OutRespSignMessage { message })
        },
        _ => None,
    }
}

fn enc_out_resp_sign_message(x: &OutRespSignMessage) -> (v: JsonVal)
    ensures
        rep_out_resp_sign_message(*x, v),
{
    let mut f: Vec<(String, JsonVal)> = Vec::new();
    f.push(field("message", JsonVal::Str(x.message.clone())));
    JsonVal::Obj(f)
}

pub open spec fn rep_out_req_question(x: OutReqQuestion, v: JsonVal) -> bool {
    match v {
        JsonVal::Obj(fields) => {
            let f = fields@;
            &&& f.len() == 0
        },
        _ => false,
    }
}

fn parse_out_req_question(v: &JsonVal) -> (r: Option<OutReqQuestion>)
    ensures
        match r {
            Some(x) => rep_out_req_question(x, *v),
            None => forall|x: OutReqQuestion| !rep_out_req_question(x, *v),
        },
{
    match v {
        JsonVal::Obj(fields) => {
            if fields.len() != 0 {
                return None;
            }
            Some(OutReqQuestion {  })
        },
        _ => None,
    }
}

fn enc_out_req_question(x: &OutReqQuestion) -> (v: JsonVal)
    ensures
        rep_out_req_question(*x, v),
{
    let mut f: Vec<(String, JsonVal)> = Vec::new();
    JsonVal::Obj(f)
}

pub open spec fn rep_in_resp_question(x: InRespQuestion, v: JsonVal) -> bool {
    match v {
        JsonVal::Obj(fields) => {
            let f = fields@;
            &&& f.len() == 2
            &&& f[0].0@ == "question"@
            &&& rep_question_info(x.question, f[0].1)
            &&& f[1].0@ == "questionSvg"@
            &&& (match f[1].1 { JsonVal::Str(s) => s@ == x.question_svg@, _ => false })
        },
        _ => false,
    }
}

fn parse_in_resp_question(v: &JsonVal) -> (r: Option<InRespQuestion>)
    ensures
        match r {
            Some(x) => rep_in_resp_question(x, *v),
            None => forall|x: InRespQuestion| !rep_in_resp_question(x, *v),
        },
{
    match v {
        JsonVal::Obj(fields) => {
            if fields.len() != 2 {
                return None;
            }
            if !(key_is(&fields[0].0, "question") && key_is(&fields[1].0, "questionSvg")) {
                return None;
            }
            let question = match parse_question_info(&fields[0].1) {
                Some(x) => x,
                None => {
                    proof {
                        assert forall|x: InRespQuestion| !rep_in_resp_question(x, *v) by {
                            if rep_in_resp_question(x, *v) {
                                assert(rep_question_info(x.question, fields@[0].1));
                            }
                        }
                    }
                    return None;
                },
            };
            let question_svg = match &fields[1].1 {
                JsonVal::Str(s) => s.clone(),
                _ => { return None; },
            };
            Some(InRespQuestion { question, question_svg })
        },
        _ => None,
    }
}

fn enc_in_resp_question(x: &InRespQuestion) -> (v: JsonVal)
    ensures
        rep_in_resp_question(*x, v),
{
    let mut f: Vec<(String, JsonVal)> = Vec::new();
    f.push(field("question", enc_question_info(&x.question)));
    f.push(field("questionSvg", JsonVal::Str(x.question_svg.clone())));
    JsonVal::Obj(f)
}

pub open spec fn rep_out_notif_client_registered(x: OutNotifClientRegistered, v: JsonVal) -> bool {
    match v {
        JsonVal::Obj(fields) => {
            let f = fields@;
            &&& f.len() == 1
            &&& f[0].0@ == "client"@
            &&& rep_client_info(x.client, f[0].1)
        },
        _ => false,
    }
}

fn parse_out_notif_client_registered(v: &JsonVal) -> (r: Option<OutNotifClientRegistered>)
    ensures
        match r {
            Some(x) => rep_out_notif_client_registered(x, *v),
            None => forall|x: OutNotifClientRegistered| !rep_out_notif_client_registered(x, *v),
        },
{
    match v {
        JsonVal::Obj(fields) => {
            if fields.len() != 1 {
                return None;
            }
            if !(key_is(&fields[0].0, "client")) {
                return None;
            }
            let client = match parse_client_info(&fields[0].1) {
                Some(x) => x,
                None => {
                    proof {
                        assert forall|x: OutNotifClientRegistered| !rep_out_notif_client_registered(x, *v) by {
                            if rep_out_notif_client_registered(x, *v) {
                                assert(rep_client_info(x.client, fields@[0].1));
                            }
                        }
                    }
                    return None;
                },
            };
            Some(OutNotifClientRegistered { client })
        },
        _ => None,
    }
}

fn enc_out_notif_client_registered(x: &OutNotifClientRegistered) -> (v: JsonVal)
    ensures
        rep_out_notif_client_registered(*x, v),
{
    let mut f: Vec<(String, JsonVal)> = Vec::new();
    f.push(field("client", enc_client_info(&x.client)));
    JsonVal::Obj(f)
}

pub open spec fn rep_out_notif_client_disconnected(x: OutNotifClientDisconnected, v: JsonVal) -> bool {
    match v {
        JsonVal::Obj(fields) => {
            let f = fields@;
            &&& f.len() == 1
            &&& f[0].0@ == "id"@
            &&& (match f[0].1 { JsonVal::Str(s) => parse_uuid_seq(s@) == Some(x.id), _ => false })
        },
        _ => false,
    }
}

fn parse_out_notif_client_disconnected(v: &JsonVal) -> (r: Option<OutNotifClientDisconnected>)
    ensures
        match r {
            Some(x) => rep_out_notif_client_disconnected(x, *v),
            None => forall|x: OutNotifClientDisconnected| !rep_out_notif_client_disconnected(x, *v),
        },
{
    match v {
        JsonVal::Obj(fields) => {
            if fields.len() != 1 {
                return None;
            }
            if !(key_is(&fields[0].0, "id")) {
                return None;
            }
            let id = match &fields[0].1 {
                JsonVal::Str(s) => match parse_uuid(s.as_str()) {
                    Some(u) => u,
                    None => { return None; },
                },
                _ => { return None; },
            };
            Some(OutNotifClientDisconnected { id })
        },
        _ => None,
    }
}

fn enc_out_notif_client_disconnected(x: &OutNotifClientDisconnected) -> (v: JsonVal)
    ensures
        rep_out_notif_client_disconnected(*x, v),
{
    let mut f: Vec<(String, JsonVal)> = Vec::new();
    f.push(field("id", JsonVal::Str(uuid_string(x.id))));
    proof { lemma_uuid_round_trip(x.id); }
    JsonVal::Obj(f)
}

pub open spec fn rep_out_notif_chat_sent(x: OutNotifChatSent, v: JsonVal) -> bool {
    match v {
        JsonVal::Obj(fields) => {
            let f = fields@;
            &&& f.len() == 2
            &&& f[0].0@ == "id"@
            &&& (match f[0].1 { JsonVal::Str(s) => parse_uuid_seq(s@) == Some(x.id), _ => false })
            &&& f[1].0@ == "message"@
            &&& (match f[1].1 { JsonVal::Str(s) => s@ == x.message@, _ => false })
        },
        _ => false,
    }
}

fn parse_out_notif_chat_sent(v: &JsonVal) -> (r: Option<OutNotifChatSent>)
    ensures
        match r {
            Some(x) => rep_out_notif_chat_sent(x, *v),
            None => forall|x: OutNotifChatSent| !rep_out_notif_chat_sent(x, *v),
        },
{
    match v {
        JsonVal::Obj(fields) => {
            if fields.len() != 2 {
                return None;
            }
            if !(key_is(&fields[0].0, "id") && key_is(&fields[1].0, "message")) {
                return None;
            }
            let id = match &fields[0].1 {
                JsonVal::Str(s) => match parse_uuid(s.as_str()) {
                    Some(u) => u,
                    None => { return None; },
                },
                _ => { return None; },
            };
            let message = match &fields[1].1 {
                JsonVal::Str(s) => s.clone(),
                _ => { return None; },
            };
            Some(OutNotifChatSent { id, message })
        },
        _ => None,
    }
}

fn enc_out_notif_chat_sent(x: &OutNotifChatSent) -> (v: JsonVal)
    ensures
        rep_out_notif_chat_sent(*x, v),
{
    let mut f: Vec<(String, JsonVal)> = Vec::new();
    f.push(field("id", JsonVal::Str(uuid_string(x.id))));
    proof { lemma_uuid_round_trip(x.id); }
    f.push(field("message", JsonVal::Str(x.message.clone())));
    JsonVal::Obj(f)
}

pub open spec fn rep_out_notif_admin_made(x: OutNotifAdminMade, v: JsonVal) -> bool {
    match v {
        JsonVal::Obj(fields) => {
            let f = fields@;
            &&& f.len() == 1
            &&& f[0].0@ == "id"@
            &&& (match f[0].1 { JsonVal::Str(s) => parse_uuid_seq(s@) == Some(x.id), _ => false })
        },
        _ => false,
    }
}

fn parse_out_notif_admin_made(v: &JsonVal) -> (r: Option<OutNotifAdminMade>)
    ensures
        match r {
            Some(x) => rep_out_notif_admin_made(x, *v),
            None => forall|x: OutNotifAdminMade| !rep_out_notif_admin_made(x, *v),
        },
{
    match v {
        JsonVal::Obj(fields) => {
            if fields.len() != 1 {
                return None;
            }
            if !(key_is(&fields[0].0, "id")) {
                return None;
            }
            let id = match &fields[0].1 {
                JsonVal::Str(s) => match parse_uuid(s.as_str()) {
                    Some(u) => u,
                    None => { return None; },
                },
                _ => { return None; },
            };
            Some(OutNotifAdminMade { id })
        },
        _ => None,
    }
}

fn enc_out_notif_admin_made(x: &OutNotifAdminMade) -> (v: JsonVal)
    ensures
        rep_out_notif_admin_made(*x, v),
{
    let mut f: Vec<(String, JsonVal)> = Vec::new();
    f.push(field("id", JsonVal::Str(uuid_string(x.id))));
    proof { lemma_uuid_round_trip(x.id); }
    JsonVal::Obj(f)
}

pub open spec fn rep_out_notif_game_started(x: OutNotifGameStarted, v: JsonVal) -> bool {
    match v {
        JsonVal::Obj(fields) => {
            let f = fields@;
            &&& f.len() == 1
            &&& f[0].0@ == "gameSettings"@
            &&& rep_game_settings(x.game_settings, f[0].1)
        },
        _ => false,
    }
}

fn parse_out_notif_game_started(v: &JsonVal) -> (r: Option<OutNotifGameStarted>)
    ensures
        match r {
            Some(x) => rep_out_notif_game_started(x, *v),
            None => forall|x: OutNotifGameStarted| !rep_out_notif_game_started(x, *v),
        },
{
    match v {
        JsonVal::Obj(fields) => {
            if fields.len() != 1 {
                return None;
            }
            if !(key_is(&fields[0].0, "gameSettings")) {
                return None;
            }
            let game_settings = match parse_game_settings(&fields[0].1) {
                Some(x) => x,
                None => {
                    proof {
                        assert forall|x: OutNotifGameStarted| !rep_out_notif_game_started(x, *v) by {
                            if rep_out_notif_game_started(x, *v) {
                                assert(rep_game_settings(x.game_settings, fields@[0].1));
                            }
                        }
                    }
                    return None;
                },
            };
            Some(OutNotifGameStarted { game_settings })
        },
        _ => None,
    }
}

fn enc_out_notif_game_started(x: &OutNotifGameStarted) -> (v: JsonVal)
    ensures
        rep_out_notif_game_started(*x, v),
{
    let mut f: Vec<(String, JsonVal)> = Vec::new();
    f.push(field("gameSettings", enc_game_settings(&x.game_settings)));
    JsonVal::Obj(f)
}

pub open spec fn rep_out_notif_game_stopped(x: OutNotifGameStopped, v: JsonVal) -> bool {
    match v {
        JsonVal::Obj(fields) => {
            let f = fields@;
            &&& f.len() == 2
            &&& f[0].0@ == "answers"@
            &&& (match f[0].1 { JsonVal::Arr(items) => rep_answer_info_seq(x.answers@, items@), _ => false })
            &&& f[1].0@ == "question"@
            &&& rep_question_info(x.question, f[1].1)
        },
        _ => false,
    }
}

fn parse_out_notif_game_stopped(v: &JsonVal) -> (r: Option<OutNotifGameStopped>)
    ensures
        match r {
            Some(x) => rep_out_notif_game_stopped(x, *v),
            None => forall|x: OutNotifGameStopped| !rep_out_notif_game_stopped(x, *v),
        },
{
    match v {
        JsonVal::Obj(fields) => {
            if fields.len() != 2 {
                return None;
            }
            if !(key_is(&fields[0].0, "answers") && key_is(&fields[1].0, "question")) {
                return None;
            }
            let answers = match &fields[0].1 {
                JsonVal::Arr(items) => match parse_answer_info_vec(items) {
                    Some(x) => x,
                    None => {
                        proof {
                            assert forall|x: OutNotifGameStopped| !rep_out_notif_game_stopped(x, *v) by {
                                if rep_out_notif_game_stopped(x, *v) {
                                    assert(rep_answer_info_seq(x.answers@, items@));
                                }
                            }
                        }
                        return None;
                    },
                },
                _ => { return None; },
            };
            let question = match parse_question_info(&fields[1].1) {
                Some(x) => x,
                None => {
                    proof {
                        assert forall|x: OutNotifGameStopped| !rep_out_notif_game_stopped(x, *v) by {
                            if rep_out_notif_game_stopped(x, *v) {
                                assert(rep_question_info(x.question, fields@[1].1));
                            }
                        }
                    }
                    return None;
                },
            };
            Some(OutNotifGameStopped { answers, question })
        },
        _ => None,
    }
}

fn enc_out_notif_game_stopped(x: &OutNotifGameStopped) -> (v: JsonVal)
    ensures
        rep_out_notif_game_stopped(*x, v),
{
    let mut f: Vec<(String, JsonVal)> = Vec::new();
    f.push(field("answers", JsonVal::Arr(enc_answer_info_vec(&x.answers))));
    f.push(field("question", enc_question_info(&x.question)));
    JsonVal::Obj(f)
}

pub open spec fn rep_out_notif_question(x: OutNotifQuestion, v: JsonVal) -> bool {
    match v {
        JsonVal::Obj(fields) => {
            let f = fields@;
            &&& f.len() == 1
            &&& f[0].0@ == "questionSvg"@
            &&& (match f[0].1 { JsonVal::Str(s) => s@ == x.question_svg@, _ => false })
        },
        _ => false,
    }
}

fn parse_out_notif_question(v: &JsonVal) -> (r: Option<OutNotifQuestion>)
    ensures
        match r {
            Some(x) => rep_out_notif_question(x, *v),
            None => forall|x: OutNotifQuestion| !rep_out_notif_question(x, *v),
        },
{
    match v {
        JsonVal::Obj(fields) => {
            if fields.len() != 1 {
                return None;
            }
            if !(key_is(&fields[0].0, "questionSvg")) {
                return None;
            }
            let question_svg = match &fields[0].1 {
                JsonVal::Str(s) => s.clone(),
                _ => { return None; },
            };
            Some(OutNotifQuestion { question_svg })
        },
        _ => None,
    }
}

fn enc_out_notif_question(x: &OutNotifQuestion) -> (v: JsonVal)
    ensures
        rep_out_notif_question(*x, v),
{
    let mut f: Vec<(String, JsonVal)> = Vec::new();
    f.push(field("questionSvg", JsonVal::Str(x.question_svg.clone())));
    JsonVal::Obj(f)
}

pub open spec fn rep_out_notif_client_answered(x: OutNotifClientAnswered, v: JsonVal) -> bool {
    match v {
        JsonVal::Obj(fields) => {
            let f = fields@;
            &&& f.len() == 1
            &&& f[0].0@ == "id"@
            &&& (match f[0].1 { JsonVal::Str(s) => parse_uuid_seq(s@) == Some(x.id), _ => false })
        },
        _ => false,
    }
}

fn parse_out_notif_client_answered(v: &JsonVal) -> (r: Option<OutNotifClientAnswered>)
    ensures
        match r {
            Some(x) => rep_out_notif_client_answered(x, *v),
            None => forall|x: OutNotifClientAnswered| !rep_out_notif_client_answered(x, *v),
        },
{
    match v {
        JsonVal::Obj(fields) => {
            if fields.len() != 1 {
                return None;
            }
            if !(key_is(&fields[0].0, "id")) {
                return None;
            }
            let id = match &fields[0].1 {
                JsonVal::Str(s) => match parse_uuid(s.as_str()) {
                    Some(u) => u,
                    None => { return None; },
                },
                _ => { return None; },
            };
            Some(OutNotifClientAnswered { id })
        },
        _ => None,
    }
}

fn enc_out_notif_client_answered(x: &OutNotifClientAnswered) -> (v: JsonVal)
    ensures
        rep_out_notif_client_answered(*x, v),
{
    let mut f: Vec<(String, JsonVal)> = Vec::new();
    f.push(field("id", JsonVal::Str(uuid_string(x.id))));
    proof { lemma_uuid_round_trip(x.id); }
    JsonVal::Obj(f)
}

pub open spec fn rep_out_notif_round_ended(x: OutNotifRoundEnded, v: JsonVal) -> bool {
    match v {
        JsonVal::Obj(fields) => {
            let f = fields@;
            &&& f.len() == 2
            &&& f[0].0@ == "answers"@
            &&& (match f[0].1 { JsonVal::Arr(items) => rep_answer_info_seq(x.answers@, items@), _ => false })
            &&& f[1].0@ == "question"@
            &&& rep_question_info(x.question, f[1].1)
        },
        _ => false,
    }
}

fn parse_out_notif_round_ended(v: &JsonVal) -> (r: Option<OutNotifRoundEnded>)
    ensures
        match r {
            Some(x) => rep_out_notif_round_ended(x, *v),
            None => forall|x: OutNotifRoundEnded| !rep_out_notif_round_ended(x, *v),
        },
{
    match v {
        JsonVal::Obj(fields) => {
            if fields.len() != 2 {
                return None;
            }
            if !(key_is(&fields[0].0, "answers") && key_is(&fields[1].0, "question")) {
                return None;
            }
            let answers = match &fields[0].1 {
                JsonVal::Arr(items) => match parse_answer_info_vec(items) {
                    Some(x) => x,
                    None => {
                        proof {
                            assert forall|x: OutNotifRoundEnded| !rep_out_notif_round_ended(x, *v) by {
                                if rep_out_notif_round_ended(x, *v) {
                                    assert(rep_answer_info_seq(x.answers@, items@));
                                }
                            }
                        }
                        return None;
                    },
                },
                _ => { return None; },
            };
            let question = match parse_question_info(&fields[1].1) {
                Some(x) => x,
                None => {
                    proof {
                        assert forall|x: OutNotifRoundEnded| !rep_out_notif_round_ended(x, *v) by {
                            if rep_out_notif_round_ended(x, *v) {
                                assert(rep_question_info(x.question, fields@[1].1));
                            }
                        }
                    }
                    return None;
                },
            };
            Some(OutNotifRoundEnded { answers, question })
        },
        _ => None,
    }
}

fn enc_out_notif_round_ended(x: &OutNotifRoundEnded) -> (v: JsonVal)
    ensures
        rep_out_notif_round_ended(*x, v),
{
    let mut f: Vec<(String, JsonVal)> = Vec::new();
    f.push(field("answers", JsonVal::Arr(enc_answer_info_vec(&x.answers))));
    f.push(field("question", enc_question_info(&x.question)));
    JsonVal::Obj(f)
}

pub open spec fn rep_out_notif_game_settings_changed(x: OutNotifGameSettingsChanged, v: JsonVal) -> bool {
    match v {
        JsonVal::Obj(fields) => {
            let f = fields@;
            &&& f.len() == 1
            &&& f[0].0@ == "gameSettings"@
            &&& rep_game_settings(x.game_settings, f[0].1)
        },
        _ => false,
    }
}

fn parse_out_notif_game_settings_changed(v: &JsonVal) -> (r: Option<OutNotifGameSettingsChanged>)
    ensures
        match r {
            Some(x) => rep_out_notif_game_settings_changed(x, *v),
            None => forall|x: OutNotifGameSettingsChanged| !rep_out_notif_game_settings_changed(x, *v),
        },
{
    match v {
        JsonVal::Obj(fields) => {
            if fields.len() != 1 {
                return None;
            }
            if !(key_is(&fields[0].0, "gameSettings")) {
                return None;
            }
            let game_settings = match parse_game_settings(&fields[0].1) {
                Some(x) => x,
                None => {
                    proof {
                        assert forall|x: OutNotifGameSettingsChanged| !rep_out_notif_game_settings_changed(x, *v) by {
                            if rep_out_notif_game_settings_changed(x, *v) {
                                assert(rep_game_settings(x.game_settings, fields@[0].1));
                            }
                        }
                    }
                    return None;
                },
            };
            Some(OutNotifGameSettingsChanged { game_settings })
        },
        _ => None,
    }
}

fn enc_out_notif_game_settings_changed(x: &OutNotifGameSettingsChanged) -> (v: JsonVal)
    ensures
        rep_out_notif_game_settings_changed(*x, v),
{
    let mut f: Vec<(String, JsonVal)> = Vec::new();
    f.push(field("gameSettings", enc_game_settings(&x.game_settings)));
    JsonVal::Obj(f)
}

/// The wire tag of each message.
pub open spec fn tag_of_msg(m: TransportMsg) -> Seq<char> {
    match m {
        TransportMsg::InReqSendPublicKey(_) => "IN_REQ_sendPublicKey"@,
        TransportMsg::InReqVerifySignature(_) => "IN_REQ_verifysignature"@,
        TransportMsg::InReqRegisterClient(_) => "IN_REQ_registerClient"@,
        TransportMsg::InReqSendChat(_) => "IN_REQ_sendChat"@,
        TransportMsg::InReqMakeAdmin(_) => "IN_REQ_makeAdmin"@,
        TransportMsg::InReqClientList(_) => "IN_REQ_clientList"@,
        TransportMsg::InReqStartGame(_) => "IN_REQ_startGame"@,
        TransportMsg::InReqStopGame(_) => "IN_REQ_stopGame"@,
        TransportMsg::InReqSendAnswer(_) => "IN_REQ_sendAnswer"@,
        TransportMsg::InReqSendGameSettings(_) => "IN_REQ_sendGameSettings"@,
        TransportMsg::OutRespClientRegistered(_) => "OUT_RESP_clientRegistered"@,
        TransportMsg::OutRespStatus(_) => "OUT_RESP_status"@,
        TransportMsg::OutRespClientList(_) => "OUT_RESP_clientList"@,
        TransportMsg::OutRespSignMessage(_) => "OUT_RESP_signMessage"@,
        TransportMsg::OutReqQuestion(_) => "OUT_REQ_question"@,
        TransportMsg::InRespQuestion(_) => "IN_RESP_question"@,
        TransportMsg::OutNotifClientRegistered(_) => "OUT_NOTIF_clientRegistered"@,
        TransportMsg::OutNotifClientDisconnected(_) => "OUT_NOTIF_clientDisconnected"@,
        TransportMsg::OutNotifChatSent(_) => "OUT_NOTIF_chatSent"@,
        TransportMsg::OutNotifAdminMade(_) => "OUT_NOTIF_adminMade"@,
        TransportMsg::OutNotifGameStarted(_) => "OUT_NOTIF_gameStarted"@,
        TransportMsg::OutNotifGameStopped(_) => "OUT_NOTIF_gameStopped"@,
        TransportMsg::OutNotifQuestion(_) => "OUT_NOTIF_question"@,
        TransportMsg::OutNotifClientAnswered(_) => "OUT_NOTIF_clientAnswered"@,
        TransportMsg::OutNotifRoundEnded(_) => "OUT_NOTIF_roundEnded"@,
        TransportMsg::OutNotifGameSettingsChanged(_) => "OUT_NOTIF_gameSettingsChanged"@,
    }
}

/// Whether `pv` shows the message's payload.
pub open spec fn payload_rep(m: TransportMsg, pv: JsonVal) -> bool {
    match m {
        TransportMsg::InReqSendPublicKey(e) => rep_in_req_send_public_key(e.payload, pv),
        TransportMsg::InReqVerifySignature(e) => rep_in_req_verify_signature(e.payload, pv),
        TransportMsg::InReqRegisterClient(e) => rep_in_req_register_client(e.payload, pv),
        TransportMsg::InReqSendChat(e) => rep_in_req_send_chat(e.payload, pv),
        TransportMsg::InReqMakeAdmin(e) => rep_in_req_make_admin(e.payload, pv),
        TransportMsg::InReqClientList(e) => rep_in_req_client_list(e.payload, pv),
        TransportMsg::InReqStartGame(e) => rep_in_req_start_game(e.payload, pv),
        TransportMsg::InReqStopGame(e) => rep_in_req_stop_game(e.payload, pv),
        TransportMsg::InReqSendAnswer(e) => rep_in_req_send_answer(e.payload, pv),
        TransportMsg::InReqSendGameSettings(e) => rep_in_req_send_game_settings(e.payload, pv),
        TransportMsg::OutRespClientRegistered(e) => rep_out_resp_client_registered(e.payload, pv),
        TransportMsg::OutRespStatus(e) => rep_out_resp_status(e.payload, pv),
        TransportMsg::OutRespClientList(e) => rep_out_resp_client_list(e.payload, pv),
        TransportMsg::OutRespSignMessage(e) => rep_out_resp_sign_message(e.payload, pv),
        TransportMsg::OutReqQuestion(e) => rep_out_req_question(e.payload, pv),
        TransportMsg::InRespQuestion(e) => rep_in_resp_question(e.payload, pv),
        TransportMsg::OutNotifClientRegistered(e) => rep_out_notif_client_registered(e.payload, pv),
        TransportMsg::OutNotifClientDisconnected(e) => rep_out_notif_client_disconnected(e.payload, pv),
        TransportMsg::OutNotifChatSent(e) => rep_out_notif_chat_sent(e.payload, pv),
        TransportMsg::OutNotifAdminMade(e) => rep_out_notif_admin_made(e.payload, pv),
        TransportMsg::OutNotifGameStarted(e) => rep_out_notif_game_started(e.payload, pv),
        TransportMsg::OutNotifGameStopped(e) => rep_out_notif_game_stopped(e.payload, pv),
        TransportMsg::OutNotifQuestion(e) => rep_out_notif_question(e.payload, pv),
        TransportMsg::OutNotifClientAnswered(e) => rep_out_notif_client_answered(e.payload, pv),
        TransportMsg::OutNotifRoundEnded(e) => rep_out_notif_round_ended(e.payload, pv),
        TransportMsg::OutNotifGameSettingsChanged(e) => rep_out_notif_game_settings_changed(e.payload, pv),
    }
}

/// Whether `v` is a faithful wire form of `m`: the envelope's three fields
/// in key order, the correlation identifier as hyphenated hexadecimal text,
/// the tag of `m`'s kind, and `m`'s payload.
pub open spec fn represents(m: TransportMsg, v: JsonVal) -> bool {
    match v {
        JsonVal::Obj(fields) => {
            let f = fields@;
            &&& f.len() == 3
            &&& f[0].0@ == "correlationId"@
            &&& f[1].0@ == "messageType"@
            &&& f[2].0@ == "payload"@
            &&& (match f[0].1 {
                JsonVal::Str(s) => parse_uuid_seq(s@) == Some(m.corr_of()),
                _ => false,
            })
            &&& (match f[1].1 {
                JsonVal::Str(t) => t@ == tag_of_msg(m),
                _ => false,
            })
            &&& payload_rep(m, f[2].1)
        },
        _ => false,
    }
}

fn enc_envelope(corr: u128, tag: &str, payload: JsonVal) -> (v: JsonVal)
    ensures
        match v {
            JsonVal::Obj(fields) => {
                let f = fields@;
                &&& f.len() == 3
                &&& f[0].0@ == "correlationId"@
                &&& f[1].0@ == "messageType"@
                &&& f[2].0@ == "payload"@
                &&& (match f[0].1 {
                    JsonVal::Str(s) => s@ == uuid_seq(corr),
                    _ => false,
                })
                &&& (match f[1].1 {
                    JsonVal::Str(t) => t@ == tag@,
                    _ => false,
                })
                &&& f[2].1 == payload
            },
            _ => false,
        },
{
    let mut f: Vec<(String, JsonVal)> = Vec::new();
    f.push(field("correlationId", JsonVal::Str(uuid_string(corr))));
    f.push(field("messageType", JsonVal::Str(tag.to_owned())));
    f.push(field("payload", payload));
    JsonVal::Obj(f)
}


/// Encode a message as its wire form: a serialized message always
/// parses back.
pub fn serialize(msg: &TransportMsg) -> (v: JsonVal)
    ensures
        represents(*msg, v),
{
    match msg {
        TransportMsg::InReqSendPublicKey(e) => {
            proof { lemma_uuid_round_trip(e.correlation_id); }
            enc_envelope(e.correlation_id, "IN_REQ_sendPublicKey", enc_in_req_send_public_key(&e.payload))
        },
        TransportMsg::InReqVerifySignature(e) => {
            proof { lemma_uuid_round_trip(e.correlation_id); }
            enc_envelope(e.correlation_id, "IN_REQ_verifysignature", enc_in_req_verify_signature(&e.payload))
        },
        TransportMsg::InReqRegisterClient(e) => {
            proof { lemma_uuid_round_trip(e.correlation_id); }
            enc_envelope(e.correlation_id, "IN_REQ_registerClient", enc_in_req_register_client(&e.payload))
        },
        TransportMsg::InReqSendChat(e) => {
            proof { lemma_uuid_round_trip(e.correlation_id); }
            enc_envelope(e.correlation_id, "IN_REQ_sendChat", enc_in_req_send_chat(&e.payload))
        },
        TransportMsg::InReqMakeAdmin(e) => {
            proof { lemma_uuid_round_trip(e.correlation_id); }
            enc_envelope(e.correlation_id, "IN_REQ_makeAdmin", enc_in_req_make_admin(&e.payload))
        },
        TransportMsg::InReqClientList(e) => {
            proof { lemma_uuid_round_trip(e.correlation_id); }
            enc_envelope(e.correlation_id, "IN_REQ_clientList", enc_in_req_client_list(&e.payload))
        },
        TransportMsg::InReqStartGame(e) => {
            proof { lemma_uuid_round_trip(e.correlation_id); }
            enc_envelope(e.correlation_id, "IN_REQ_startGame", enc_in_req_start_game(&e.payload))
        },
        TransportMsg::InReqStopGame(e) => {
            proof { lemma_uuid_round_trip(e.correlation_id); }
            enc_envelope(e.correlation_id, "IN_REQ_stopGame", enc_in_req_stop_game(&e.payload))
        },
        TransportMsg::InReqSendAnswer(e) => {
            proof { lemma_uuid_round_trip(e.correlation_id); }
            enc_envelope(e.correlation_id, "IN_REQ_sendAnswer", enc_in_req_send_answer(&e.payload))
        },
        TransportMsg::InReqSendGameSettings(e) => {
            proof { lemma_uuid_round_trip(e.correlation_id); }
            enc_envelope(e.correlation_id, "IN_REQ_sendGameSettings", enc_in_req_send_game_settings(&e.payload))
        },
        TransportMsg::OutRespClientRegistered(e) => {
            proof { lemma_uuid_round_trip(e.correlation_id); }
            enc_envelope(e.correlation_id, "OUT_RESP_clientRegistered", enc_out_resp_client_registered(&e.payload))
        },
        TransportMsg::OutRespStatus(e) => {
            proof { lemma_uuid_round_trip(e.correlation_id); }
            enc_envelope(e.correlation_id, "OUT_RESP_status", enc_out_resp_status(&e.payload))
        },
        TransportMsg::OutRespClientList(e) => {
            proof { lemma_uuid_round_trip(e.correlation_id); }
            enc_envelope(e.correlation_id, "OUT_RESP_clientList", enc_out_resp_client_list(&e.payload))
        },
        TransportMsg::OutRespSignMessage(e) => {
            proof { lemma_uuid_round_trip(e.correlation_id); }
            enc_envelope(e.correlation_id, "OUT_RESP_signMessage", enc_out_resp_sign_message(&e.payload))
        },
        TransportMsg::OutReqQuestion(e) => {
            proof { lemma_uuid_round_trip(e.correlation_id); }
            enc_envelope(e.correlation_id, "OUT_REQ_question", enc_out_req_question(&e.payload))
        },
        TransportMsg::InRespQuestion(e) => {
            proof { lemma_uuid_round_trip(e.correlation_id); }
            enc_envelope(e.correlation_id, "IN_RESP_question", enc_in_resp_question(&e.payload))
        },
        TransportMsg::OutNotifClientRegistered(e) => {
            proof { lemma_uuid_round_trip(e.correlation_id); }
            enc_envelope(e.correlation_id, "OUT_NOTIF_clientRegistered", enc_out_notif_client_registered(&e.payload))
        },
        TransportMsg::OutNotifClientDisconnected(e) => {
            proof { lemma_uuid_round_trip(e.correlation_id); }
            enc_envelope(e.correlation_id, "OUT_NOTIF_clientDisconnected", enc_out_notif_client_disconnected(&e.payload))
        },
        TransportMsg::OutNotifChatSent(e) => {
            proof { lemma_uuid_round_trip(e.correlation_id); }
            enc_envelope(e.correlation_id, "OUT_NOTIF_chatSent", enc_out_notif_chat_sent(&e.payload))
        },
        TransportMsg::OutNotifAdminMade(e) => {
            proof { lemma_uuid_round_trip(e.correlation_id); }
            enc_envelope(e.correlation_id, "OUT_NOTIF_adminMade", enc_out_notif_admin_made(&e.payload))
        },
        TransportMsg::OutNotifGameStarted(e) => {
            proof { lemma_uuid_round_trip(e.correlation_id); }
            enc_envelope(e.correlation_id, "OUT_NOTIF_gameStarted", enc_out_notif_game_started(&e.payload))
        },
        TransportMsg::OutNotifGameStopped(e) => {
            proof { lemma_uuid_round_trip(e.correlation_id); }
            enc_envelope(e.correlation_id, "OUT_NOTIF_gameStopped", enc_out_notif_game_stopped(&e.payload))
        },
        TransportMsg::OutNotifQuestion(e) => {
            proof { lemma_uuid_round_trip(e.correlation_id); }
            enc_envelope(e.correlation_id, "OUT_NOTIF_question", enc_out_notif_question(&e.payload))
        },
        TransportMsg::OutNotifClientAnswered(e) => {
            proof { lemma_uuid_round_trip(e.correlation_id); }
            enc_envelope(e.correlation_id, "OUT_NOTIF_clientAnswered", enc_out_notif_client_answered(&e.payload))
        },
        TransportMsg::OutNotifRoundEnded(e) => {
            proof { lemma_uuid_round_trip(e.correlation_id); }
            enc_envelope(e.correlation_id, "OUT_NOTIF_roundEnded", enc_out_notif_round_ended(&e.payload))
        },
        TransportMsg::OutNotifGameSettingsChanged(e) => {
            proof { lemma_uuid_round_trip(e.correlation_id); }
            enc_envelope(e.correlation_id, "OUT_NOTIF_gameSettingsChanged", enc_out_notif_game_settings_changed(&e.payload))
        },
    }
}

/// The protocol's tags read pairwise distinctly.
#[verifier::rlimit(60)]
pub proof fn lemma_tags_pairwise_distinct()
    ensures
        "IN_REQ_sendPublicKey"@ != "IN_REQ_verifysignature"@,
        "IN_REQ_sendPublicKey"@ != "IN_REQ_registerClient"@,
        "IN_REQ_sendPublicKey"@ != "IN_REQ_sendChat"@,
        "IN_REQ_sendPublicKey"@ != "IN_REQ_makeAdmin"@,
        "IN_REQ_sendPublicKey"@ != "IN_REQ_clientList"@,
        "IN_REQ_sendPublicKey"@ != "IN_REQ_startGame"@,
        "IN_REQ_sendPublicKey"@ != "IN_REQ_stopGame"@,
        "IN_REQ_sendPublicKey"@ != "IN_REQ_sendAnswer"@,
        "IN_REQ_sendPublicKey"@ != "IN_REQ_sendGameSettings"@,
        "IN_REQ_sendPublicKey"@ != "OUT_RESP_clientRegistered"@,
        "IN_REQ_sendPublicKey"@ != "OUT_RESP_status"@,
        "IN_REQ_sendPublicKey"@ != "OUT_RESP_clientList"@,
        "IN_REQ_sendPublicKey"@ != "OUT_RESP_signMessage"@,
        "IN_REQ_sendPublicKey"@ != "OUT_REQ_question"@,
        "IN_REQ_sendPublicKey"@ != "IN_RESP_question"@,
        "IN_REQ_sendPublicKey"@ != "OUT_NOTIF_clientRegistered"@,
        "IN_REQ_sendPublicKey"@ != "OUT_NOTIF_clientDisconnected"@,
        "IN_REQ_sendPublicKey"@ != "OUT_NOTIF_chatSent"@,
        "IN_REQ_sendPublicKey"@ != "OUT_NOTIF_adminMade"@,
        "IN_REQ_sendPublicKey"@ != "OUT_NOTIF_gameStarted"@,
        "IN_REQ_sendPublicKey"@ != "OUT_NOTIF_gameStopped"@,
        "IN_REQ_sendPublicKey"@ != "OUT_NOTIF_question"@,
        "IN_REQ_sendPublicKey"@ != "OUT_NOTIF_clientAnswered"@,
        "IN_REQ_sendPublicKey"@ != "OUT_NOTIF_roundEnded"@,
        "IN_REQ_sendPublicKey"@ != "OUT_NOTIF_gameSettingsChanged"@,
        "IN_REQ_verifysignature"@ != "IN_REQ_registerClient"@,
        "IN_REQ_verifysignature"@ != "IN_REQ_sendChat"@,
        "IN_REQ_verifysignature"@ != "IN_REQ_makeAdmin"@,
        "IN_REQ_verifysignature"@ != "IN_REQ_clientList"@,
        "IN_REQ_verifysignature"@ != "IN_REQ_startGame"@,
        "IN_REQ_verifysignature"@ != "IN_REQ_stopGame"@,
        "IN_REQ_verifysignature"@ != "IN_REQ_sendAnswer"@,
        "IN_REQ_verifysignature"@ != "IN_REQ_sendGameSettings"@,
        "IN_REQ_verifysignature"@ != "OUT_RESP_clientRegistered"@,
        "IN_REQ_verifysignature"@ != "OUT_RESP_status"@,
        "IN_REQ_verifysignature"@ != "OUT_RESP_clientList"@,
        "IN_REQ_verifysignature"@ != "OUT_RESP_signMessage"@,
        "IN_REQ_verifysignature"@ != "OUT_REQ_question"@,
        "IN_REQ_verifysignature"@ != "IN_RESP_question"@,
        "IN_REQ_verifysignature"@ != "OUT_NOTIF_clientRegistered"@,
        "IN_REQ_verifysignature"@ != "OUT_NOTIF_clientDisconnected"@,
        "IN_REQ_verifysignature"@ != "OUT_NOTIF_chatSent"@,
        "IN_REQ_verifysignature"@ != "OUT_NOTIF_adminMade"@,
        "IN_REQ_verifysignature"@ != "OUT_NOTIF_gameStarted"@,
        "IN_REQ_verifysignature"@ != "OUT_NOTIF_gameStopped"@,
        "IN_REQ_verifysignature"@ != "OUT_NOTIF_question"@,
        "IN_REQ_verifysignature"@ != "OUT_NOTIF_clientAnswered"@,
        "IN_REQ_verifysignature"@ != "OUT_NOTIF_roundEnded"@,
        "IN_REQ_verifysignature"@ != "OUT_NOTIF_gameSettingsChanged"@,
        "IN_REQ_registerClient"@ != "IN_REQ_sendChat"@,
        "IN_REQ_registerClient"@ != "IN_REQ_makeAdmin"@,
        "IN_REQ_registerClient"@ != "IN_REQ_clientList"@,
        "IN_REQ_registerClient"@ != "IN_REQ_startGame"@,
        "IN_REQ_registerClient"@ != "IN_REQ_stopGame"@,
        "IN_REQ_registerClient"@ != "IN_REQ_sendAnswer"@,
        "IN_REQ_registerClient"@ != "IN_REQ_sendGameSettings"@,
        "IN_REQ_registerClient"@ != "OUT_RESP_clientRegistered"@,
        "IN_REQ_registerClient"@ != "OUT_RESP_status"@,
        "IN_REQ_registerClient"@ != "OUT_RESP_clientList"@,
        "IN_REQ_registerClient"@ != "OUT_RESP_signMessage"@,
        "IN_REQ_registerClient"@ != "OUT_REQ_question"@,
        "IN_REQ_registerClient"@ != "IN_RESP_question"@,
        "IN_REQ_registerClient"@ != "OUT_NOTIF_clientRegistered"@,
        "IN_REQ_registerClient"@ != "OUT_NOTIF_clientDisconnected"@,
        "IN_REQ_registerClient"@ != "OUT_NOTIF_chatSent"@,
        "IN_REQ_registerClient"@ != "OUT_NOTIF_adminMade"@,
        "IN_REQ_registerClient"@ != "OUT_NOTIF_gameStarted"@,
        "IN_REQ_registerClient"@ != "OUT_NOTIF_gameStopped"@,
        "IN_REQ_registerClient"@ != "OUT_NOTIF_question"@,
        "IN_REQ_registerClient"@ != "OUT_NOTIF_clientAnswered"@,
        "IN_REQ_registerClient"@ != "OUT_NOTIF_roundEnded"@,
        "IN_REQ_registerClient"@ != "OUT_NOTIF_gameSettingsChanged"@,
        "IN_REQ_sendChat"@ != "IN_REQ_makeAdmin"@,
        "IN_REQ_sendChat"@ != "IN_REQ_clientList"@,
        "IN_REQ_sendChat"@ != "IN_REQ_startGame"@,
        "IN_REQ_sendChat"@ != "IN_REQ_stopGame"@,
        "IN_REQ_sendChat"@ != "IN_REQ_sendAnswer"@,
        "IN_REQ_sendChat"@ != "IN_REQ_sendGameSettings"@,
        "IN_REQ_sendChat"@ != "OUT_RESP_clientRegistered"@,
        "IN_REQ_sendChat"@ != "OUT_RESP_status"@,
        "IN_REQ_sendChat"@ != "OUT_RESP_clientList"@,
        "IN_REQ_sendChat"@ != "OUT_RESP_signMessage"@,
        "IN_REQ_sendChat"@ != "OUT_REQ_question"@,
        "IN_REQ_sendChat"@ != "IN_RESP_question"@,
        "IN_REQ_sendChat"@ != "OUT_NOTIF_clientRegistered"@,
        "IN_REQ_sendChat"@ != "OUT_NOTIF_clientDisconnected"@,
        "IN_REQ_sendChat"@ != "OUT_NOTIF_chatSent"@,
        "IN_REQ_sendChat"@ != "OUT_NOTIF_adminMade"@,
        "IN_REQ_sendChat"@ != "OUT_NOTIF_gameStarted"@,
        "IN_REQ_sendChat"@ != "OUT_NOTIF_gameStopped"@,
        "IN_REQ_sendChat"@ != "OUT_NOTIF_question"@,
        "IN_REQ_sendChat"@ != "OUT_NOTIF_clientAnswered"@,
        "IN_REQ_sendChat"@ != "OUT_NOTIF_roundEnded"@,
        "IN_REQ_sendChat"@ != "OUT_NOTIF_gameSettingsChanged"@,
        "IN_REQ_makeAdmin"@ != "IN_REQ_clientList"@,
        "IN_REQ_makeAdmin"@ != "IN_REQ_startGame"@,
        "IN_REQ_makeAdmin"@ != "IN_REQ_stopGame"@,
        "IN_REQ_makeAdmin"@ != "IN_REQ_sendAnswer"@,
        "IN_REQ_makeAdmin"@ != "IN_REQ_sendGameSettings"@,
        "IN_REQ_makeAdmin"@ != "OUT_RESP_clientRegistered"@,
        "IN_REQ_makeAdmin"@ != "OUT_RESP_status"@,
        "IN_REQ_makeAdmin"@ != "OUT_RESP_clientList"@,
        "IN_REQ_makeAdmin"@ != "OUT_RESP_signMessage"@,
        "IN_REQ_makeAdmin"@ != "OUT_REQ_question"@,
        "IN_REQ_makeAdmin"@ != "IN_RESP_question"@,
        "IN_REQ_makeAdmin"@ != "OUT_NOTIF_clientRegistered"@,
        "IN_REQ_makeAdmin"@ != "OUT_NOTIF_clientDisconnected"@,
        "IN_REQ_makeAdmin"@ != "OUT_NOTIF_chatSent"@,
        "IN_REQ_makeAdmin"@ != "OUT_NOTIF_adminMade"@,
        "IN_REQ_makeAdmin"@ != "OUT_NOTIF_gameStarted"@,
        "IN_REQ_makeAdmin"@ != "OUT_NOTIF_gameStopped"@,
        "IN_REQ_makeAdmin"@ != "OUT_NOTIF_question"@,
        "IN_REQ_makeAdmin"@ != "OUT_NOTIF_clientAnswered"@,
        "IN_REQ_makeAdmin"@ != "OUT_NOTIF_roundEnded"@,
        "IN_REQ_makeAdmin"@ != "OUT_NOTIF_gameSettingsChanged"@,
        "IN_REQ_clientList"@ != "IN_REQ_startGame"@,
        "IN_REQ_clientList"@ != "IN_REQ_stopGame"@,
        "IN_REQ_clientList"@ != "IN_REQ_sendAnswer"@,
        "IN_REQ_clientList"@ != "IN_REQ_sendGameSettings"@,
        "IN_REQ_clientList"@ != "OUT_RESP_clientRegistered"@,
        "IN_REQ_clientList"@ != "OUT_RESP_status"@,
        "IN_REQ_clientList"@ != "OUT_RESP_clientList"@,
        "IN_REQ_clientList"@ != "OUT_RESP_signMessage"@,
        "IN_REQ_clientList"@ != "OUT_REQ_question"@,
        "IN_REQ_clientList"@ != "IN_RESP_question"@,
        "IN_REQ_clientList"@ != "OUT_NOTIF_clientRegistered"@,
        "IN_REQ_clientList"@ != "OUT_NOTIF_clientDisconnected"@,
        "IN_REQ_clientList"@ != "OUT_NOTIF_chatSent"@,
        "IN_REQ_clientList"@ != "OUT_NOTIF_adminMade"@,
        "IN_REQ_clientList"@ != "OUT_NOTIF_gameStarted"@,
        "IN_REQ_clientList"@ != "OUT_NOTIF_gameStopped"@,
        "IN_REQ_clientList"@ != "OUT_NOTIF_question"@,
        "IN_REQ_clientList"@ != "OUT_NOTIF_clientAnswered"@,
        "IN_REQ_clientList"@ != "OUT_NOTIF_roundEnded"@,
        "IN_REQ_clientList"@ != "OUT_NOTIF_gameSettingsChanged"@,
        "IN_REQ_startGame"@ != "IN_REQ_stopGame"@,
        "IN_REQ_startGame"@ != "IN_REQ_sendAnswer"@,
        "IN_REQ_startGame"@ != "IN_REQ_sendGameSettings"@,
        "IN_REQ_startGame"@ != "OUT_RESP_clientRegistered"@,
        "IN_REQ_startGame"@ != "OUT_RESP_status"@,
        "IN_REQ_startGame"@ != "OUT_RESP_clientList"@,
        "IN_REQ_startGame"@ != "OUT_RESP_signMessage"@,
        "IN_REQ_startGame"@ != "OUT_REQ_question"@,
        "IN_REQ_startGame"@ != "IN_RESP_question"@,
        "IN_REQ_startGame"@ != "OUT_NOTIF_clientRegistered"@,
        "IN_REQ_startGame"@ != "OUT_NOTIF_clientDisconnected"@,
        "IN_REQ_startGame"@ != "OUT_NOTIF_chatSent"@,
        "IN_REQ_startGame"@ != "OUT_NOTIF_adminMade"@,
        "IN_REQ_startGame"@ != "OUT_NOTIF_gameStarted"@,
        "IN_REQ_startGame"@ != "OUT_NOTIF_gameStopped"@,
        "IN_REQ_startGame"@ != "OUT_NOTIF_question"@,
        "IN_REQ_startGame"@ != "OUT_NOTIF_clientAnswered"@,
        "IN_REQ_startGame"@ != "OUT_NOTIF_roundEnded"@,
        "IN_REQ_startGame"@ != "OUT_NOTIF_gameSettingsChanged"@,
        "IN_REQ_stopGame"@ != "IN_REQ_sendAnswer"@,
        "IN_REQ_stopGame"@ != "IN_REQ_sendGameSettings"@,
        "IN_REQ_stopGame"@ != "OUT_RESP_clientRegistered"@,
        "IN_REQ_stopGame"@ != "OUT_RESP_status"@,
        "IN_REQ_stopGame"@ != "OUT_RESP_clientList"@,
        "IN_REQ_stopGame"@ != "OUT_RESP_signMessage"@,
        "IN_REQ_stopGame"@ != "OUT_REQ_question"@,
        "IN_REQ_stopGame"@ != "IN_RESP_question"@,
        "IN_REQ_stopGame"@ != "OUT_NOTIF_clientRegistered"@,
        "IN_REQ_stopGame"@ != "OUT_NOTIF_clientDisconnected"@,
        "IN_REQ_stopGame"@ != "OUT_NOTIF_chatSent"@,
        "IN_REQ_stopGame"@ != "OUT_NOTIF_adminMade"@,
        "IN_REQ_stopGame"@ != "OUT_NOTIF_gameStarted"@,
        "IN_REQ_stopGame"@ != "OUT_NOTIF_gameStopped"@,
        "IN_REQ_stopGame"@ != "OUT_NOTIF_question"@,
        "IN_REQ_stopGame"@ != "OUT_NOTIF_clientAnswered"@,
        "IN_REQ_stopGame"@ != "OUT_NOTIF_roundEnded"@,
        "IN_REQ_stopGame"@ != "OUT_NOTIF_gameSettingsChanged"@,
        "IN_REQ_sendAnswer"@ != "IN_REQ_sendGameSettings"@,
        "IN_REQ_sendAnswer"@ != "OUT_RESP_clientRegistered"@,
        "IN_REQ_sendAnswer"@ != "OUT_RESP_status"@,
        "IN_REQ_sendAnswer"@ != "OUT_RESP_clientList"@,
        "IN_REQ_sendAnswer"@ != "OUT_RESP_signMessage"@,
        "IN_REQ_sendAnswer"@ != "OUT_REQ_question"@,
        "IN_REQ_sendAnswer"@ != "IN_RESP_question"@,
        "IN_REQ_sendAnswer"@ != "OUT_NOTIF_clientRegistered"@,
        "IN_REQ_sendAnswer"@ != "OUT_NOTIF_clientDisconnected"@,
        "IN_REQ_sendAnswer"@ != "OUT_NOTIF_chatSent"@,
        "IN_REQ_sendAnswer"@ != "OUT_NOTIF_adminMade"@,
        "IN_REQ_sendAnswer"@ != "OUT_NOTIF_gameStarted"@,
        "IN_REQ_sendAnswer"@ != "OUT_NOTIF_gameStopped"@,
        "IN_REQ_sendAnswer"@ != "OUT_NOTIF_question"@,
        "IN_REQ_sendAnswer"@ != "OUT_NOTIF_clientAnswered"@,
        "IN_REQ_sendAnswer"@ != "OUT_NOTIF_roundEnded"@,
        "IN_REQ_sendAnswer"@ != "OUT_NOTIF_gameSettingsChanged"@,
        "IN_REQ_sendGameSettings"@ != "OUT_RESP_clientRegistered"@,
        "IN_REQ_sendGameSettings"@ != "OUT_RESP_status"@,
        "IN_REQ_sendGameSettings"@ != "OUT_RESP_clientList"@,
        "IN_REQ_sendGameSettings"@ != "OUT_RESP_signMessage"@,
        "IN_REQ_sendGameSettings"@ != "OUT_REQ_question"@,
        "IN_REQ_sendGameSettings"@ != "IN_RESP_question"@,
        "IN_REQ_sendGameSettings"@ != "OUT_NOTIF_clientRegistered"@,
        "IN_REQ_sendGameSettings"@ != "OUT_NOTIF_clientDisconnected"@,
        "IN_REQ_sendGameSettings"@ != "OUT_NOTIF_chatSent"@,
        "IN_REQ_sendGameSettings"@ != "OUT_NOTIF_adminMade"@,
        "IN_REQ_sendGameSettings"@ != "OUT_NOTIF_gameStarted"@,
        "IN_REQ_sendGameSettings"@ != "OUT_NOTIF_gameStopped"@,
        "IN_REQ_sendGameSettings"@ != "OUT_NOTIF_question"@,
        "IN_REQ_sendGameSettings"@ != "OUT_NOTIF_clientAnswered"@,
        "IN_REQ_sendGameSettings"@ != "OUT_NOTIF_roundEnded"@,
        "IN_REQ_sendGameSettings"@ != "OUT_NOTIF_gameSettingsChanged"@,
        "OUT_RESP_clientRegistered"@ != "OUT_RESP_status"@,
        "OUT_RESP_clientRegistered"@ != "OUT_RESP_clientList"@,
        "OUT_RESP_clientRegistered"@ != "OUT_RESP_signMessage"@,
        "OUT_RESP_clientRegistered"@ != "OUT_REQ_question"@,
        "OUT_RESP_clientRegistered"@ != "IN_RESP_question"@,
        "OUT_RESP_clientRegistered"@ != "OUT_NOTIF_clientRegistered"@,
        "OUT_RESP_clientRegistered"@ != "OUT_NOTIF_clientDisconnected"@,
        "OUT_RESP_clientRegistered"@ != "OUT_NOTIF_chatSent"@,
        "OUT_RESP_clientRegistered"@ != "OUT_NOTIF_adminMade"@,
        "OUT_RESP_clientRegistered"@ != "OUT_NOTIF_gameStarted"@,
        "OUT_RESP_clientRegistered"@ != "OUT_NOTIF_gameStopped"@,
        "OUT_RESP_clientRegistered"@ != "OUT_NOTIF_question"@,
        "OUT_RESP_clientRegistered"@ != "OUT_NOTIF_clientAnswered"@,
        "OUT_RESP_clientRegistered"@ != "OUT_NOTIF_roundEnded"@,
        "OUT_RESP_clientRegistered"@ != "OUT_NOTIF_gameSettingsChanged"@,
        "OUT_RESP_status"@ != "OUT_RESP_clientList"@,
        "OUT_RESP_status"@ != "OUT_RESP_signMessage"@,
        "OUT_RESP_status"@ != "OUT_REQ_question"@,
        "OUT_RESP_status"@ != "IN_RESP_question"@,
        "OUT_RESP_status"@ != "OUT_NOTIF_clientRegistered"@,
        "OUT_RESP_status"@ != "OUT_NOTIF_clientDisconnected"@,
        "OUT_RESP_status"@ != "OUT_NOTIF_chatSent"@,
        "OUT_RESP_status"@ != "OUT_NOTIF_adminMade"@,
        "OUT_RESP_status"@ != "OUT_NOTIF_gameStarted"@,
        "OUT_RESP_status"@ != "OUT_NOTIF_gameStopped"@,
        "OUT_RESP_status"@ != "OUT_NOTIF_question"@,
        "OUT_RESP_status"@ != "OUT_NOTIF_clientAnswered"@,
        "OUT_RESP_status"@ != "OUT_NOTIF_roundEnded"@,
        "OUT_RESP_status"@ != "OUT_NOTIF_gameSettingsChanged"@,
        "OUT_RESP_clientList"@ != "OUT_RESP_signMessage"@,
        "OUT_RESP_clientList"@ != "OUT_REQ_question"@,
        "OUT_RESP_clientList"@ != "IN_RESP_question"@,
        "OUT_RESP_clientList"@ != "OUT_NOTIF_clientRegistered"@,
        "OUT_RESP_clientList"@ != "OUT_NOTIF_clientDisconnected"@,
        "OUT_RESP_clientList"@ != "OUT_NOTIF_chatSent"@,
        "OUT_RESP_clientList"@ != "OUT_NOTIF_adminMade"@,
        "OUT_RESP_clientList"@ != "OUT_NOTIF_gameStarted"@,
        "OUT_RESP_clientList"@ != "OUT_NOTIF_gameStopped"@,
        "OUT_RESP_clientList"@ != "OUT_NOTIF_question"@,
        "OUT_RESP_clientList"@ != "OUT_NOTIF_clientAnswered"@,
        "OUT_RESP_clientList"@ != "OUT_NOTIF_roundEnded"@,
        "OUT_RESP_clientList"@ != "OUT_NOTIF_gameSettingsChanged"@,
        "OUT_RESP_signMessage"@ != "OUT_REQ_question"@,
        "OUT_RESP_signMessage"@ != "IN_RESP_question"@,
        "OUT_RESP_signMessage"@ != "OUT_NOTIF_clientRegistered"@,
        "OUT_RESP_signMessage"@ != "OUT_NOTIF_clientDisconnected"@,
        "OUT_RESP_signMessage"@ != "OUT_NOTIF_chatSent"@,
        "OUT_RESP_signMessage"@ != "OUT_NOTIF_adminMade"@,
        "OUT_RESP_signMessage"@ != "OUT_NOTIF_gameStarted"@,
        "OUT_RESP_signMessage"@ != "OUT_NOTIF_gameStopped"@,
        "OUT_RESP_signMessage"@ != "OUT_NOTIF_question"@,
        "OUT_RESP_signMessage"@ != "OUT_NOTIF_clientAnswered"@,
        "OUT_RESP_signMessage"@ != "OUT_NOTIF_roundEnded"@,
        "OUT_RESP_signMessage"@ != "OUT_NOTIF_gameSettingsChanged"@,
        "OUT_REQ_question"@ != "IN_RESP_question"@,
        "OUT_REQ_question"@ != "OUT_NOTIF_clientRegistered"@,
        "OUT_REQ_question"@ != "OUT_NOTIF_clientDisconnected"@,
        "OUT_REQ_question"@ != "OUT_NOTIF_chatSent"@,
        "OUT_REQ_question"@ != "OUT_NOTIF_adminMade"@,
        "OUT_REQ_question"@ != "OUT_NOTIF_gameStarted"@,
        "OUT_REQ_question"@ != "OUT_NOTIF_gameStopped"@,
        "OUT_REQ_question"@ != "OUT_NOTIF_question"@,
        "OUT_REQ_question"@ != "OUT_NOTIF_clientAnswered"@,
        "OUT_REQ_question"@ != "OUT_NOTIF_roundEnded"@,
        "OUT_REQ_question"@ != "OUT_NOTIF_gameSettingsChanged"@,
        "IN_RESP_question"@ != "OUT_NOTIF_clientRegistered"@,
        "IN_RESP_question"@ != "OUT_NOTIF_clientDisconnected"@,
        "IN_RESP_question"@ != "OUT_NOTIF_chatSent"@,
        "IN_RESP_question"@ != "OUT_NOTIF_adminMade"@,
        "IN_RESP_question"@ != "OUT_NOTIF_gameStarted"@,
        "IN_RESP_question"@ != "OUT_NOTIF_gameStopped"@,
        "IN_RESP_question"@ != "OUT_NOTIF_question"@,
        "IN_RESP_question"@ != "OUT_NOTIF_clientAnswered"@,
        "IN_RESP_question"@ != "OUT_NOTIF_roundEnded"@,
        "IN_RESP_question"@ != "OUT_NOTIF_gameSettingsChanged"@,
        "OUT_NOTIF_clientRegistered"@ != "OUT_NOTIF_clientDisconnected"@,
        "OUT_NOTIF_clientRegistered"@ != "OUT_NOTIF_chatSent"@,
        "OUT_NOTIF_clientRegistered"@ != "OUT_NOTIF_adminMade"@,
        "OUT_NOTIF_clientRegistered"@ != "OUT_NOTIF_gameStarted"@,
        "OUT_NOTIF_clientRegistered"@ != "OUT_NOTIF_gameStopped"@,
        "OUT_NOTIF_clientRegistered"@ != "OUT_NOTIF_question"@,
        "OUT_NOTIF_clientRegistered"@ != "OUT_NOTIF_clientAnswered"@,
        "OUT_NOTIF_clientRegistered"@ != "OUT_NOTIF_roundEnded"@,
        "OUT_NOTIF_clientRegistered"@ != "OUT_NOTIF_gameSettingsChanged"@,
        "OUT_NOTIF_clientDisconnected"@ != "OUT_NOTIF_chatSent"@,
        "OUT_NOTIF_clientDisconnected"@ != "OUT_NOTIF_adminMade"@,
        "OUT_NOTIF_clientDisconnected"@ != "OUT_NOTIF_gameStarted"@,
        "OUT_NOTIF_clientDisconnected"@ != "OUT_NOTIF_gameStopped"@,
        "OUT_NOTIF_clientDisconnected"@ != "OUT_NOTIF_question"@,
        "OUT_NOTIF_clientDisconnected"@ != "OUT_NOTIF_clientAnswered"@,
        "OUT_NOTIF_clientDisconnected"@ != "OUT_NOTIF_roundEnded"@,
        "OUT_NOTIF_clientDisconnected"@ != "OUT_NOTIF_gameSettingsChanged"@,
        "OUT_NOTIF_chatSent"@ != "OUT_NOTIF_adminMade"@,
        "OUT_NOTIF_chatSent"@ != "OUT_NOTIF_gameStarted"@,
        "OUT_NOTIF_chatSent"@ != "OUT_NOTIF_gameStopped"@,
        "OUT_NOTIF_chatSent"@ != "OUT_NOTIF_question"@,
        "OUT_NOTIF_chatSent"@ != "OUT_NOTIF_clientAnswered"@,
        "OUT_NOTIF_chatSent"@ != "OUT_NOTIF_roundEnded"@,
        "OUT_NOTIF_chatSent"@ != "OUT_NOTIF_gameSettingsChanged"@,
        "OUT_NOTIF_adminMade"@ != "OUT_NOTIF_gameStarted"@,
        "OUT_NOTIF_adminMade"@ != "OUT_NOTIF_gameStopped"@,
        "OUT_NOTIF_adminMade"@ != "OUT_NOTIF_question"@,
        "OUT_NOTIF_adminMade"@ != "OUT_NOTIF_clientAnswered"@,
        "OUT_NOTIF_adminMade"@ != "OUT_NOTIF_roundEnded"@,
        "OUT_NOTIF_adminMade"@ != "OUT_NOTIF_gameSettingsChanged"@,
        "OUT_NOTIF_gameStarted"@ != "OUT_NOTIF_gameStopped"@,
        "OUT_NOTIF_gameStarted"@ != "OUT_NOTIF_question"@,
        "OUT_NOTIF_gameStarted"@ != "OUT_NOTIF_clientAnswered"@,
        "OUT_NOTIF_gameStarted"@ != "OUT_NOTIF_roundEnded"@,
        "OUT_NOTIF_gameStarted"@ != "OUT_NOTIF_gameSettingsChanged"@,
        "OUT_NOTIF_gameStopped"@ != "OUT_NOTIF_question"@,
        "OUT_NOTIF_gameStopped"@ != "OUT_NOTIF_clientAnswered"@,
        "OUT_NOTIF_gameStopped"@ != "OUT_NOTIF_roundEnded"@,
        "OUT_NOTIF_gameStopped"@ != "OUT_NOTIF_gameSettingsChanged"@,
        "OUT_NOTIF_question"@ != "OUT_NOTIF_clientAnswered"@,
        "OUT_NOTIF_question"@ != "OUT_NOTIF_roundEnded"@,
        "OUT_NOTIF_question"@ != "OUT_NOTIF_gameSettingsChanged"@,
        "OUT_NOTIF_clientAnswered"@ != "OUT_NOTIF_roundEnded"@,
        "OUT_NOTIF_clientAnswered"@ != "OUT_NOTIF_gameSettingsChanged"@,
        "OUT_NOTIF_roundEnded"@ != "OUT_NOTIF_gameSettingsChanged"@,
{
    reveal_strlit("IN_REQ_sendPublicKey");
    reveal_strlit("IN_REQ_verifysignature");
    reveal_strlit("IN_REQ_registerClient");
    reveal_strlit("IN_REQ_sendChat");
    reveal_strlit("IN_REQ_makeAdmin");
    reveal_strlit("IN_REQ_clientList");
    reveal_strlit("IN_REQ_startGame");
    reveal_strlit("IN_REQ_stopGame");
    reveal_strlit("IN_REQ_sendAnswer");
    reveal_strlit("IN_REQ_sendGameSettings");
    reveal_strlit("OUT_RESP_clientRegistered");
    reveal_strlit("OUT_RESP_status");
    reveal_strlit("OUT_RESP_clientList");
    reveal_strlit("OUT_RESP_signMessage");
    reveal_strlit("OUT_REQ_question");
    reveal_strlit("IN_RESP_question");
    reveal_strlit("OUT_NOTIF_clientRegistered");
    reveal_strlit("OUT_NOTIF_clientDisconnected");
    reveal_strlit("OUT_NOTIF_chatSent");
    reveal_strlit("OUT_NOTIF_adminMade");
    reveal_strlit("OUT_NOTIF_gameStarted");
    reveal_strlit("OUT_NOTIF_gameStopped");
    reveal_strlit("OUT_NOTIF_question");
    reveal_strlit("OUT_NOTIF_clientAnswered");
    reveal_strlit("OUT_NOTIF_roundEnded");
    reveal_strlit("OUT_NOTIF_gameSettingsChanged");
    assert("IN_REQ_sendPublicKey"@.len() == 20);
    assert("IN_REQ_verifysignature"@.len() == 22);
    assert("IN_REQ_registerClient"@.len() == 21);
    assert("IN_REQ_sendChat"@.len() == 15);
    assert("IN_REQ_makeAdmin"@.len() == 16);
    assert("IN_REQ_clientList"@.len() == 17);
    assert("IN_REQ_startGame"@.len() == 16);
    assert("IN_REQ_stopGame"@.len() == 15);
    assert("IN_REQ_sendAnswer"@.len() == 17);
    assert("IN_REQ_sendGameSettings"@.len() == 23);
    assert("OUT_RESP_clientRegistered"@.len() == 25);
    assert("OUT_RESP_status"@.len() == 15);
    assert("OUT_RESP_clientList"@.len() == 19);
    assert("OUT_RESP_signMessage"@.len() == 20);
    assert("OUT_REQ_question"@.len() == 16);
    assert("IN_RESP_question"@.len() == 16);
    assert("OUT_NOTIF_clientRegistered"@.len() == 26);
    assert("OUT_NOTIF_clientDisconnected"@.len() == 28);
    assert("OUT_NOTIF_chatSent"@.len() == 18);
    assert("OUT_NOTIF_adminMade"@.len() == 19);
    assert("OUT_NOTIF_gameStarted"@.len() == 21);
    assert("OUT_NOTIF_gameStopped"@.len() == 21);
    assert("OUT_NOTIF_question"@.len() == 18);
    assert("OUT_NOTIF_clientAnswered"@.len() == 24);
    assert("OUT_NOTIF_roundEnded"@.len() == 20);
    assert("OUT_NOTIF_gameSettingsChanged"@.len() == 29);
    assert("IN_REQ_clientList"@[7] == 'c');
    assert("IN_REQ_makeAdmin"@[0] == 'I');
    assert("IN_REQ_makeAdmin"@[5] == 'Q');
    assert("IN_REQ_makeAdmin"@[7] == 'm');
    assert("IN_REQ_registerClient"@[0] == 'I');
    assert("IN_REQ_sendAnswer"@[7] == 's');
    assert("IN_REQ_sendChat"@[0] == 'I');
    assert("IN_REQ_sendChat"@[8] == 'e');
    assert("IN_REQ_sendPublicKey"@[0] == 'I');
    assert("IN_REQ_startGame"@[0] == 'I');
    assert("IN_REQ_startGame"@[5] == 'Q');
    assert("IN_REQ_startGame"@[7] == 's');
    assert("IN_REQ_stopGame"@[0] == 'I');
    assert("IN_REQ_stopGame"@[8] == 't');
    assert("IN_RESP_question"@[0] == 'I');
    assert("IN_RESP_question"@[5] == 'S');
    assert("OUT_NOTIF_adminMade"@[4] == 'N');
    assert("OUT_NOTIF_chatSent"@[10] == 'c');
    assert("OUT_NOTIF_gameStarted"@[0] == 'O');
    assert("OUT_NOTIF_gameStarted"@[16] == 'a');
    assert("OUT_NOTIF_gameStopped"@[0] == 'O');
    assert("OUT_NOTIF_gameStopped"@[16] == 'o');
    assert("OUT_NOTIF_question"@[10] == 'q');
    assert("OUT_NOTIF_roundEnded"@[0] == 'O');
    assert("OUT_NOTIF_roundEnded"@[4] == 'N');
    assert("OUT_REQ_question"@[0] == 'O');
    assert("OUT_RESP_clientList"@[4] == 'R');
    assert("OUT_RESP_signMessage"@[0] == 'O');
    assert("OUT_RESP_signMessage"@[4] == 'R');
    assert("OUT_RESP_status"@[0] == 'O');
}

/// Decode a wire form: accepts exactly the values that faithfully show
/// some message, and returns such a message.
pub fn parse(v: &JsonVal) -> (r: Option<TransportMsg>)
    ensures
        match r {
            Some(m) => represents(m, *v),
            None => forall|m: TransportMsg| !represents(m, *v),
        },
{
    proof {
        reveal_strlit("IN_REQ_sendPublicKey");
        reveal_strlit("IN_REQ_verifysignature");
        reveal_strlit("IN_REQ_registerClient");
        reveal_strlit("IN_REQ_sendChat");
        reveal_strlit("IN_REQ_makeAdmin");
        reveal_strlit("IN_REQ_clientList");
        reveal_strlit("IN_REQ_startGame");
        reveal_strlit("IN_REQ_stopGame");
        reveal_strlit("IN_REQ_sendAnswer");
        reveal_strlit("IN_REQ_sendGameSettings");
        reveal_strlit("OUT_RESP_clientRegistered");
        reveal_strlit("OUT_RESP_status");
        reveal_strlit("OUT_RESP_clientList");
        reveal_strlit("OUT_RESP_signMessage");
        reveal_strlit("OUT_REQ_question");
        reveal_strlit("IN_RESP_question");
        reveal_strlit("OUT_NOTIF_clientRegistered");
        reveal_strlit("OUT_NOTIF_clientDisconnected");
        reveal_strlit("OUT_NOTIF_chatSent");
        reveal_strlit("OUT_NOTIF_adminMade");
        reveal_strlit("OUT_NOTIF_gameStarted");
        reveal_strlit("OUT_NOTIF_gameStopped");
        reveal_strlit("OUT_NOTIF_question");
        reveal_strlit("OUT_NOTIF_clientAnswered");
        reveal_strlit("OUT_NOTIF_roundEnded");
        reveal_strlit("OUT_NOTIF_gameSettingsChanged");
    }
    match v {
        JsonVal::Obj(fields) => {
            if fields.len() != 3 {
                return None;
            }
            if !(key_is(&fields[0].0, "correlationId") && key_is(&fields[1].0, "messageType")
                && key_is(&fields[2].0, "payload")) {
                return None;
            }
            let corr = match &fields[0].1 {
                JsonVal::Str(s) => match parse_uuid(s.as_str()) {
                    Some(u) => u,
                    None => { return None; },
                },
                _ => { return None; },
            };
            let tag = match &fields[1].1 {
                JsonVal::Str(t) => t,
                _ => { return None; },
            };
            let pv = &fields[2].1;
            if key_is(tag, "IN_REQ_sendPublicKey") {
                match parse_in_req_send_public_key(pv) {
                    Some(p) => Some(TransportMsg::InReqSendPublicKey(TransportEnvelope { correlation_id: corr, payload: p })),
                    None => {
                        proof {
                            assert forall|m: TransportMsg| !represents(m, *v) by {
                                lemma_tags_pairwise_distinct();
                                if represents(m, *v) {
                                    match m {
                                        TransportMsg::InReqSendPublicKey(e) => {
                                            assert(rep_in_req_send_public_key(e.payload, fields@[2].1));
                                        },
                                        _ => {},
                                    }
                                }
                            }
                        }
                        None
                    },
                }
            } else if key_is(tag, "IN_REQ_verifysignature") {
                match parse_in_req_verify_signature(pv) {
                    Some(p) => Some(TransportMsg::InReqVerifySignature(TransportEnvelope { correlation_id: corr, payload: p })),
                    None => {
                        proof {
                            assert forall|m: TransportMsg| !represents(m, *v) by {
                                lemma_tags_pairwise_distinct();
                                if represents(m, *v) {
                                    match m {
                                        TransportMsg::InReqVerifySignature(e) => {
                                            assert(rep_in_req_verify_signature(e.payload, fields@[2].1));
                                        },
                                        _ => {},
                                    }
                                }
                            }
                        }
                        None
                    },
                }
            } else if key_is(tag, "IN_REQ_registerClient") {
                match parse_in_req_register_client(pv) {
                    Some(p) => Some(TransportMsg::InReqRegisterClient(TransportEnvelope { correlation_id: corr, payload: p })),
                    None => {
                        proof {
                            assert forall|m: TransportMsg| !represents(m, *v) by {
                                lemma_tags_pairwise_distinct();
                                if represents(m, *v) {
                                    match m {
                                        TransportMsg::InReqRegisterClient(e) => {
                                            assert(rep_in_req_register_client(e.payload, fields@[2].1));
                                        },
                                        _ => {},
                                    }
                                }
                            }
                        }
                        None
                    },
                }
            } else if key_is(tag, "IN_REQ_sendChat") {
                match parse_in_req_send_chat(pv) {
                    Some(p) => Some(TransportMsg::InReqSendChat(TransportEnvelope { correlation_id: corr, payload: p })),
                    None => {
                        proof {
                            assert forall|m: TransportMsg| !represents(m, *v) by {
                                lemma_tags_pairwise_distinct();
                                if represents(m, *v) {
                                    match m {
                                        TransportMsg::InReqSendChat(e) => {
                                            assert(rep_in_req_send_chat(e.payload, fields@[2].1));
                                        },
                                        _ => {},
                                    }
                                }
                            }
                        }
                        None
                    },
                }
            } else if key_is(tag, "IN_REQ_makeAdmin") {
                match parse_in_req_make_admin(pv) {
                    Some(p) => Some(TransportMsg::InReqMakeAdmin(TransportEnvelope { correlation_id: corr, payload: p })),
                    None => {
                        proof {
                            assert forall|m: TransportMsg| !represents(m, *v) by {
                                lemma_tags_pairwise_distinct();
                                if represents(m, *v) {
                                    match m {
                                        TransportMsg::InReqMakeAdmin(e) => {
                                            assert(rep_in_req_make_admin(e.payload, fields@[2].1));
                                        },
                                        _ => {},
                                    }
                                }
                            }
                        }
                        None
                    },
                }
            } else if key_is(tag, "IN_REQ_clientList") {
                match parse_in_req_client_list(pv) {
                    Some(p) => Some(TransportMsg::InReqClientList(TransportEnvelope { correlation_id: corr, payload: p })),
                    None => {
                        proof {
                            assert forall|m: TransportMsg| !represents(m, *v) by {
                                lemma_tags_pairwise_distinct();
                                if represents(m, *v) {
                                    match m {
                                        TransportMsg::InReqClientList(e) => {
                                            assert(rep_in_req_client_list(e.payload, fields@[2].1));
                                        },
                                        _ => {},
                                    }
                                }
                            }
                        }
                        None
                    },
                }
            } else if key_is(tag, "IN_REQ_startGame") {
                match parse_in_req_start_game(pv) {
                    Some(p) => Some(TransportMsg::InReqStartGame(TransportEnvelope { correlation_id: corr, payload: p })),
                    None => {
                        proof {
                            assert forall|m: TransportMsg| !represents(m, *v) by {
                                lemma_tags_pairwise_distinct();
                                if represents(m, *v) {
                                    match m {
                                        TransportMsg::InReqStartGame(e) => {
                                            assert(rep_in_req_start_game(e.payload, fields@[2].1));
                                        },
                                        _ => {},
                                    }
                                }
                            }
                        }
                        None
                    },
                }
            } else if key_is(tag, "IN_REQ_stopGame") {
                match parse_in_req_stop_game(pv) {
                    Some(p) => Some(TransportMsg::InReqStopGame(TransportEnvelope { correlation_id: corr, payload: p })),
                    None => {
                        proof {
                            assert forall|m: TransportMsg| !represents(m, *v) by {
                                lemma_tags_pairwise_distinct();
                                if represents(m, *v) {
                                    match m {
                                        TransportMsg::InReqStopGame(e) => {
                                            assert(rep_in_req_stop_game(e.payload, fields@[2].1));
                                        },
                                        _ => {},
                                    }
                                }
                            }
                        }
                        None
                    },
                }
            } else if key_is(tag, "IN_REQ_sendAnswer") {
                match parse_in_req_send_answer(pv) {
                    Some(p) => Some(TransportMsg::InReqSendAnswer(TransportEnvelope { correlation_id: corr, payload: p })),
                    None => {
                        proof {
                            assert forall|m: TransportMsg| !represents(m, *v) by {
                                lemma_tags_pairwise_distinct();
                                if represents(m, *v) {
                                    match m {
                                        TransportMsg::InReqSendAnswer(e) => {
                                            assert(rep_in_req_send_answer(e.payload, fields@[2].1));
                                        },
                                        _ => {},
                                    }
                                }
                            }
                        }
                        None
                    },
                }
            } else if key_is(tag, "IN_REQ_sendGameSettings") {
                match parse_in_req_send_game_settings(pv) {
                    Some(p) => Some(TransportMsg::InReqSendGameSettings(TransportEnvelope { correlation_id: corr, payload: p })),
                    None => {
                        proof {
                            assert forall|m: TransportMsg| !represents(m, *v) by {
                                lemma_tags_pairwise_distinct();
                                if represents(m, *v) {
                                    match m {
                                        TransportMsg::InReqSendGameSettings(e) => {
                                            assert(rep_in_req_send_game_settings(e.payload, fields@[2].1));
                                        },
                                        _ => {},
                                    }
                                }
                            }
                        }
                        None
                    },
                }
            } else if key_is(tag, "OUT_RESP_clientRegistered") {
                match parse_out_resp_client_registered(pv) {
                    Some(p) => Some(TransportMsg::OutRespClientRegistered(TransportEnvelope { correlation_id: corr, payload: p })),
                    None => {
                        proof {
                            assert forall|m: TransportMsg| !represents(m, *v) by {
                                lemma_tags_pairwise_distinct();
                                if represents(m, *v) {
                                    match m {
                                        TransportMsg::OutRespClientRegistered(e) => {
                                            assert(rep_out_resp_client_registered(e.payload, fields@[2].1));
                                        },
                                        _ => {},
                                    }
                                }
                            }
                        }
                        None
                    },
                }
            } else if key_is(tag, "OUT_RESP_status") {
                match parse_out_resp_status(pv) {
                    Some(p) => Some(TransportMsg::OutRespStatus(TransportEnvelope { correlation_id: corr, payload: p })),
                    None => {
                        proof {
                            assert forall|m: TransportMsg| !represents(m, *v) by {
                                lemma_tags_pairwise_distinct();
                                if represents(m, *v) {
                                    match m {
                                        TransportMsg::OutRespStatus(e) => {
                                            assert(rep_out_resp_status(e.payload, fields@[2].1));
                                        },
                                        _ => {},
                                    }
                                }
                            }
                        }
                        None
                    },
                }
            } else if key_is(tag, "OUT_RESP_clientList") {
                match parse_out_resp_client_list(pv) {
                    Some(p) => Some(TransportMsg::OutRespClientList(TransportEnvelope { correlation_id: corr, payload: p })),
                    None => {
                        proof {
                            assert forall|m: TransportMsg| !represents(m, *v) by {
                                lemma_tags_pairwise_distinct();
                                if represents(m, *v) {
                                    match m {
                                        TransportMsg::OutRespClientList(e) => {
                                            assert(rep_out_resp_client_list(e.payload, fields@[2].1));
                                        },
                                        _ => {},
                                    }
                                }
                            }
                        }
                        None
                    },
                }
            } else if key_is(tag, "OUT_RESP_signMessage") {
                match parse_out_resp_sign_message(pv) {
                    Some(p) => Some(TransportMsg::OutRespSignMessage(TransportEnvelope { correlation_id: corr, payload: p })),
                    None => {
                        proof {
                            assert forall|m: TransportMsg| !represents(m, *v) by {
                                lemma_tags_pairwise_distinct();
                                if represents(m, *v) {
                                    match m {
                                        TransportMsg::OutRespSignMessage(e) => {
                                            assert(rep_out_resp_sign_message(e.payload, fields@[2].1));
                                        },
                                        _ => {},
                                    }
                                }
                            }
                        }
                        None
                    },
                }
            } else if key_is(tag, "OUT_REQ_question") {
                match parse_out_req_question(pv) {
                    Some(p) => Some(TransportMsg::OutReqQuestion(TransportEnvelope { correlation_id: corr, payload: p })),
                    None => {
                        proof {
                            assert forall|m: TransportMsg| !represents(m, *v) by {
                                lemma_tags_pairwise_distinct();
                                if represents(m, *v) {
                                    match m {
                                        TransportMsg::OutReqQuestion(e) => {
                                            assert(rep_out_req_question(e.payload, fields@[2].1));
                                        },
                                        _ => {},
                                    }
                                }
                            }
                        }
                        None
                    },
                }
            } else if key_is(tag, "IN_RESP_question") {
                match parse_in_resp_question(pv) {
                    Some(p) => Some(TransportMsg::InRespQuestion(TransportEnvelope { correlation_id: corr, payload: p })),
                    None => {
                        proof {
                            assert forall|m: TransportMsg| !represents(m, *v) by {
                                lemma_tags_pairwise_distinct();
                                if represents(m, *v) {
                                    match m {
                                        TransportMsg::InRespQuestion(e) => {
                                            assert(rep_in_resp_question(e.payload, fields@[2].1));
                                        },
                                        _ => {},
                                    }
                                }
                            }
                        }
                        None
                    },
                }
            } else if key_is(tag, "OUT_NOTIF_clientRegistered") {
                match parse_out_notif_client_registered(pv) {
                    Some(p) => Some(TransportMsg::OutNotifClientRegistered(TransportEnvelope { correlation_id: corr, payload: p })),
                    None => {
                        proof {
                            assert forall|m: TransportMsg| !represents(m, *v) by {
                                lemma_tags_pairwise_distinct();
                                if represents(m, *v) {
                                    match m {
                                        TransportMsg::OutNotifClientRegistered(e) => {
                                            assert(rep_out_notif_client_registered(e.payload, fields@[2].1));
                                        },
                                        _ => {},
                                    }
                                }
                            }
                        }
                        None
                    },
                }
            } else if key_is(tag, "OUT_NOTIF_clientDisconnected") {
                match parse_out_notif_client_disconnected(pv) {
                    Some(p) => Some(TransportMsg::OutNotifClientDisconnected(TransportEnvelope { correlation_id: corr, payload: p })),
                    None => {
                        proof {
                            assert forall|m: TransportMsg| !represents(m, *v) by {
                                lemma_tags_pairwise_distinct();
                                if represents(m, *v) {
                                    match m {
                                        TransportMsg::OutNotifClientDisconnected(e) => {
                                            assert(rep_out_notif_client_disconnected(e.payload, fields@[2].1));
                                        },
                                        _ => {},
                                    }
                                }
                            }
                        }
                        None
                    },
                }
            } else if key_is(tag, "OUT_NOTIF_chatSent") {
                match parse_out_notif_chat_sent(pv) {
                    Some(p) => Some(TransportMsg::OutNotifChatSent(TransportEnvelope { correlation_id: corr, payload: p })),
                    None => {
                        proof {
                            assert forall|m: TransportMsg| !represents(m, *v) by {
                                lemma_tags_pairwise_distinct();
                                if represents(m, *v) {
                                    match m {
                                        TransportMsg::OutNotifChatSent(e) => {
                                            assert(rep_out_notif_chat_sent(e.payload, fields@[2].1));
                                        },
                                        _ => {},
                                    }
                                }
                            }
                        }
                        None
                    },
                }
            } else if key_is(tag, "OUT_NOTIF_adminMade") {
                match parse_out_notif_admin_made(pv) {
                    Some(p) => Some(TransportMsg::OutNotifAdminMade(TransportEnvelope { correlation_id: corr, payload: p })),
                    None => {
                        proof {
                            assert forall|m: TransportMsg| !represents(m, *v) by {
                                lemma_tags_pairwise_distinct();
                                if represents(m, *v) {
                                    match m {
                                        TransportMsg::OutNotifAdminMade(e) => {
                                            assert(rep_out_notif_admin_made(e.payload, fields@[2].1));
                                        },
                                        _ => {},
                                    }
                                }
                            }
                        }
                        None
                    },
                }
            } else if key_is(tag, "OUT_NOTIF_gameStarted") {
                match parse_out_notif_game_started(pv) {
                    Some(p) => Some(TransportMsg::OutNotifGameStarted(TransportEnvelope { correlation_id: corr, payload: p })),
                    None => {
                        proof {
                            assert forall|m: TransportMsg| !represents(m, *v) by {
                                lemma_tags_pairwise_distinct();
                                if represents(m, *v) {
                                    match m {
                                        TransportMsg::OutNotifGameStarted(e) => {
                                            assert(rep_out_notif_game_started(e.payload, fields@[2].1));
                                        },
                                        _ => {},
                                    }
                                }
                            }
                        }
                        None
                    },
                }
            } else if key_is(tag, "OUT_NOTIF_gameStopped") {
                match parse_out_notif_game_stopped(pv) {
                    Some(p) => Some(TransportMsg::OutNotifGameStopped(TransportEnvelope { correlation_id: corr, payload: p })),
                    None => {
                        proof {
                            assert forall|m: TransportMsg| !represents(m, *v) by {
                                lemma_tags_pairwise_distinct();
                                if represents(m, *v) {
                                    match m {
                                        TransportMsg::OutNotifGameStopped(e) => {
                                            assert(rep_out_notif_game_stopped(e.payload, fields@[2].1));
                                        },
                                        _ => {},
                                    }
                                }
                            }
                        }
                        None
                    },
                }
            } else if key_is(tag, "OUT_NOTIF_question") {
                match parse_out_notif_question(pv) {
                    Some(p) => Some(TransportMsg::OutNotifQuestion(TransportEnvelope { correlation_id: corr, payload: p })),
                    None => {
                        proof {
                            assert forall|m: TransportMsg| !represents(m, *v) by {
                                lemma_tags_pairwise_distinct();
                                if represents(m, *v) {
                                    match m {
                                        TransportMsg::OutNotifQuestion(e) => {
                                            assert(rep_out_notif_question(e.payload, fields@[2].1));
                                        },
                                        _ => {},
                                    }
                                }
                            }
                        }
                        None
                    },
                }
            } else if key_is(tag, "OUT_NOTIF_clientAnswered") {
                match parse_out_notif_client_answered(pv) {
                    Some(p) => Some(TransportMsg::OutNotifClientAnswered(TransportEnvelope { correlation_id: corr, payload: p })),
                    None => {
                        proof {
                            assert forall|m: TransportMsg| !represents(m, *v) by {
                                lemma_tags_pairwise_distinct();
                                if represents(m, *v) {
                                    match m {
                                        TransportMsg::OutNotifClientAnswered(e) => {
                                            assert(rep_out_notif_client_answered(e.payload, fields@[2].1));
                                        },
                                        _ => {},
                                    }
                                }
                            }
                        }
                        None
                    },
                }
            } else if key_is(tag, "OUT_NOTIF_roundEnded") {
                match parse_out_notif_round_ended(pv) {
                    Some(p) => Some(TransportMsg::OutNotifRoundEnded(TransportEnvelope { correlation_id: corr, payload: p })),
                    None => {
                        proof {
                            assert forall|m: TransportMsg| !represents(m, *v) by {
                                lemma_tags_pairwise_distinct();
                                if represents(m, *v) {
                                    match m {
                                        TransportMsg::OutNotifRoundEnded(e) => {
                                            assert(rep_out_notif_round_ended(e.payload, fields@[2].1));
                                        },
                                        _ => {},
                                    }
                                }
                            }
                        }
                        None
                    },
                }
            } else if key_is(tag, "OUT_NOTIF_gameSettingsChanged") {
                match parse_out_notif_game_settings_changed(pv) {
                    Some(p) => Some(TransportMsg::OutNotifGameSettingsChanged(TransportEnvelope { correlation_id: corr, payload: p })),
                    None => {
                        proof {
                            assert forall|m: TransportMsg| !represents(m, *v) by {
                                lemma_tags_pairwise_distinct();
                                if represents(m, *v) {
                                    match m {
                                        TransportMsg::OutNotifGameSettingsChanged(e) => {
                                            assert(rep_out_notif_game_settings_changed(e.payload, fields@[2].1));
                                        },
                                        _ => {},
                                    }
                                }
                            }
                        }
                        None
                    },
                }
            } else {
                return None;
            }
        },
        _ => None,
    }
}

/// Text-level sameness: two values whose identifiers, numbers and flags are
/// equal and whose texts read the same, element by element.
pub open spec fn like_text_seq(a: Seq<String>, b: Seq<String>) -> bool {
    a.len() == b.len() && (forall|i: int| 0 <= i < a.len() ==> (#[trigger] a[i])@ == b[i]@)
}

pub open spec fn like_game_settings(a: GameSettings, b: GameSettings) -> bool {
    &&& (match (a.first_font_name, b.first_font_name) { (Option::<String>::None, Option::<String>::None) => true, (Some(x), Some(y)) => x@ == y@, _ => false })
    &&& a.fonts_count == b.fonts_count
    &&& a.max_frequency == b.max_frequency
    &&& a.min_frequency == b.min_frequency
    &&& a.round_duration == b.round_duration
    &&& a.rounds_count == b.rounds_count
    &&& a.using_max_frequency == b.using_max_frequency
    &&& (match (a.word_part, b.word_part) { (Option::<String>::None, Option::<String>::None) => true, (Some(x), Some(y)) => x@ == y@, _ => false })
    &&& (match (a.word_part_reading, b.word_part_reading) { (Option::<String>::None, Option::<String>::None) => true, (Some(x), Some(y)) => x@ == y@, _ => false })
}

pub open spec fn like_client_info(a: ClientInfo, b: ClientInfo) -> bool {
    &&& a.id == b.id
    &&& a.is_admin == b.is_admin
    &&& a.key@ == b.key@
    &&& a.name@ == b.name@
}

pub open spec fn like_client_info_seq(a: Seq<ClientInfo>, b: Seq<ClientInfo>) -> bool {
    a.len() == b.len() && (forall|i: int| 0 <= i < a.len() ==> like_client_info(#[trigger] a[i], b[i]))
}

pub open spec fn like_answer_info(a: AnswerInfo, b: AnswerInfo) -> bool {
    &&& a.answer@ == b.answer@
    &&& a.answer_time == b.answer_time
    &&& a.id == b.id
    &&& a.is_correct == b.is_correct
}

pub open spec fn like_answer_info_seq(a: Seq<AnswerInfo>, b: Seq<AnswerInfo>) -> bool {
    a.len() == b.len() && (forall|i: int| 0 <= i < a.len() ==> like_answer_info(#[trigger] a[i], b[i]))
}

pub open spec fn like_word_part_example(a: WordPartExample, b: WordPartExample) -> bool {
    &&& a.reading@ == b.reading@
    &&& a.word@ == b.word@
}

pub open spec fn like_word_part_example_seq(a: Seq<WordPartExample>, b: Seq<WordPartExample>) -> bool {
    a.len() == b.len() && (forall|i: int| 0 <= i < a.len() ==> like_word_part_example(#[trigger] a[i], b[i]))
}

pub open spec fn like_word_part_info(a: WordPartInfo, b: WordPartInfo) -> bool {
    &&& like_word_part_example_seq(a.examples@, b.examples@)
    &&& a.word_part@ == b.word_part@
    &&& a.word_part_reading@ == b.word_part_reading@
}

pub open spec fn like_word_part_info_seq(a: Seq<WordPartInfo>, b: Seq<WordPartInfo>) -> bool {
    a.len() == b.len() && (forall|i: int| 0 <= i < a.len() ==> like_word_part_info(#[trigger] a[i], b[i]))
}

pub open spec fn like_reading_with_parts(a: ReadingWithParts, b: ReadingWithParts) -> bool {
    &&& like_word_part_info_seq(a.parts@, b.parts@)
    &&& a.reading@ == b.reading@
}

pub open spec fn like_reading_with_parts_seq(a: Seq<ReadingWithParts>, b: Seq<ReadingWithParts>) -> bool {
    a.len() == b.len() && (forall|i: int| 0 <= i < a.len() ==> like_reading_with_parts(#[trigger] a[i], b[i]))
}

pub open spec fn like_word_info(a: WordInfo, b: WordInfo) -> bool {
    &&& like_text_seq(a.meanings@, b.meanings@)
    &&& like_reading_with_parts_seq(a.readings@, b.readings@)
    &&& a.word@ == b.word@
}

pub open spec fn like_question_info(a: QuestionInfo, b: QuestionInfo) -> bool {
    &&& a.font_name@ == b.font_name@
    &&& like_word_info(a.word_info, b.word_info)
}

pub open spec fn like_in_req_send_public_key(a: InReqSendPublicKey, b: InReqSendPublicKey) -> bool {
    &&& a.key@ == b.key@
}

pub open spec fn like_in_req_verify_signature(a: InReqVerifySignature, b: InReqVerifySignature) -> bool {
    &&& a.signature@ == b.signature@
}

pub open spec fn like_in_req_register_client(a: InReqRegisterClient, b: InReqRegisterClient) -> bool {
    &&& a.name@ == b.name@
}

pub open spec fn like_in_req_send_chat(a: InReqSendChat, b: InReqSendChat) -> bool {
    &&& a.message@ == b.message@
}

pub open spec fn like_in_req_make_admin(a: InReqMakeAdmin, b: InReqMakeAdmin) -> bool {
    &&& a.admin_password@ == b.admin_password@
    &&& a.client_id == b.client_id
}

pub open spec fn like_in_req_client_list(a: InReqClientList, b: InReqClientList) -> bool {
    &&& true
}

pub open spec fn like_in_req_start_game(a: InReqStartGame, b: InReqStartGame) -> bool {
    &&& like_game_settings(a.game_settings, b.game_settings)
}

pub open spec fn like_in_req_stop_game(a: InReqStopGame, b: InReqStopGame) -> bool {
    &&& true
}

pub open spec fn like_in_req_send_answer(a: InReqSendAnswer, b: InReqSendAnswer) -> bool {
    &&& a.answer@ == b.answer@
}

pub open spec fn like_in_req_send_game_settings(a: InReqSendGameSettings, b: InReqSendGameSettings) -> bool {
    &&& like_game_settings(a.game_settings, b.game_settings)
}

pub open spec fn like_out_resp_client_registered(a: OutRespClientRegistered, b: OutRespClientRegistered) -> bool {
    &&& like_game_settings(a.game_settings, b.game_settings)
    &&& a.id == b.id
}

pub open spec fn like_out_resp_status(a: OutRespStatus, b: OutRespStatus) -> bool {
    &&& a.status@ == b.status@
}

pub open spec fn like_out_resp_client_list(a: OutRespClientList, b: OutRespClientList) -> bool {
    &&& like_client_info_seq(a.clients@, b.clients@)
}

pub open spec fn like_out_resp_sign_message(a: OutRespSignMessage, b: OutRespSignMessage) -> bool {
    &&& a.message@ == b.message@
}

pub open spec fn like_out_req_question(a: OutReqQuestion, b: OutReqQuestion) -> bool {
    &&& true
}

pub open spec fn like_in_resp_question(a: InRespQuestion, b: InRespQuestion) -> bool {
    &&& like_question_info(a.question, b.question)
    &&& a.question_svg@ == b.question_svg@
}

pub open spec fn like_out_notif_client_registered(a: OutNotifClientRegistered, b: OutNotifClientRegistered) -> bool {
    &&& like_client_info(a.client, b.client)
}

pub open spec fn like_out_notif_client_disconnected(a: OutNotifClientDisconnected, b: OutNotifClientDisconnected) -> bool {
    &&& a.id == b.id
}

pub open spec fn like_out_notif_chat_sent(a: OutNotifChatSent, b: OutNotifChatSent) -> bool {
    &&& a.id == b.id
    &&& a.message@ == b.message@
}

pub open spec fn like_out_notif_admin_made(a: OutNotifAdminMade, b: OutNotifAdminMade) -> bool {
    &&& a.id == b.id
}

pub open spec fn like_out_notif_game_started(a: OutNotifGameStarted, b: OutNotifGameStarted) -> bool {
    &&& like_game_settings(a.game_settings, b.game_settings)
}

pub open spec fn like_out_notif_game_stopped(a: OutNotifGameStopped, b: OutNotifGameStopped) -> bool {
    &&& like_answer_info_seq(a.answers@, b.answers@)
    &&& like_question_info(a.question, b.question)
}

pub open spec fn like_out_notif_question(a: OutNotifQuestion, b: OutNotifQuestion) -> bool {
    &&& a.question_svg@ == b.question_svg@
}

pub open spec fn like_out_notif_client_answered(a: OutNotifClientAnswered, b: OutNotifClientAnswered) -> bool {
    &&& a.id == b.id
}

pub open spec fn like_out_notif_round_ended(a: OutNotifRoundEnded, b: OutNotifRoundEnded) -> bool {
    &&& like_answer_info_seq(a.answers@, b.answers@)
    &&& like_question_info(a.question, b.question)
}

pub open spec fn like_out_notif_game_settings_changed(a: OutNotifGameSettingsChanged, b: OutNotifGameSettingsChanged) -> bool {
    &&& like_game_settings(a.game_settings, b.game_settings)
}

proof fn lemma_rep_game_settings_functional(a: GameSettings, b: GameSettings, v: JsonVal)
    requires
        rep_game_settings(a, v),
        rep_game_settings(b, v),
    ensures
        like_game_settings(a, b),
{

}

proof fn lemma_rep_client_info_functional(a: ClientInfo, b: ClientInfo, v: JsonVal)
    requires
        rep_client_info(a, v),
        rep_client_info(b, v),
    ensures
        like_client_info(a, b),
{

}

proof fn lemma_rep_answer_info_functional(a: AnswerInfo, b: AnswerInfo, v: JsonVal)
    requires
        rep_answer_info(a, v),
        rep_answer_info(b, v),
    ensures
        like_answer_info(a, b),
{

}

proof fn lemma_rep_word_part_example_functional(a: WordPartExample, b: WordPartExample, v: JsonVal)
    requires
        rep_word_part_example(a, v),
        rep_word_part_example(b, v),
    ensures
        like_word_part_example(a, b),
{

}

proof fn lemma_rep_word_part_info_functional(a: WordPartInfo, b: WordPartInfo, v: JsonVal)
    requires
        rep_word_part_info(a, v),
        rep_word_part_info(b, v),
    ensures
        like_word_part_info(a, b),
{
    match v {
        JsonVal::Obj(fields) => {
            assert forall|i: int| 0 <= i < a.examples@.len() implies like_word_part_example(
                #[trigger] a.examples@[i],
                b.examples@[i],
            ) by {
                match fields@[0].1 {
                    JsonVal::Arr(items) => {
                        lemma_rep_word_part_example_functional(a.examples@[i], b.examples@[i], items@[i]);
                    },
                    _ => {},
                }
            }
        },
        _ => {},
    }
}

proof fn lemma_rep_reading_with_parts_functional(a: ReadingWithParts, b: ReadingWithParts, v: JsonVal)
    requires
        rep_reading_with_parts(a, v),
        rep_reading_with_parts(b, v),
    ensures
        like_reading_with_parts(a, b),
{
    match v {
        JsonVal::Obj(fields) => {
            assert forall|i: int| 0 <= i < a.parts@.len() implies like_word_part_info(
                #[trigger] a.parts@[i],
                b.parts@[i],
            ) by {
                match fields@[0].1 {
                    JsonVal::Arr(items) => {
                        lemma_rep_word_part_info_functional(a.parts@[i], b.parts@[i], items@[i]);
                    },
                    _ => {},
                }
            }
        },
        _ => {},
    }
}

proof fn lemma_rep_word_info_functional(a: WordInfo, b: WordInfo, v: JsonVal)
    requires
        rep_word_info(a, v),
        rep_word_info(b, v),
    ensures
        like_word_info(a, b),
{
    match v {
        JsonVal::Obj(fields) => {
            assert forall|i: int| 0 <= i < a.meanings@.len() implies (#[trigger] a.meanings@[i])@
                == b.meanings@[i]@ by {
                match fields@[0].1 {
                    JsonVal::Arr(items) => {
                        assert(rep_text(a.meanings@[i], items@[i]));
                        assert(rep_text(b.meanings@[i], items@[i]));
                    },
                    _ => {},
                }
            }
        },
        _ => {},
    }
    match v {
        JsonVal::Obj(fields) => {
            assert forall|i: int| 0 <= i < a.readings@.len() implies like_reading_with_parts(
                #[trigger] a.readings@[i],
                b.readings@[i],
            ) by {
                match fields@[1].1 {
                    JsonVal::Arr(items) => {
                        lemma_rep_reading_with_parts_functional(a.readings@[i], b.readings@[i], items@[i]);
                    },
                    _ => {},
                }
            }
        },
        _ => {},
    }
}

proof fn lemma_rep_question_info_functional(a: QuestionInfo, b: QuestionInfo, v: JsonVal)
    requires
        rep_question_info(a, v),
        rep_question_info(b, v),
    ensures
        like_question_info(a, b),
{
    match v {
        JsonVal::Obj(fields) => {
            lemma_rep_word_info_functional(a.word_info, b.word_info, fields@[1].1);
        },
        _ => {},
    }
}

proof fn lemma_rep_in_req_send_public_key_functional(a: InReqSendPublicKey, b: InReqSendPublicKey, v: JsonVal)
    requires
        rep_in_req_send_public_key(a, v),
        rep_in_req_send_public_key(b, v),
    ensures
        like_in_req_send_public_key(a, b),
{

}

proof fn lemma_rep_in_req_verify_signature_functional(a: InReqVerifySignature, b: InReqVerifySignature, v: JsonVal)
    requires
        rep_in_req_verify_signature(a, v),
        rep_in_req_verify_signature(b, v),
    ensures
        like_in_req_verify_signature(a, b),
{

}

proof fn lemma_rep_in_req_register_client_functional(a: InReqRegisterClient, b: InReqRegisterClient, v: JsonVal)
    requires
        rep_in_req_register_client(a, v),
        rep_in_req_register_client(b, v),
    ensures
        like_in_req_register_client(a, b),
{

}

proof fn lemma_rep_in_req_send_chat_functional(a: InReqSendChat, b: InReqSendChat, v: JsonVal)
    requires
        rep_in_req_send_chat(a, v),
        rep_in_req_send_chat(b, v),
    ensures
        like_in_req_send_chat(a, b),
{

}

proof fn lemma_rep_in_req_make_admin_functional(a: InReqMakeAdmin, b: InReqMakeAdmin, v: JsonVal)
    requires
        rep_in_req_make_admin(a, v),
        rep_in_req_make_admin(b, v),
    ensures
        like_in_req_make_admin(a, b),
{

}

proof fn lemma_rep_in_req_client_list_functional(a: InReqClientList, b: InReqClientList, v: JsonVal)
    requires
        rep_in_req_client_list(a, v),
        rep_in_req_client_list(b, v),
    ensures
        like_in_req_client_list(a, b),
{

}

proof fn lemma_rep_in_req_start_game_functional(a: InReqStartGame, b: InReqStartGame, v: JsonVal)
    requires
        rep_in_req_start_game(a, v),
        rep_in_req_start_game(b, v),
    ensures
        like_in_req_start_game(a, b),
{
    match v {
        JsonVal::Obj(fields) => {
            lemma_rep_game_settings_functional(a.game_settings, b.game_settings, fields@[0].1);
        },
        _ => {},
    }
}

proof fn lemma_rep_in_req_stop_game_functional(a: InReqStopGame, b: InReqStopGame, v: JsonVal)
    requires
        rep_in_req_stop_game(a, v),
        rep_in_req_stop_game(b, v),
    ensures
        like_in_req_stop_game(a, b),
{

}

proof fn lemma_rep_in_req_send_answer_functional(a: InReqSendAnswer, b: InReqSendAnswer, v: JsonVal)
    requires
        rep_in_req_send_answer(a, v),
        rep_in_req_send_answer(b, v),
    ensures
        like_in_req_send_answer(a, b),
{

}

proof fn lemma_rep_in_req_send_game_settings_functional(a: InReqSendGameSettings, b: InReqSendGameSettings, v: JsonVal)
    requires
        rep_in_req_send_game_settings(a, v),
        rep_in_req_send_game_settings(b, v),
    ensures
        like_in_req_send_game_settings(a, b),
{
    match v {
        JsonVal::Obj(fields) => {
            lemma_rep_game_settings_functional(a.game_settings, b.game_settings, fields@[0].1);
        },
        _ => {},
    }
}

proof fn lemma_rep_out_resp_client_registered_functional(a: OutRespClientRegistered, b: OutRespClientRegistered, v: JsonVal)
    requires
        rep_out_resp_client_registered(a, v),
        rep_out_resp_client_registered(b, v),
    ensures
        like_out_resp_client_registered(a, b),
{
    match v {
        JsonVal::Obj(fields) => {
            lemma_rep_game_settings_functional(a.game_settings, b.game_settings, fields@[0].1);
        },
        _ => {},
    }
}

proof fn lemma_rep_out_resp_status_functional(a: OutRespStatus, b: OutRespStatus, v: JsonVal)
    requires
        rep_out_resp_status(a, v),
        rep_out_resp_status(b, v),
    ensures
        like_out_resp_status(a, b),
{

}

proof fn lemma_rep_out_resp_client_list_functional(a: OutRespClientList, b: OutRespClientList, v: JsonVal)
    requires
        rep_out_resp_client_list(a, v),
        rep_out_resp_client_list(b, v),
    ensures
        like_out_resp_client_list(a, b),
{
    match v {
        JsonVal::Obj(fields) => {
            assert forall|i: int| 0 <= i < a.clients@.len() implies like_client_info(
                #[trigger] a.clients@[i],
                b.clients@[i],
            ) by {
                match fields@[0].1 {
                    JsonVal::Arr(items) => {
                        lemma_rep_client_info_functional(a.clients@[i], b.clients@[i], items@[i]);
                    },
                    _ => {},
                }
            }
        },
        _ => {},
    }
}

proof fn lemma_rep_out_resp_sign_message_functional(a: OutRespSignMessage, b: OutRespSignMessage, v: JsonVal)
    requires
        rep_out_resp_sign_message(a, v),
        rep_out_resp_sign_message(b, v),
    ensures
        like_out_resp_sign_message(a, b),
{

}

proof fn lemma_rep_out_req_question_functional(a: OutReqQuestion, b: OutReqQuestion, v: JsonVal)
    requires
        rep_out_req_question(a, v),
        rep_out_req_question(b, v),
    ensures
        like_out_req_question(a, b),
{

}

proof fn lemma_rep_in_resp_question_functional(a: InRespQuestion, b: InRespQuestion, v: JsonVal)
    requires
        rep_in_resp_question(a, v),
        rep_in_resp_question(b, v),
    ensures
        like_in_resp_question(a, b),
{
    match v {
        JsonVal::Obj(fields) => {
            lemma_rep_question_info_functional(a.question, b.question, fields@[0].1);
        },
        _ => {},
    }
}

proof fn lemma_rep_out_notif_client_registered_functional(a: OutNotifClientRegistered, b: OutNotifClientRegistered, v: JsonVal)
    requires
        rep_out_notif_client_registered(a, v),
        rep_out_notif_client_registered(b, v),
    ensures
        like_out_notif_client_registered(a, b),
{
    match v {
        JsonVal::Obj(fields) => {
            lemma_rep_client_info_functional(a.client, b.client, fields@[0].1);
        },
        _ => {},
    }
}

proof fn lemma_rep_out_notif_client_disconnected_functional(a: OutNotifClientDisconnected, b: OutNotifClientDisconnected, v: JsonVal)
    requires
        rep_out_notif_client_disconnected(a, v),
        rep_out_notif_client_disconnected(b, v),
    ensures
        like_out_notif_client_disconnected(a, b),
{

}

proof fn lemma_rep_out_notif_chat_sent_functional(a: OutNotifChatSent, b: OutNotifChatSent, v: JsonVal)
    requires
        rep_out_notif_chat_sent(a, v),
        rep_out_notif_chat_sent(b, v),
    ensures
        like_out_notif_chat_sent(a, b),
{

}

proof fn lemma_rep_out_notif_admin_made_functional(a: OutNotifAdminMade, b: OutNotifAdminMade, v: JsonVal)
    requires
        rep_out_notif_admin_made(a, v),
        rep_out_notif_admin_made(b, v),
    ensures
        like_out_notif_admin_made(a, b),
{

}

proof fn lemma_rep_out_notif_game_started_functional(a: OutNotifGameStarted, b: OutNotifGameStarted, v: JsonVal)
    requires
        rep_out_notif_game_started(a, v),
        rep_out_notif_game_started(b, v),
    ensures
        like_out_notif_game_started(a, b),
{
    match v {
        JsonVal::Obj(fields) => {
            lemma_rep_game_settings_functional(a.game_settings, b.game_settings, fields@[0].1);
        },
        _ => {},
    }
}

proof fn lemma_rep_out_notif_game_stopped_functional(a: OutNotifGameStopped, b: OutNotifGameStopped, v: JsonVal)
    requires
        rep_out_notif_game_stopped(a, v),
        rep_out_notif_game_stopped(b, v),
    ensures
        like_out_notif_game_stopped(a, b),
{
    match v {
        JsonVal::Obj(fields) => {
            assert forall|i: int| 0 <= i < a.answers@.len() implies like_answer_info(
                #[trigger] a.answers@[i],
                b.answers@[i],
            ) by {
                match fields@[0].1 {
                    JsonVal::Arr(items) => {
                        lemma_rep_answer_info_functional(a.answers@[i], b.answers@[i], items@[i]);
                    },
                    _ => {},
                }
            }
        },
        _ => {},
    }
    match v {
        JsonVal::Obj(fields) => {
            lemma_rep_question_info_functional(a.question, b.question, fields@[1].1);
        },
        _ => {},
    }
}

proof fn lemma_rep_out_notif_question_functional(a: OutNotifQuestion, b: OutNotifQuestion, v: JsonVal)
    requires
        rep_out_notif_question(a, v),
        rep_out_notif_question(b, v),
    ensures
        like_out_notif_question(a, b),
{

}

proof fn lemma_rep_out_notif_client_answered_functional(a: OutNotifClientAnswered, b: OutNotifClientAnswered, v: JsonVal)
    requires
        rep_out_notif_client_answered(a, v),
        rep_out_notif_client_answered(b, v),
    ensures
        like_out_notif_client_answered(a, b),
{

}

proof fn lemma_rep_out_notif_round_ended_functional(a: OutNotifRoundEnded, b: OutNotifRoundEnded, v: JsonVal)
    requires
        rep_out_notif_round_ended(a, v),
        rep_out_notif_round_ended(b, v),
    ensures
        like_out_notif_round_ended(a, b),
{
    match v {
        JsonVal::Obj(fields) => {
            assert forall|i: int| 0 <= i < a.answers@.len() implies like_answer_info(
                #[trigger] a.answers@[i],
                b.answers@[i],
            ) by {
                match fields@[0].1 {
                    JsonVal::Arr(items) => {
                        lemma_rep_answer_info_functional(a.answers@[i], b.answers@[i], items@[i]);
                    },
                    _ => {},
                }
            }
        },
        _ => {},
    }
    match v {
        JsonVal::Obj(fields) => {
            lemma_rep_question_info_functional(a.question, b.question, fields@[1].1);
        },
        _ => {},
    }
}

proof fn lemma_rep_out_notif_game_settings_changed_functional(a: OutNotifGameSettingsChanged, b: OutNotifGameSettingsChanged, v: JsonVal)
    requires
        rep_out_notif_game_settings_changed(a, v),
        rep_out_notif_game_settings_changed(b, v),
    ensures
        like_out_notif_game_settings_changed(a, b),
{
    match v {
        JsonVal::Obj(fields) => {
            lemma_rep_game_settings_functional(a.game_settings, b.game_settings, fields@[0].1);
        },
        _ => {},
    }
}

/// Two messages are alike when they are of the same kind, carry the same
/// correlation identifier, and every field reads the same on the wire.
pub open spec fn like_msg(m1: TransportMsg, m2: TransportMsg) -> bool {
    match (m1, m2) {
        (TransportMsg::InReqSendPublicKey(e1), TransportMsg::InReqSendPublicKey(e2)) => e1.correlation_id
            == e2.correlation_id && like_in_req_send_public_key(e1.payload, e2.payload),
        (TransportMsg::InReqVerifySignature(e1), TransportMsg::InReqVerifySignature(e2)) => e1.correlation_id
            == e2.correlation_id && like_in_req_verify_signature(e1.payload, e2.payload),
        (TransportMsg::InReqRegisterClient(e1), TransportMsg::InReqRegisterClient(e2)) => e1.correlation_id
            == e2.correlation_id && like_in_req_register_client(e1.payload, e2.payload),
        (TransportMsg::InReqSendChat(e1), TransportMsg::InReqSendChat(e2)) => e1.correlation_id
            == e2.correlation_id && like_in_req_send_chat(e1.payload, e2.payload),
        (TransportMsg::InReqMakeAdmin(e1), TransportMsg::InReqMakeAdmin(e2)) => e1.correlation_id
            == e2.correlation_id && like_in_req_make_admin(e1.payload, e2.payload),
        (TransportMsg::InReqClientList(e1), TransportMsg::InReqClientList(e2)) => e1.correlation_id
            == e2.correlation_id && like_in_req_client_list(e1.payload, e2.payload),
        (TransportMsg::InReqStartGame(e1), TransportMsg::InReqStartGame(e2)) => e1.correlation_id
            == e2.correlation_id && like_in_req_start_game(e1.payload, e2.payload),
        (TransportMsg::InReqStopGame(e1), TransportMsg::InReqStopGame(e2)) => e1.correlation_id
            == e2.correlation_id && like_in_req_stop_game(e1.payload, e2.payload),
        (TransportMsg::InReqSendAnswer(e1), TransportMsg::InReqSendAnswer(e2)) => e1.correlation_id
            == e2.correlation_id && like_in_req_send_answer(e1.payload, e2.payload),
        (TransportMsg::InReqSendGameSettings(e1), TransportMsg::InReqSendGameSettings(e2)) => e1.correlation_id
            == e2.correlation_id && like_in_req_send_game_settings(e1.payload, e2.payload),
        (TransportMsg::OutRespClientRegistered(e1), TransportMsg::OutRespClientRegistered(e2)) => e1.correlation_id
            == e2.correlation_id && like_out_resp_client_registered(e1.payload, e2.payload),
        (TransportMsg::OutRespStatus(e1), TransportMsg::OutRespStatus(e2)) => e1.correlation_id
            == e2.correlation_id && like_out_resp_status(e1.payload, e2.payload),
        (TransportMsg::OutRespClientList(e1), TransportMsg::OutRespClientList(e2)) => e1.correlation_id
            == e2.correlation_id && like_out_resp_client_list(e1.payload, e2.payload),
        (TransportMsg::OutRespSignMessage(e1), TransportMsg::OutRespSignMessage(e2)) => e1.correlation_id
            == e2.correlation_id && like_out_resp_sign_message(e1.payload, e2.payload),
        (TransportMsg::OutReqQuestion(e1), TransportMsg::OutReqQuestion(e2)) => e1.correlation_id
            == e2.correlation_id && like_out_req_question(e1.payload, e2.payload),
        (TransportMsg::InRespQuestion(e1), TransportMsg::InRespQuestion(e2)) => e1.correlation_id
            == e2.correlation_id && like_in_resp_question(e1.payload, e2.payload),
        (TransportMsg::OutNotifClientRegistered(e1), TransportMsg::OutNotifClientRegistered(e2)) => e1.correlation_id
            == e2.correlation_id && like_out_notif_client_registered(e1.payload, e2.payload),
        (TransportMsg::OutNotifClientDisconnected(e1), TransportMsg::OutNotifClientDisconnected(e2)) => e1.correlation_id
            == e2.correlation_id && like_out_notif_client_disconnected(e1.payload, e2.payload),
        (TransportMsg::OutNotifChatSent(e1), TransportMsg::OutNotifChatSent(e2)) => e1.correlation_id
            == e2.correlation_id && like_out_notif_chat_sent(e1.payload, e2.payload),
        (TransportMsg::OutNotifAdminMade(e1), TransportMsg::OutNotifAdminMade(e2)) => e1.correlation_id
            == e2.correlation_id && like_out_notif_admin_made(e1.payload, e2.payload),
        (TransportMsg::OutNotifGameStarted(e1), TransportMsg::OutNotifGameStarted(e2)) => e1.correlation_id
            == e2.correlation_id && like_out_notif_game_started(e1.payload, e2.payload),
        (TransportMsg::OutNotifGameStopped(e1), TransportMsg::OutNotifGameStopped(e2)) => e1.correlation_id
            == e2.correlation_id && like_out_notif_game_stopped(e1.payload, e2.payload),
        (TransportMsg::OutNotifQuestion(e1), TransportMsg::OutNotifQuestion(e2)) => e1.correlation_id
            == e2.correlation_id && like_out_notif_question(e1.payload, e2.payload),
        (TransportMsg::OutNotifClientAnswered(e1), TransportMsg::OutNotifClientAnswered(e2)) => e1.correlation_id
            == e2.correlation_id && like_out_notif_client_answered(e1.payload, e2.payload),
        (TransportMsg::OutNotifRoundEnded(e1), TransportMsg::OutNotifRoundEnded(e2)) => e1.correlation_id
            == e2.correlation_id && like_out_notif_round_ended(e1.payload, e2.payload),
        (TransportMsg::OutNotifGameSettingsChanged(e1), TransportMsg::OutNotifGameSettingsChanged(e2)) => e1.correlation_id
            == e2.correlation_id && like_out_notif_game_settings_changed(e1.payload, e2.payload),
        _ => false,
    }
}

/// A wire form shows one message, up to how its fields read: any two
/// messages it represents are alike.
pub proof fn lemma_represents_functional(m1: TransportMsg, m2: TransportMsg, v: JsonVal)
    requires
        represents(m1, v),
        represents(m2, v),
    ensures
        like_msg(m1, m2),
{
    lemma_tags_pairwise_distinct();
    match (m1, m2) {
        (TransportMsg::InReqSendPublicKey(e1), TransportMsg::InReqSendPublicKey(e2)) => {
            match v {
                JsonVal::Obj(fields) => {
                    lemma_rep_in_req_send_public_key_functional(e1.payload, e2.payload, fields@[2].1);
                },
                _ => {},
            }
        },
        (TransportMsg::InReqVerifySignature(e1), TransportMsg::InReqVerifySignature(e2)) => {
            match v {
                JsonVal::Obj(fields) => {
                    lemma_rep_in_req_verify_signature_functional(e1.payload, e2.payload, fields@[2].1);
                },
                _ => {},
            }
        },
        (TransportMsg::InReqRegisterClient(e1), TransportMsg::InReqRegisterClient(e2)) => {
            match v {
                JsonVal::Obj(fields) => {
                    lemma_rep_in_req_register_client_functional(e1.payload, e2.payload, fields@[2].1);
                },
                _ => {},
            }
        },
        (TransportMsg::InReqSendChat(e1), TransportMsg::InReqSendChat(e2)) => {
            match v {
                JsonVal::Obj(fields) => {
                    lemma_rep_in_req_send_chat_functional(e1.payload, e2.payload, fields@[2].1);
                },
                _ => {},
            }
        },
        (TransportMsg::InReqMakeAdmin(e1), TransportMsg::InReqMakeAdmin(e2)) => {
            match v {
                JsonVal::Obj(fields) => {
                    lemma_rep_in_req_make_admin_functional(e1.payload, e2.payload, fields@[2].1);
                },
                _ => {},
            }
        },
        (TransportMsg::InReqClientList(e1), TransportMsg::InReqClientList(e2)) => {
            match v {
                JsonVal::Obj(fields) => {
                    lemma_rep_in_req_client_list_functional(e1.payload, e2.payload, fields@[2].1);
                },
                _ => {},
            }
        },
        (TransportMsg::InReqStartGame(e1), TransportMsg::InReqStartGame(e2)) => {
            match v {
                JsonVal::Obj(fields) => {
                    lemma_rep_in_req_start_game_functional(e1.payload, e2.payload, fields@[2].1);
                },
                _ => {},
            }
        },
        (TransportMsg::InReqStopGame(e1), TransportMsg::InReqStopGame(e2)) => {
            match v {
                JsonVal::Obj(fields) => {
                    lemma_rep_in_req_stop_game_functional(e1.payload, e2.payload, fields@[2].1);
                },
                _ => {},
            }
        },
        (TransportMsg::InReqSendAnswer(e1), TransportMsg::InReqSendAnswer(e2)) => {
            match v {
                JsonVal::Obj(fields) => {
                    lemma_rep_in_req_send_answer_functional(e1.payload, e2.payload, fields@[2].1);
                },
                _ => {},
            }
        },
        (TransportMsg::InReqSendGameSettings(e1), TransportMsg::InReqSendGameSettings(e2)) => {
            match v {
                JsonVal::Obj(fields) => {
                    lemma_rep_in_req_send_game_settings_functional(e1.payload, e2.payload, fields@[2].1);
                },
                _ => {},
            }
        },
        (TransportMsg::OutRespClientRegistered(e1), TransportMsg::OutRespClientRegistered(e2)) => {
            match v {
                JsonVal::Obj(fields) => {
                    lemma_rep_out_resp_client_registered_functional(e1.payload, e2.payload, fields@[2].1);
                },
                _ => {},
            }
        },
        (TransportMsg::OutRespStatus(e1), TransportMsg::OutRespStatus(e2)) => {
            match v {
                JsonVal::Obj(fields) => {
                    lemma_rep_out_resp_status_functional(e1.payload, e2.payload, fields@[2].1);
                },
                _ => {},
            }
        },
        (TransportMsg::OutRespClientList(e1), TransportMsg::OutRespClientList(e2)) => {
            match v {
                JsonVal::Obj(fields) => {
                    lemma_rep_out_resp_client_list_functional(e1.payload, e2.payload, fields@[2].1);
                },
                _ => {},
            }
        },
        (TransportMsg::OutRespSignMessage(e1), TransportMsg::OutRespSignMessage(e2)) => {
            match v {
                JsonVal::Obj(fields) => {
                    lemma_rep_out_resp_sign_message_functional(e1.payload, e2.payload, fields@[2].1);
                },
                _ => {},
            }
        },
        (TransportMsg::OutReqQuestion(e1), TransportMsg::OutReqQuestion(e2)) => {
            match v {
                JsonVal::Obj(fields) => {
                    lemma_rep_out_req_question_functional(e1.payload, e2.payload, fields@[2].1);
                },
                _ => {},
            }
        },
        (TransportMsg::InRespQuestion(e1), TransportMsg::InRespQuestion(e2)) => {
            match v {
                JsonVal::Obj(fields) => {
                    lemma_rep_in_resp_question_functional(e1.payload, e2.payload, fields@[2].1);
                },
                _ => {},
            }
        },
        (TransportMsg::OutNotifClientRegistered(e1), TransportMsg::OutNotifClientRegistered(e2)) => {
            match v {
                JsonVal::Obj(fields) => {
                    lemma_rep_out_notif_client_registered_functional(e1.payload, e2.payload, fields@[2].1);
                },
                _ => {},
            }
        },
        (TransportMsg::OutNotifClientDisconnected(e1), TransportMsg::OutNotifClientDisconnected(e2)) => {
            match v {
                JsonVal::Obj(fields) => {
                    lemma_rep_out_notif_client_disconnected_functional(e1.payload, e2.payload, fields@[2].1);
                },
                _ => {},
            }
        },
        (TransportMsg::OutNotifChatSent(e1), TransportMsg::OutNotifChatSent(e2)) => {
            match v {
                JsonVal::Obj(fields) => {
                    lemma_rep_out_notif_chat_sent_functional(e1.payload, e2.payload, fields@[2].1);
                },
                _ => {},
            }
        },
        (TransportMsg::OutNotifAdminMade(e1), TransportMsg::OutNotifAdminMade(e2)) => {
            match v {
                JsonVal::Obj(fields) => {
                    lemma_rep_out_notif_admin_made_functional(e1.payload, e2.payload, fields@[2].1);
                },
                _ => {},
            }
        },
        (TransportMsg::OutNotifGameStarted(e1), TransportMsg::OutNotifGameStarted(e2)) => {
            match v {
                JsonVal::Obj(fields) => {
                    lemma_rep_out_notif_game_started_functional(e1.payload, e2.payload, fields@[2].1);
                },
                _ => {},
            }
        },
        (TransportMsg::OutNotifGameStopped(e1), TransportMsg::OutNotifGameStopped(e2)) => {
            match v {
                JsonVal::Obj(fields) => {
                    lemma_rep_out_notif_game_stopped_functional(e1.payload, e2.payload, fields@[2].1);
                },
                _ => {},
            }
        },
        (TransportMsg::OutNotifQuestion(e1), TransportMsg::OutNotifQuestion(e2)) => {
            match v {
                JsonVal::Obj(fields) => {
                    lemma_rep_out_notif_question_functional(e1.payload, e2.payload, fields@[2].1);
                },
                _ => {},
            }
        },
        (TransportMsg::OutNotifClientAnswered(e1), TransportMsg::OutNotifClientAnswered(e2)) => {
            match v {
                JsonVal::Obj(fields) => {
                    lemma_rep_out_notif_client_answered_functional(e1.payload, e2.payload, fields@[2].1);
                },
                _ => {},
            }
        },
        (TransportMsg::OutNotifRoundEnded(e1), TransportMsg::OutNotifRoundEnded(e2)) => {
            match v {
                JsonVal::Obj(fields) => {
                    lemma_rep_out_notif_round_ended_functional(e1.payload, e2.payload, fields@[2].1);
                },
                _ => {},
            }
        },
        (TransportMsg::OutNotifGameSettingsChanged(e1), TransportMsg::OutNotifGameSettingsChanged(e2)) => {
            match v {
                JsonVal::Obj(fields) => {
                    lemma_rep_out_notif_game_settings_changed_functional(e1.payload, e2.payload, fields@[2].1);
                },
                _ => {},
            }
        },
        _ => {},
    }
}

/// Encoding then decoding any envelope yields the original, for all tags: the
/// parse of a value that shows `m` (as `serialize` produces) succeeds, and
/// the message that comes back is alike `m` in every field.
pub proof fn lemma_round_trip(m: TransportMsg, v: JsonVal, r: Option<TransportMsg>)
    requires
        represents(m, v),
        (match r {
            Some(m2) => represents(m2, v),
            None => forall|m3: TransportMsg| !represents(m3, v),
        }),
    ensures
        r is Some,
        like_msg(m, r.unwrap()),
{
    lemma_represents_functional(m, r.unwrap(), v);
}

} // verus!
