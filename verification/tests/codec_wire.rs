use kanjilab_server::codec::{parse, serialize};
use kanjilab_server::data_types::{
    AnswerInfo, ClientInfo, GameSettings, InReqClientList, InReqMakeAdmin, InReqRegisterClient,
    InReqSendAnswer, InReqSendChat, InReqSendGameSettings, InReqSendPublicKey, InReqStartGame,
    InReqStopGame, InReqVerifySignature, InRespQuestion, OutNotifAdminMade, OutNotifChatSent,
    OutNotifClientAnswered, OutNotifClientDisconnected, OutNotifClientRegistered,
    OutNotifGameSettingsChanged, OutNotifGameStarted, OutNotifGameStopped, OutNotifQuestion,
    OutNotifRoundEnded, OutReqQuestion, OutRespClientList, OutRespClientRegistered,
    OutRespSignMessage, OutRespStatus, QuestionInfo, ReadingWithParts, TransportEnvelope,
    TransportMsg, WordInfo, WordPartExample, WordPartInfo,
};
use kanjilab_server::ids::{parse_uuid, uuid_string};
use kanjilab_server::json::JsonVal;

fn settings() -> GameSettings {
    GameSettings {
        min_frequency: 3,
        max_frequency: 2000,
        using_max_frequency: true,
        round_duration: 30,
        rounds_count: 5,
        word_part: Some("部".to_string()),
        word_part_reading: None,
        fonts_count: 2,
        first_font_name: Some("mincho".to_string()),
    }
}

fn question() -> QuestionInfo {
    QuestionInfo {
        word_info: WordInfo {
            word: "言葉".to_string(),
            meanings: vec!["word".to_string(), "speech".to_string()],
            readings: vec![ReadingWithParts {
                reading: "ことば".to_string(),
                parts: vec![WordPartInfo {
                    word_part: "言".to_string(),
                    word_part_reading: "こと".to_string(),
                    examples: vec![WordPartExample {
                        word: "言う".to_string(),
                        reading: "いう".to_string(),
                    }],
                }],
            }],
        },
        font_name: "gothic".to_string(),
    }
}

fn client(id: u128, admin: bool) -> ClientInfo {
    ClientInfo { id, key: "K=".to_string(), name: "名前".to_string(), is_admin: admin }
}

fn answer(id: u128) -> AnswerInfo {
    AnswerInfo { id, answer: "ことば".to_string(), is_correct: true, answer_time: 512 }
}

fn env<T>(corr: u128, payload: T) -> TransportEnvelope<T> {
    TransportEnvelope { correlation_id: corr, payload }
}

fn all_messages() -> Vec<TransportMsg> {
    let c = 0x0123_4567_89ab_cdef_0123_4567_89ab_cdefu128;
    vec![
        TransportMsg::InReqSendPublicKey(env(c, InReqSendPublicKey { key: "K=".to_string() })),
        TransportMsg::InReqVerifySignature(env(c, InReqVerifySignature {
            signature: "S=".to_string(),
        })),
        TransportMsg::InReqRegisterClient(env(c, InReqRegisterClient { name: "A".to_string() })),
        TransportMsg::InReqSendChat(env(c, InReqSendChat { message: "hi".to_string() })),
        TransportMsg::InReqMakeAdmin(env(c, InReqMakeAdmin {
            admin_password: "SECRET-REDACTED".to_string(),
            client_id: 7,
        })),
        TransportMsg::InReqClientList(env(c, InReqClientList {})),
        TransportMsg::InReqStartGame(env(c, InReqStartGame { game_settings: settings() })),
        TransportMsg::InReqStopGame(env(c, InReqStopGame {})),
        TransportMsg::InReqSendAnswer(env(c, InReqSendAnswer { answer: "あ".to_string() })),
        TransportMsg::InReqSendGameSettings(env(c, InReqSendGameSettings {
            game_settings: settings(),
        })),
        TransportMsg::OutRespClientRegistered(env(c, OutRespClientRegistered {
            id: 9,
            game_settings: settings(),
        })),
        TransportMsg::OutRespStatus(env(c, OutRespStatus { status: "success".to_string() })),
        TransportMsg::OutRespClientList(env(c, OutRespClientList {
            clients: vec![client(1, true), client(2, false)],
        })),
        TransportMsg::OutRespSignMessage(env(c, OutRespSignMessage {
            message: "sign me".to_string(),
        })),
        TransportMsg::OutReqQuestion(env(c, OutReqQuestion {})),
        TransportMsg::InRespQuestion(env(c, InRespQuestion {
            question: question(),
            question_svg: "<svg/>".to_string(),
        })),
        TransportMsg::OutNotifClientRegistered(env(c, OutNotifClientRegistered {
            client: client(3, false),
        })),
        TransportMsg::OutNotifClientDisconnected(env(c, OutNotifClientDisconnected { id: 4 })),
        TransportMsg::OutNotifChatSent(env(c, OutNotifChatSent {
            id: 5,
            message: "hello".to_string(),
        })),
        TransportMsg::OutNotifAdminMade(env(c, OutNotifAdminMade { id: 6 })),
        TransportMsg::OutNotifGameStarted(env(c, OutNotifGameStarted { game_settings: settings() })),
        TransportMsg::OutNotifGameStopped(env(c, OutNotifGameStopped {
            question: question(),
            answers: vec![answer(1), answer(2)],
        })),
        TransportMsg::OutNotifQuestion(env(c, OutNotifQuestion {
            question_svg: "<svg/>".to_string(),
        })),
        TransportMsg::OutNotifClientAnswered(env(c, OutNotifClientAnswered { id: 8 })),
        TransportMsg::OutNotifRoundEnded(env(c, OutNotifRoundEnded {
            question: question(),
            answers: vec![answer(1)],
        })),
        TransportMsg::OutNotifGameSettingsChanged(env(c, OutNotifGameSettingsChanged {
            game_settings: settings(),
        })),
    ]
}

#[test]
fn encode_then_decode_yields_the_original_for_all_tags() {
    let msgs = all_messages();
    assert_eq!(msgs.len(), 26);
    for m in msgs {
        let v = serialize(&m);
        assert_eq!(parse(&v), Some(m));
    }
}

#[test]
fn envelope_shape_on_the_wire() {
    let m = TransportMsg::OutRespStatus(env(0xC0FFEE, OutRespStatus {
        status: "success".to_string(),
    }));
    match serialize(&m) {
        JsonVal::Obj(fields) => {
            assert_eq!(fields.len(), 3);
            assert_eq!(fields[0].0, "correlationId");
            assert_eq!(
                fields[0].1,
                JsonVal::Str("00000000-0000-0000-0000-000000c0ffee".to_string())
            );
            assert_eq!(fields[1].0, "messageType");
            assert_eq!(fields[1].1, JsonVal::Str("OUT_RESP_status".to_string()));
            assert_eq!(fields[2].0, "payload");
            match &fields[2].1 {
                JsonVal::Obj(p) => {
                    assert_eq!(p.len(), 1);
                    assert_eq!(p[0].0, "status");
                    assert_eq!(p[0].1, JsonVal::Str("success".to_string()));
                }
                other => panic!("expected a payload object, got {:?}", other),
            }
        }
        other => panic!("expected an envelope object, got {:?}", other),
    }
}

#[test]
fn unknown_tag_and_malformed_envelopes_are_rejected() {
    assert_eq!(parse(&JsonVal::Null), None);
    assert_eq!(parse(&JsonVal::Obj(vec![])), None);
    let bad_tag = JsonVal::Obj(vec![
        (
            "correlationId".to_string(),
            JsonVal::Str("00000000-0000-0000-0000-000000000001".to_string()),
        ),
        ("messageType".to_string(), JsonVal::Str("IN_REQ_bogus".to_string())),
        ("payload".to_string(), JsonVal::Obj(vec![])),
    ]);
    assert_eq!(parse(&bad_tag), None);
    let bad_corr = JsonVal::Obj(vec![
        ("correlationId".to_string(), JsonVal::Str("not-a-uuid".to_string())),
        ("messageType".to_string(), JsonVal::Str("IN_REQ_stopGame".to_string())),
        ("payload".to_string(), JsonVal::Obj(vec![])),
    ]);
    assert_eq!(parse(&bad_corr), None);
}

#[test]
fn identifier_text_round_trip() {
    let u = 0xFEDC_BA98_7654_3210_0F1E_2D3C_4B5A_6978u128;
    let s = uuid_string(u);
    assert_eq!(s, "fedcba98-7654-3210-0f1e-2d3c4b5a6978");
    assert_eq!(s.len(), 36);
    assert_eq!(parse_uuid(&s), Some(u));
    // parsing accepts uppercase digits too
    assert_eq!(parse_uuid(&s.to_uppercase()), Some(u));
    // and rejects anything malformed
    assert_eq!(parse_uuid("fedcba98-7654-3210-0f1e"), None);
    assert_eq!(parse_uuid("fedcba98x7654-3210-0f1e-2d3c4b5a6978"), None);
    assert_eq!(parse_uuid(""), None);
    assert_eq!(parse_uuid(&uuid_string(0)), Some(0));
    assert_eq!(uuid_string(0), "00000000-0000-0000-0000-000000000000");
    assert_eq!(uuid_string(u128::MAX), "ffffffff-ffff-ffff-ffff-ffffffffffff");
}
