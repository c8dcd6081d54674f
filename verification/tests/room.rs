use kanjilab_server::data_types::{GameSettings, QuestionInfo, ReadingWithParts, TransportMsg, WordInfo};
use kanjilab_server::game_actor::GameClientInfo;
use kanjilab_server::pending_tracker::Timeout;
use kanjilab_server::room_actor::{RoomActor, RoomEffect};

fn settings(rounds_count: u64, round_duration: u64) -> GameSettings {
    GameSettings {
        min_frequency: 0,
        max_frequency: 10,
        using_max_frequency: false,
        round_duration,
        rounds_count,
        word_part: None,
        word_part_reading: None,
        fonts_count: 1,
        first_font_name: None,
    }
}

fn question(reading: &str) -> QuestionInfo {
    QuestionInfo {
        word_info: WordInfo {
            word: "語".to_string(),
            meanings: vec!["word".to_string()],
            readings: vec![ReadingWithParts { reading: reading.to_string(), parts: vec![] }],
        },
        font_name: "font".to_string(),
    }
}

fn info(id: u128, name: &str) -> GameClientInfo {
    GameClientInfo { id, key: "K".to_string(), name: name.to_string() }
}

fn as_status(e: &RoomEffect) -> (u64, u128, String) {
    match e {
        RoomEffect::Send { session, msg: TransportMsg::OutRespStatus(env) } => {
            (*session, env.correlation_id, env.payload.status.clone())
        }
        other => panic!("expected a status reply, got {:?}", other),
    }
}

fn as_broadcast(e: &RoomEffect) -> (&Vec<u64>, &TransportMsg) {
    match e {
        RoomEffect::Broadcast { sessions, msg } => (sessions, msg),
        other => panic!("expected a broadcast, got {:?}", other),
    }
}

fn as_schedule(e: &RoomEffect) -> (u128, u64) {
    match e {
        RoomEffect::Schedule { id, timeout_ms } => (*id, *timeout_ms),
        other => panic!("expected a schedule, got {:?}", other),
    }
}

/// Two members: A (admin, id 0xA, session 1) and B (id 0xB, session 2).
fn two_member_room() -> RoomActor {
    let mut room = RoomActor::new("default".to_string());
    room.add_client(0xA, 1, Some(info(0xA, "A")));
    room.add_client(0xB, 2, Some(info(0xB, "B")));
    room
}

#[test]
fn s3_first_client_becomes_admin() {
    let mut room = RoomActor::new("default".to_string());

    let effects = room.add_client(0xA, 1, Some(info(0xA, "A")));
    assert_eq!(effects.len(), 2);
    let (sessions, msg) = as_broadcast(&effects[0]);
    assert_eq!(sessions, &vec![1]);
    match msg {
        TransportMsg::OutNotifClientRegistered(e) => {
            assert_eq!(e.payload.client.id, 0xA);
            assert!(e.payload.client.is_admin);
        }
        other => panic!("expected clientRegistered, got {:?}", other),
    }
    let (_, msg) = as_broadcast(&effects[1]);
    match msg {
        TransportMsg::OutNotifAdminMade(e) => assert_eq!(e.payload.id, 0xA),
        other => panic!("expected adminMade, got {:?}", other),
    }

    let effects = room.add_client(0xB, 2, Some(info(0xB, "B")));
    assert_eq!(effects.len(), 2);
    let (sessions, msg) = as_broadcast(&effects[0]);
    assert_eq!(sessions, &vec![1, 2]);
    match msg {
        TransportMsg::OutNotifClientRegistered(e) => {
            assert_eq!(e.payload.client.id, 0xB);
            assert!(!e.payload.client.is_admin);
        }
        other => panic!("expected clientRegistered, got {:?}", other),
    }
    let (_, msg) = as_broadcast(&effects[1]);
    assert!(matches!(msg, TransportMsg::OutNotifGameSettingsChanged(_)));

    // A leaves: the survivors hear of it, then B is made admin
    let effects = room.on_link_died(1);
    assert_eq!(effects.len(), 2);
    let (sessions, msg) = as_broadcast(&effects[0]);
    assert_eq!(sessions, &vec![2]);
    match msg {
        TransportMsg::OutNotifClientDisconnected(e) => assert_eq!(e.payload.id, 0xA),
        other => panic!("expected clientDisconnected, got {:?}", other),
    }
    let (_, msg) = as_broadcast(&effects[1]);
    match msg {
        TransportMsg::OutNotifAdminMade(e) => assert_eq!(e.payload.id, 0xB),
        other => panic!("expected adminMade, got {:?}", other),
    }
}

#[test]
fn s4_full_round() {
    let mut room = two_member_room();

    let effects = room.start_game(1, 0x51, settings(1, 30), 1_000);
    assert_eq!(effects.len(), 4);
    assert_eq!(as_status(&effects[0]), (1, 0x51, "success".to_string()));
    let (_, msg) = as_broadcast(&effects[1]);
    assert!(matches!(msg, TransportMsg::OutNotifGameStarted(_)));
    let corr = match &effects[2] {
        RoomEffect::Send { session: 1, msg: TransportMsg::OutReqQuestion(e) } => e.correlation_id,
        other => panic!("expected a question request to the admin, got {:?}", other),
    };
    assert_eq!(as_schedule(&effects[3]), (corr, 5_000));

    let effects = room.provide_question(1, corr, question("あ"), "<svg/>".to_string(), 2_000);
    assert_eq!(effects.len(), 2);
    let (_, msg) = as_broadcast(&effects[0]);
    match msg {
        TransportMsg::OutNotifQuestion(e) => assert_eq!(e.payload.question_svg, "<svg/>"),
        other => panic!("expected the question notification, got {:?}", other),
    }
    let (_round_ticket, budget) = as_schedule(&effects[1]);
    assert_eq!(budget, 30_000);

    let effects = room.send_answer(2, 0x52, "あ".to_string(), 2_500);
    assert_eq!(effects.len(), 2);
    assert_eq!(as_status(&effects[0]), (2, 0x52, "success".to_string()));
    let (_, msg) = as_broadcast(&effects[1]);
    match msg {
        TransportMsg::OutNotifClientAnswered(e) => assert_eq!(e.payload.id, 0xB),
        other => panic!("expected clientAnswered, got {:?}", other),
    }

    // the last member answers: the round ends, and with it the one-round game
    let effects = room.send_answer(1, 0x53, "x".to_string(), 3_000);
    assert_eq!(effects.len(), 4);
    assert_eq!(as_status(&effects[0]), (1, 0x53, "success".to_string()));
    let (_, msg) = as_broadcast(&effects[2]);
    match msg {
        TransportMsg::OutNotifRoundEnded(e) => {
            let answers = &e.payload.answers;
            assert_eq!(answers.len(), 2);
            assert_eq!(answers[0].id, 0xB);
            assert_eq!(answers[0].answer, "あ");
            assert!(answers[0].is_correct);
            assert_eq!(answers[0].answer_time, 500);
            assert_eq!(answers[1].id, 0xA);
            assert_eq!(answers[1].answer, "x");
            assert!(!answers[1].is_correct);
            assert_eq!(answers[1].answer_time, 1_000);
            assert_eq!(e.payload.question, question("あ"));
        }
        other => panic!("expected roundEnded, got {:?}", other),
    }
    let (_, msg) = as_broadcast(&effects[3]);
    match msg {
        TransportMsg::OutNotifGameStopped(e) => {
            assert_eq!(e.payload.answers.len(), 0);
            assert_eq!(e.payload.question.font_name, "");
        }
        other => panic!("expected gameStopped, got {:?}", other),
    }
    assert!(!room.is_game_running);
    assert_eq!(room.rounds_played, 1);
}

#[test]
fn s5_round_timeout_fills_missing_answers() {
    let mut room = two_member_room();
    let effects = room.start_game(1, 1, settings(1, 1), 0);
    let corr = as_schedule(&effects[3]).0;
    let effects = room.provide_question(1, corr, question("あ"), "<svg/>".to_string(), 0);
    let (round_id, budget) = as_schedule(&effects[1]);
    assert_eq!(budget, 1_000);

    let effects = room.handle_timeout(Timeout(round_id), 1_000);
    let (_, msg) = as_broadcast(&effects[0]);
    match msg {
        TransportMsg::OutNotifRoundEnded(e) => {
            let answers = &e.payload.answers;
            assert_eq!(answers.len(), 2);
            for (i, id) in [(0, 0xA), (1, 0xB)] {
                assert_eq!(answers[i].id, id);
                assert_eq!(answers[i].answer, "");
                assert!(!answers[i].is_correct);
                assert_eq!(answers[i].answer_time, 1_000);
            }
        }
        other => panic!("expected roundEnded, got {:?}", other),
    }
}

#[test]
fn s6_stop_game_mid_round() {
    let mut room = two_member_room();
    let effects = room.start_game(1, 1, settings(5, 30), 0);
    let corr = as_schedule(&effects[3]).0;
    room.provide_question(1, corr, question("あ"), "<svg/>".to_string(), 0);

    let effects = room.stop_game(1, 0x61);
    assert_eq!(effects.len(), 2);
    assert_eq!(as_status(&effects[0]), (1, 0x61, "success".to_string()));
    let (_, msg) = as_broadcast(&effects[1]);
    match msg {
        TransportMsg::OutNotifGameStopped(e) => {
            assert_eq!(e.payload.question, question("あ"));
            assert_eq!(e.payload.answers.len(), 2);
            assert_eq!(e.payload.answers[0].answer_time, 30_000);
        }
        other => panic!("expected gameStopped, got {:?}", other),
    }
    assert!(!room.is_game_running);
    assert_eq!(room.rounds_played, 0);
    assert!(room.current_question.is_none());
    assert!(room.current_answers.is_empty());
}

#[test]
fn p9_cancelled_ticket_timeout_is_a_no_op() {
    let mut room = two_member_room();
    let effects = room.start_game(1, 1, settings(3, 30), 0);
    let corr = as_schedule(&effects[3]).0;
    let effects = room.provide_question(1, corr, question("あ"), "<svg/>".to_string(), 0);
    let round_id = as_schedule(&effects[1]).0;

    // stopping the game cancels the round ticket
    room.stop_game(1, 1);
    let rounds_before = room.rounds_played;

    // the timer still fires later; it finds nothing and nothing changes
    let effects = room.handle_timeout(Timeout(round_id), 99_999);
    assert!(effects.is_empty());
    assert_eq!(room.rounds_played, rounds_before);
    assert!(!room.is_game_running);
    assert!(room.current_answers.is_empty());
}

#[test]
fn room_request_status_errors() {
    let mut room = two_member_room();

    // only the admin may start
    let effects = room.start_game(2, 1, settings(1, 30), 0);
    assert_eq!(as_status(&effects[0]), (2, 1, "not admin".to_string()));

    // only the admin may change settings
    let effects = room.set_game_settings(2, 2, settings(1, 30));
    assert_eq!(as_status(&effects[0]), (2, 2, "not admin".to_string()));

    // stop without a running game
    let effects = room.stop_game(1, 3);
    assert_eq!(as_status(&effects[0]), (1, 3, "not running".to_string()));

    // answering outside a round
    let effects = room.send_answer(2, 4, "あ".to_string(), 0);
    assert_eq!(as_status(&effects[0]), (2, 4, "no active round".to_string()));

    // starting twice
    room.start_game(1, 5, settings(2, 30), 0);
    let effects = room.start_game(1, 6, settings(2, 30), 0);
    assert_eq!(as_status(&effects[0]), (1, 6, "already running".to_string()));

    // answering twice in one round
    let corr = {
        let effects = room.stop_game(1, 7);
        assert_eq!(as_status(&effects[0]), (1, 7, "success".to_string()));
        let effects = room.start_game(1, 8, settings(2, 30), 0);
        as_schedule(&effects[3]).0
    };
    room.provide_question(1, corr, question("あ"), "<svg/>".to_string(), 0);
    room.send_answer(2, 9, "あ".to_string(), 1);
    let effects = room.send_answer(2, 10, "あ".to_string(), 2);
    assert_eq!(as_status(&effects[0]), (2, 10, "already answered".to_string()));
}

#[test]
fn chat_is_echoed_to_everyone() {
    let mut room = two_member_room();
    let effects = room.send_chat(2, 0x71, "hello".to_string());
    assert_eq!(effects.len(), 2);
    assert_eq!(as_status(&effects[0]), (2, 0x71, "success".to_string()));
    let (sessions, msg) = as_broadcast(&effects[1]);
    assert_eq!(sessions, &vec![1, 2]);
    match msg {
        TransportMsg::OutNotifChatSent(e) => {
            assert_eq!(e.payload.id, 0xB);
            assert_eq!(e.payload.message, "hello");
        }
        other => panic!("expected chatSent, got {:?}", other),
    }
}

#[test]
fn client_list_pairs_directory_records_with_admin_flags() {
    let room = two_member_room();
    let ids = room.client_list_ids();
    assert_eq!(ids, vec![0xA, 0xB]);
    // the directory knows B but not A: A is skipped, order kept
    let infos = vec![info(0xB, "B")];
    let effects = room.client_list(2, 0x81, &infos);
    assert_eq!(effects.len(), 1);
    match &effects[0] {
        RoomEffect::Send { session: 2, msg: TransportMsg::OutRespClientList(e) } => {
            assert_eq!(e.correlation_id, 0x81);
            assert_eq!(e.payload.clients.len(), 1);
            assert_eq!(e.payload.clients[0].id, 0xB);
            assert_eq!(e.payload.clients[0].name, "B");
            assert!(!e.payload.clients[0].is_admin);
        }
        other => panic!("expected a client list reply, got {:?}", other),
    }
}

#[test]
fn admin_question_timeout_leaves_the_game_hanging() {
    // the five-second question budget lapses: the entry is consumed and the
    // game stays running with no question — a documented quirk
    let mut room = two_member_room();
    let effects = room.start_game(1, 1, settings(2, 30), 0);
    let corr = as_schedule(&effects[3]).0;
    let effects = room.handle_timeout(Timeout(corr), 5_000);
    assert!(effects.is_empty());
    assert!(room.is_game_running);
    assert!(room.current_question.is_none());
    // a late reply from the admin now finds its entry gone and is dropped
    let effects = room.provide_question(1, corr, question("あ"), "<svg/>".to_string(), 6_000);
    assert!(effects.is_empty());
    assert!(room.current_question.is_none());
}

#[test]
fn settings_change_is_stored_and_broadcast() {
    let mut room = two_member_room();
    let new_settings = settings(9, 45);
    let effects = room.set_game_settings(1, 0x91, new_settings.clone());
    assert_eq!(effects.len(), 2);
    assert_eq!(as_status(&effects[0]), (1, 0x91, "success".to_string()));
    let (sessions, msg) = as_broadcast(&effects[1]);
    assert_eq!(sessions, &vec![1, 2]);
    match msg {
        TransportMsg::OutNotifGameSettingsChanged(e) => {
            assert_eq!(e.payload.game_settings, new_settings);
        }
        other => panic!("expected gameSettingsChanged, got {:?}", other),
    }
    assert_eq!(room.game_settings, new_settings);
}

#[test]
fn answer_of_a_departed_member_survives_the_round() {
    // a member answers and then disconnects: the round still ends with that
    // answer recorded, so the tally can exceed the membership of the moment
    let mut room = two_member_room();
    let effects = room.start_game(1, 1, settings(2, 30), 0);
    let corr = as_schedule(&effects[3]).0;
    let effects = room.provide_question(1, corr, question("あ"), "<svg/>".to_string(), 0);
    let round_id = as_schedule(&effects[1]).0;

    room.send_answer(2, 2, "あ".to_string(), 10);
    room.on_link_died(2);
    assert_eq!(room.clients.len(), 1);

    let effects = room.handle_timeout(Timeout(round_id), 30_000);
    let (_, msg) = as_broadcast(&effects[0]);
    match msg {
        TransportMsg::OutNotifRoundEnded(e) => {
            assert_eq!(e.payload.answers.len(), 2);
            assert_eq!(e.payload.answers[0].id, 0xB);
            assert_eq!(e.payload.answers[1].id, 0xA);
        }
        other => panic!("expected roundEnded, got {:?}", other),
    }
}
