use kanjilab_server::game_actor::{GameActor, GameEffect};
use kanjilab_server::data_types::TransportMsg;
use kanjilab_server::pending_tracker::{PendingTracker, Ticket};
use kanjilab_server::server::{call_launch_server, call_stop_server, ServerError, ServerStatus};

#[test]
fn registration_moves_a_session_from_pending_to_registered() {
    let mut game = GameActor::new();
    game.new_client(0xA, 1);
    game.new_client(0xB, 2);
    assert!(game.knows_session(1));
    assert!(game.knows_id(0xA));

    let (uuid, effects) =
        game.register_client_request(1, "A".to_string(), "K=".to_string(), 0x91);
    assert_eq!(uuid, Some(0xA));
    assert_eq!(effects.len(), 3);
    assert_eq!(effects[0], GameEffect::TellRoomAddClient { uuid: 0xA, session: 1 });
    assert_eq!(effects[1], GameEffect::TellSessionSetRoom { session: 1 });
    match &effects[2] {
        GameEffect::Send { session: 1, msg: TransportMsg::OutRespClientRegistered(e) } => {
            assert_eq!(e.correlation_id, 0x91);
            assert_eq!(e.payload.id, 0xA);
            assert_eq!(e.payload.game_settings.rounds_count, 0);
        }
        other => panic!("expected the registration reply, got {:?}", other),
    }

    // no session is both pending and registered
    assert_eq!(game.pending_clients.len(), 1);
    assert_eq!(game.registered_clients.len(), 1);
    assert_eq!(game.pending_clients[0].0, 0xB);
    assert_eq!(game.registered_clients[0].0, 0xA);

    // an unknown session's registration is ignored
    let (uuid, effects) = game.register_client_request(99, "X".to_string(), "K".to_string(), 1);
    assert_eq!(uuid, None);
    assert!(effects.is_empty());
}

#[test]
fn get_clients_info_keeps_input_order_and_skips_unknowns() {
    let mut game = GameActor::new();
    game.new_client(0xA, 1);
    game.new_client(0xB, 2);
    game.register_client_request(1, "A".to_string(), "KA".to_string(), 1);
    game.register_client_request(2, "B".to_string(), "KB".to_string(), 2);

    let infos = game.get_clients_info(&vec![0xB, 0xEE, 0xA]);
    assert_eq!(infos.len(), 2);
    assert_eq!(infos[0].id, 0xB);
    assert_eq!(infos[0].name, "B");
    assert_eq!(infos[1].id, 0xA);
    assert_eq!(infos[1].key, "KA");
}

#[test]
fn link_death_removes_the_right_entry() {
    let mut game = GameActor::new();
    game.new_client(0xA, 1);
    game.new_client(0xB, 2);
    game.register_client_request(1, "A".to_string(), "K".to_string(), 1);

    // a pending client dies
    let (removed, go_on) = game.on_link_died(2, true);
    assert_eq!(removed, Some(0xB));
    assert!(go_on);

    // a registered client dies
    let (removed, go_on) = game.on_link_died(1, true);
    assert_eq!(removed, Some(0xA));
    assert!(go_on);

    // an unknown link: carry on only when it stopped normally
    assert_eq!(game.on_link_died(7, true), (None, true));
    assert_eq!(game.on_link_died(7, false), (None, false));
}

#[test]
fn tracker_take_and_cancel_remove_the_entry() {
    let mut t: PendingTracker<u8> = PendingTracker::new();
    let ticket = t.add(7, 5_000, 100);
    let meta = t.take(ticket).expect("the entry was just added");
    assert_eq!(meta.kind, 7);
    assert_eq!(meta.sent, 100);
    assert_eq!(meta.t_out, 5_000);
    // taken means gone: the late timer's take is a no-op
    assert!(t.take(ticket).is_none());

    let ticket = t.add(9, 1_000, 200);
    assert!(t.cancel(ticket));
    assert!(!t.cancel(ticket));
    assert!(t.take(ticket).is_none());
    assert!(t.take(Ticket::new(0xDEAD)).is_none());
}

#[test]
fn launch_and_stop_follow_the_process_protocol() {
    let mut status = ServerStatus::NeverStarted;
    assert_eq!(
        call_stop_server(&mut status),
        Err(ServerError::NeverStarted)
    );
    assert_eq!(ServerError::NeverStarted.message(), "server was never started");

    let addr = call_launch_server(&mut status, "8080").expect("first launch");
    assert_eq!(addr, "127.0.0.1:8080");
    assert_eq!(status, ServerStatus::Running);

    assert_eq!(
        call_launch_server(&mut status, "8080"),
        Err(ServerError::AlreadyRunning)
    );
    assert_eq!(ServerError::AlreadyRunning.message(), "server already running");

    assert_eq!(call_stop_server(&mut status), Ok(()));
    assert_eq!(status, ServerStatus::Stopped);
    assert_eq!(call_stop_server(&mut status), Err(ServerError::NotRunning));
    assert_eq!(ServerError::NotRunning.message(), "server is not running");

    // a stopped process can launch again
    assert!(call_launch_server(&mut status, "9090").is_ok());
}
