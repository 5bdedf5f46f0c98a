use tron_server::game::{Occupancy, RedBlue, ToClientMessage, TronGame, WinState};
use tron_server::geometry::Direction;
use tron_server::protocol::{encode_message, parse_direction, ClientRecvFailure};
use tron_server::session::{advance_tick, handle_recv_failures, resolve_name_phase};

#[test]
fn recv_failures_both_ok() {
    let mut game = TronGame::new();
    let r = handle_recv_failures(
        RedBlue { red: Ok::<u32, ClientRecvFailure>(1), blue: Ok(2) },
        &mut game,
    );
    let rb = r.unwrap();
    assert_eq!(rb.red, 1);
    assert_eq!(rb.blue, 2);
    assert!(!game.game_over());
}

#[test]
fn recv_failures_red_fails() {
    let mut game = TronGame::new();
    let r = handle_recv_failures(
        RedBlue { red: Err(ClientRecvFailure::ClientTimeoutReached), blue: Ok(2u32) },
        &mut game,
    );
    assert!(matches!(r, Err(ClientRecvFailure::ClientTimeoutReached)));
    assert_eq!(game.endgame, Some(WinState::Loss));
}

#[test]
fn recv_failures_blue_fails() {
    let mut game = TronGame::new();
    let r = handle_recv_failures(
        RedBlue { red: Ok(1u32), blue: Err(ClientRecvFailure::Eof) },
        &mut game,
    );
    assert!(matches!(r, Err(ClientRecvFailure::Eof)));
    assert_eq!(game.endgame, Some(WinState::Win));
}

#[test]
fn recv_failures_both_fail() {
    let mut game = TronGame::new();
    let r = handle_recv_failures(
        RedBlue {
            red: Err::<u32, ClientRecvFailure>(ClientRecvFailure::Eof),
            blue: Err(ClientRecvFailure::ClientTimeoutReached),
        },
        &mut game,
    );
    assert!(matches!(r, Err(ClientRecvFailure::Eof)));
    assert_eq!(game.endgame, Some(WinState::Tie));
}

#[test]
fn full_session_first_tick() {
    // Two clients connect and send valid names.
    let mut game = TronGame::new();
    let (msgs, go_on) = resolve_name_phase(
        &mut game,
        RedBlue { red: Ok(()), blue: Ok(()) },
    );
    assert!(go_on);
    // Each side sees its own symmetric view of the same starting pair.
    assert_eq!(msgs.red, ToClientMessage::Update(484, 539));
    assert_eq!(msgs.blue, ToClientMessage::Update(484, 539));

    // Both send a direction that moves them without collision.
    let reads = RedBlue {
        red: parse_direction(b"l\n"),
        blue: parse_direction(b"l\n"),
    };
    let msgs = advance_tick(&mut game, reads);
    // Red moves left; Blue's raw "l" is inverted to a canonical Right.
    assert_eq!(msgs.red, ToClientMessage::Update(483, 540));
    assert_eq!(msgs.blue, ToClientMessage::Update(483, 540));
    assert!(!game.game_over());

    // The snapshot shows the two newly occupied cells.
    let render = game.render_data();
    assert!(render.data[483].occupied());
    assert!(render.data[540].occupied());
    assert_eq!(render.data.iter().filter(|c| c.occupied()).count(), 4);
}

#[test]
fn disconnect_during_name_phase() {
    // Blue closes its socket during the name phase: Red is owed a WIN line,
    // Blue's side is scored a loss, and the session ends without an error.
    let mut game = TronGame::new();
    let (msgs, go_on) = resolve_name_phase(
        &mut game,
        RedBlue { red: Ok(()), blue: Err(ClientRecvFailure::Eof) },
    );
    assert!(!go_on);
    assert_eq!(msgs.red, ToClientMessage::End(WinState::Win));
    assert_eq!(msgs.blue, ToClientMessage::End(WinState::Loss));
    assert_eq!(encode_message(msgs.red), b"WIN\n".to_vec());
    assert!(game.game_over());
}

#[test]
fn timeout_during_name_phase_for_both() {
    let mut game = TronGame::new();
    let (msgs, go_on) = resolve_name_phase(
        &mut game,
        RedBlue {
            red: Err(ClientRecvFailure::ClientTimeoutReached),
            blue: Err(ClientRecvFailure::ClientTimeoutReached),
        },
    );
    assert!(!go_on);
    assert_eq!(msgs.red, ToClientMessage::End(WinState::Tie));
    assert_eq!(msgs.blue, ToClientMessage::End(WinState::Tie));
}

#[test]
fn garbled_direction_scores_against_sender() {
    // Blue sends "xx" instead of a direction: its read is a parse failure,
    // Blue's side loses and the opponent gets WIN.
    let mut game = TronGame::new();
    let reads = RedBlue {
        red: parse_direction(b"u\n"),
        blue: parse_direction(b"xx"),
    };
    assert_eq!(reads.blue, Err(ClientRecvFailure::ParseError));
    let msgs = advance_tick(&mut game, reads);
    assert_eq!(msgs.red, ToClientMessage::End(WinState::Win));
    assert_eq!(msgs.blue, ToClientMessage::End(WinState::Loss));
    assert_eq!(encode_message(msgs.red), b"WIN\n".to_vec());
    assert_eq!(encode_message(msgs.blue), b"LOSS\n".to_vec());
    assert!(game.game_over());
}

#[test]
fn timeout_during_move_phase() {
    let mut game = TronGame::new();
    let reads = RedBlue {
        red: Err(ClientRecvFailure::ClientTimeoutReached),
        blue: Ok(Direction::Up),
    };
    let msgs = advance_tick(&mut game, reads);
    assert_eq!(msgs.red, ToClientMessage::End(WinState::Loss));
    assert_eq!(msgs.blue, ToClientMessage::End(WinState::Win));
    // The board is untouched by the failed tick.
    let render = game.render_data();
    assert_eq!(render.data.iter().filter(|c| c.occupied()).count(), 2);
    assert_eq!(render.data[484], Occupancy::Occupied(tron_server::game::Player::Red));
}
