use tron_server::game::{invert_update, ToClientMessage, WinState};
use tron_server::geometry::{invert_direction, invert_pos, Direction};

#[test]
fn inversions() {
    for i in 0..(32 * 32) {
        assert_eq!(i, invert_pos(invert_pos(i)));
    }
    assert_eq!(1023, invert_pos(0));
    assert_eq!(992, invert_pos(31));
    assert_eq!(34, invert_pos(989));
    assert_eq!(539, invert_pos(484));
}

#[test]
fn direction_inversion_mapping() {
    assert_eq!(invert_direction(Direction::Up), Direction::Down);
    assert_eq!(invert_direction(Direction::Down), Direction::Up);
    assert_eq!(invert_direction(Direction::Left), Direction::Right);
    assert_eq!(invert_direction(Direction::Right), Direction::Left);
}

#[test]
fn direction_inversion_involution() {
    for d in [Direction::Up, Direction::Down, Direction::Left, Direction::Right] {
        assert_eq!(d, invert_direction(invert_direction(d)));
    }
}

#[test]
fn win_state_inverse() {
    assert_eq!(WinState::Win.inverse(), WinState::Loss);
    assert_eq!(WinState::Loss.inverse(), WinState::Win);
    assert_eq!(WinState::Tie.inverse(), WinState::Tie);
    for w in [WinState::Win, WinState::Loss, WinState::Tie] {
        assert_eq!(w, w.inverse().inverse());
    }
}

#[test]
fn update_inversion() {
    assert_eq!(
        invert_update(ToClientMessage::End(WinState::Win)),
        ToClientMessage::End(WinState::Loss)
    );
    assert_eq!(
        invert_update(ToClientMessage::End(WinState::Tie)),
        ToClientMessage::End(WinState::Tie)
    );
    // Positions swap and each maps through the point symmetry.
    assert_eq!(
        invert_update(ToClientMessage::Update(10, 20)),
        ToClientMessage::Update(1003, 1013)
    );
}
