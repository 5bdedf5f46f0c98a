//! Session decision logic: the paired-failure-to-outcome rule and the two
//! per-phase steps of the orchestrator that decide, from both clients' read
//! results, how the engine advances and which message each client is sent.
//! The socket reads and writes themselves happen outside the library; they
//! hand in plain read results and take the outbound messages back.

use vstd::prelude::*;

use crate::game::{RedBlue, ToClientMessage, TronGame, WinState, invert_update, invert_update_spec};
use crate::geometry::{Direction, invert_direction, invert_direction_spec};
use crate::protocol::ClientRecvFailure;

verus! {

/// The outcome the paired-failure-to-outcome rule forces when at least one
/// client failed, from Red's perspective: both failing is a tie, one failing
/// scores against that player.
pub open spec fn failure_outcome(red_failed: bool, blue_failed: bool) -> WinState {
    if red_failed && blue_failed {
        WinState::Tie
    } else if red_failed {
        WinState::Loss
    } else {
        WinState::Win
    }
}

/// Applies the paired-failure-to-outcome rule: when at least one read
/// failed, the engine is forced terminal (a tie if both failed, else against
/// the failing player) and the first failure is handed back; when both reads
/// succeeded, the engine is untouched and both values are handed back.
pub fn handle_recv_failures<T>(
    errs: RedBlue<Result<T, ClientRecvFailure>>,
    game: &mut TronGame,
) -> (r: Result<RedBlue<T>, ClientRecvFailure>)
    ensures
        final(game).board@ == old(game).board@,
        final(game).pos == old(game).pos,
        final(game).endgame == (if errs.red is Err || errs.blue is Err {
            Some(failure_outcome(errs.red is Err, errs.blue is Err))
        } else {
            old(game).endgame
        }),
        errs.red is Ok && errs.blue is Ok ==> (r matches Ok(rb) && rb.red == errs.red->Ok_0
            && rb.blue == errs.blue->Ok_0),
        errs.red is Err ==> r == Err::<RedBlue<T>, ClientRecvFailure>(errs.red->Err_0),
        errs.red is Ok && errs.blue is Err ==> r == Err::<RedBlue<T>, ClientRecvFailure>(
            errs.blue->Err_0,
        ),
{
    let red_failed = errs.red.is_err();
    let blue_failed = errs.blue.is_err();
    match (red_failed, blue_failed) {
        (true, true) => game.set_win_state(WinState::Tie),
        (false, false) => (),
        (true, false) => game.set_win_state(WinState::Loss),
        (false, true) => game.set_win_state(WinState::Win),
    }
    match errs {
        RedBlue { red: Ok(red), blue: Ok(blue) } => Ok(RedBlue { red, blue }),
        RedBlue { red: Err(e), blue: _ } => Err(e),
        RedBlue { red: _, blue: Err(e) } => Err(e),
    }
}

/// Both players' name-read results resolved into the messages that open or
/// end the session: on success, each client's view of the starting
/// positions and `true` to continue; on any failure, each client's terminal
/// message and `false`. Red's message comes first; Blue's is always the
/// inverted view of Red's.
pub fn resolve_name_phase(
    game: &mut TronGame,
    results: RedBlue<Result<(), ClientRecvFailure>>,
) -> (r: (RedBlue<ToClientMessage>, bool))
    requires
        old(game).wf(),
        old(game).endgame is None,
    ensures
        final(game).wf(),
        final(game).board@ == old(game).board@,
        final(game).pos == old(game).pos,
        r.0.blue == invert_update_spec(r.0.red),
        results.red is Ok && results.blue is Ok ==> final(game).endgame is None,
        results.red is Ok && results.blue is Ok ==> r.1 == true,
        results.red is Ok && results.blue is Ok ==> r.0.red == ToClientMessage::Update(
            old(game).pos.red,
            old(game).pos.blue,
        ),
        results.red is Err || results.blue is Err ==> final(game).endgame == Some(
            failure_outcome(results.red is Err, results.blue is Err),
        ),
        results.red is Err || results.blue is Err ==> r.1 == false,
        results.red is Err || results.blue is Err ==> r.0.red == ToClientMessage::End(
            failure_outcome(results.red is Err, results.blue is Err),
        ),
{
    let res = handle_recv_failures(results, game);
    match res {
        Ok(_) => {
            let red_update = game.position_update();
            let blue_update = invert_update(red_update);
            (RedBlue { red: red_update, blue: blue_update }, true)
        },
        Err(_) => {
            // The game is already terminal; a dummy move pair just obtains
            // the properly shaped terminal message.
            let dummy = RedBlue { red: Direction::Up, blue: Direction::Up };
            let msg = game.observe(dummy);
            let inverted = invert_update(msg);
            (RedBlue { red: msg, blue: inverted }, false)
        },
    }
}

/// Both players' raw read results re-expressed in the engine's canonical
/// frame: Red's direction is taken as is, Blue's is inverted.
pub open spec fn canonical_moves(reads: RedBlue<Result<Direction, ClientRecvFailure>>) -> RedBlue<
    Direction,
> {
    RedBlue { red: reads.red->Ok_0, blue: invert_direction_spec(reads.blue->Ok_0) }
}

/// Runs one tick of the game loop on both players' move-read results: any
/// failure is converted into an outcome by the paired-failure rule, Blue's
/// raw direction is inverted into the canonical frame, the engine advances
/// once, and each client's outbound message is returned. Red's message
/// comes first; Blue's is always the inverted view of Red's.
pub fn advance_tick(
    game: &mut TronGame,
    reads: RedBlue<Result<Direction, ClientRecvFailure>>,
) -> (r: RedBlue<ToClientMessage>)
    requires
        old(game).wf(),
        old(game).endgame is None,
    ensures
        final(game).wf(),
        r.blue == invert_update_spec(r.red),
        reads.red is Err || reads.blue is Err ==> final(game).board@ == old(game).board@
            && final(game).pos == old(game).pos && final(game).endgame == Some(
            failure_outcome(reads.red is Err, reads.blue is Err),
        ) && r.red == ToClientMessage::End(
            failure_outcome(reads.red is Err, reads.blue is Err),
        ),
        reads.red is Ok && reads.blue is Ok ==> final(game).endgame == old(game).next_outcome(
            canonical_moves(reads),
        ),
        reads.red is Ok && reads.blue is Ok ==> final(game).board@ == old(game).next_board(
            canonical_moves(reads),
        ),
        reads.red is Ok && reads.blue is Ok ==> final(game).pos == old(game).next_pos(
            canonical_moves(reads),
        ),
        reads.red is Ok && reads.blue is Ok ==> (match old(game).next_outcome(
            canonical_moves(reads),
        ) {
            Some(w) => r.red == ToClientMessage::End(w),
            None => r.red == ToClientMessage::Update(
                old(game).next_pos(canonical_moves(reads)).red,
                old(game).next_pos(canonical_moves(reads)).blue,
            ),
        }),
{
    let res = handle_recv_failures(reads, game);
    let moves = match res {
        Ok(rb) => RedBlue { red: rb.red, blue: invert_direction(rb.blue) },
        Err(_) => {
            // The game is already terminal; the dummy pair is never applied
            // to the board and only shapes the terminal message.
            RedBlue { red: Direction::Up, blue: Direction::Up }
        },
    };
    let red_update = game.observe(moves);
    let blue_update = invert_update(red_update);
    RedBlue { red: red_update, blue: blue_update }
}

} // verus!
