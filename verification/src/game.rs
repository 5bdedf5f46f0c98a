//! The game engine: board occupancy, the two players' positions, tick
//! advancement with collision resolution, and the per-message re-framing
//! that gives the second player a symmetric view of the game.

use vstd::prelude::*;

use crate::geometry::{
    Direction, BOARD_CELLS, BOARD_SIZE, exits_board_spec, invert_direction_spec, invert_pos,
    invert_pos_spec, lemma_exits_board_symmetric, lemma_step_in_bounds, lemma_step_symmetric,
    step_spec,
};

verus! {

/// Red's starting cell; Blue starts on its point-symmetric image.
pub const RED_START: usize = 15 * BOARD_SIZE + 4;

/// One of the two player roles. Red is the canonical frame the engine's
/// internal state is expressed in.
#[derive(Debug, Copy, Clone, PartialEq, Eq, Structural)]
pub enum Player {
    Red,
    Blue,
}

/// The contents of one board cell.
#[derive(Debug, Copy, Clone, PartialEq, Eq, Structural)]
pub enum Occupancy {
    Occupied(Player),
    Free,
}

impl Occupancy {
    /// Whether the cell holds a trail.
    pub open spec fn spec_occupied(self) -> bool {
        match self {
            Occupancy::Free => false,
            Occupancy::Occupied(_) => true,
        }
    }

    /// Whether the cell holds a trail.
    #[verifier::when_used_as_spec(spec_occupied)]
    pub fn occupied(self) -> (r: bool)
        ensures
            r == self.spec_occupied(),
    {
        match self {
            Occupancy::Free => false,
            Occupancy::Occupied(_) => true,
        }
    }
}

/// An independently owned copy of the board for spectator consumption.
#[derive(Debug, Clone)]
pub struct RenderData {
    pub width: usize,
    pub height: usize,
    pub data: Vec<Occupancy>,
}

impl RenderData {
    /// The placeholder pattern published before the first real snapshot:
    /// cells cycle through Red, Blue, Free.
    pub fn game_start() -> (r: Self)
        ensures
            r.width == BOARD_SIZE,
            r.height == BOARD_SIZE,
            r.data@.len() == BOARD_CELLS,
            forall|i: int|
                0 <= i < BOARD_CELLS ==> r.data@[i] == (if i % 3 == 0 {
                    Occupancy::Occupied(Player::Red)
                } else if i % 3 == 1 {
                    Occupancy::Occupied(Player::Blue)
                } else {
                    Occupancy::Free
                }),
    {
        let mut data: Vec<Occupancy> = Vec::new();
        let mut i: usize = 0;
        while i < BOARD_CELLS
            invariant
                i <= BOARD_CELLS,
                data@.len() == i,
                forall|j: int|
                    0 <= j < i ==> data@[j] == (if j % 3 == 0 {
                        Occupancy::Occupied(Player::Red)
                    } else if j % 3 == 1 {
                        Occupancy::Occupied(Player::Blue)
                    } else {
                        Occupancy::Free
                    }),
            decreases BOARD_CELLS - i,
        {
            let cell = if i % 3 == 0 {
                Occupancy::Occupied(Player::Red)
            } else if i % 3 == 1 {
                Occupancy::Occupied(Player::Blue)
            } else {
                Occupancy::Free
            };
            data.push(cell);
            i += 1;
        }
        RenderData { width: BOARD_SIZE, height: BOARD_SIZE, data }
    }
}

/// A terminal outcome, expressed from Red's perspective.
#[derive(Debug, Copy, Clone, PartialEq, Eq, Structural)]
pub enum WinState {
    Win,
    Loss,
    Tie,
}

impl WinState {
    /// The same outcome seen from the opposite player's perspective.
    pub open spec fn inverse_spec(self) -> WinState {
        match self {
            WinState::Win => WinState::Loss,
            WinState::Loss => WinState::Win,
            WinState::Tie => WinState::Tie,
        }
    }

    /// The same outcome seen from the opposite player's perspective.
    #[verifier::when_used_as_spec(inverse_spec)]
    pub fn inverse(self) -> (r: Self)
        ensures
            r == self.inverse_spec(),
    {
        match self {
            WinState::Win => WinState::Loss,
            WinState::Loss => WinState::Win,
            WinState::Tie => WinState::Tie,
        }
    }
}

/// One outbound line to a client: either the game's end or both positions
/// in the receiving client's own frame.
#[derive(Debug, Copy, Clone, PartialEq, Eq, Structural)]
pub enum ToClientMessage {
    End(WinState),
    Update(usize, usize),
}

/// A pair of per-player values, one for each role.
#[derive(Debug, Copy, Clone)]
pub struct RedBlue<T> {
    pub red: T,
    pub blue: T,
}

impl<T> RedBlue<T> {
    /// Applies `op` to both players' values.
    pub fn map<U, F: Fn(T) -> U>(self, op: F) -> (r: RedBlue<U>)
        requires
            call_requires(op, (self.red,)),
            call_requires(op, (self.blue,)),
        ensures
            call_ensures(op, (self.red,), r.red),
            call_ensures(op, (self.blue,), r.blue),
    {
        RedBlue { red: op(self.red), blue: op(self.blue) }
    }

    /// Borrows both players' values in place.
    pub fn as_ref(&self) -> (r: RedBlue<&T>)
        ensures
            r.red == self.red,
            r.blue == self.blue,
    {
        RedBlue { red: &self.red, blue: &self.blue }
    }
}

/// Re-frames an outbound message for the opposite player: a terminal outcome
/// is inverted; an update swaps the two positions and maps each through the
/// board's point symmetry.
pub open spec fn invert_update_spec(u: ToClientMessage) -> ToClientMessage {
    match u {
        ToClientMessage::End(x) => ToClientMessage::End(x.inverse_spec()),
        ToClientMessage::Update(mypos, theirpos) => ToClientMessage::Update(
            invert_pos_spec(theirpos as int) as usize,
            invert_pos_spec(mypos as int) as usize,
        ),
    }
}

/// Re-frames an outbound message for the opposite player.
pub fn invert_update(u: ToClientMessage) -> (r: ToClientMessage)
    requires
        u matches ToClientMessage::Update(mypos, theirpos) ==> mypos < BOARD_CELLS && theirpos
            < BOARD_CELLS,
    ensures
        r == invert_update_spec(u),
{
    match u {
        ToClientMessage::End(x) => ToClientMessage::End(x.inverse()),
        ToClientMessage::Update(mypos, theirpos) => ToClientMessage::Update(
            invert_pos(theirpos),
            invert_pos(mypos),
        ),
    }
}

/// The engine state: the board, both players' positions in the canonical
/// frame, and the terminal outcome once one exists.
pub struct TronGame {
    pub board: Vec<Occupancy>,
    pub pos: RedBlue<usize>,
    pub endgame: Option<WinState>,
}

impl TronGame {
    /// Well-formed engine state: a full board and both positions on it.
    pub open spec fn wf(self) -> bool {
        &&& self.board@.len() == BOARD_CELLS
        &&& self.pos.red < BOARD_CELLS
        &&& self.pos.blue < BOARD_CELLS
    }

    /// The cell Red's move aims at, as an unclamped index.
    pub open spec fn red_target(self, moves: RedBlue<Direction>) -> int {
        step_spec(self.pos.red as int, moves.red)
    }

    /// The cell Blue's move aims at, as an unclamped index.
    pub open spec fn blue_target(self, moves: RedBlue<Direction>) -> int {
        step_spec(self.pos.blue as int, moves.blue)
    }

    /// Whether Red's move fails this tick: it exits the board, meets Blue
    /// head-to-head in the same target cell, or runs into an occupied cell.
    pub open spec fn red_fails(self, moves: RedBlue<Direction>) -> bool {
        ||| exits_board_spec(self.pos.red as int, moves.red)
        ||| self.red_target(moves) == self.blue_target(moves)
        ||| (!exits_board_spec(self.pos.red as int, moves.red) && self.board@[self.red_target(
            moves,
        )].spec_occupied())
    }

    /// Whether Blue's move fails this tick, symmetrically to `red_fails`.
    pub open spec fn blue_fails(self, moves: RedBlue<Direction>) -> bool {
        ||| exits_board_spec(self.pos.blue as int, moves.blue)
        ||| self.red_target(moves) == self.blue_target(moves)
        ||| (!exits_board_spec(self.pos.blue as int, moves.blue) && self.board@[self.blue_target(
            moves,
        )].spec_occupied())
    }

    /// The outcome of one tick, from Red's perspective: both players failing
    /// is a tie, exactly one failing ends the game against that player,
    /// neither failing lets the game continue.
    pub open spec fn next_outcome(self, moves: RedBlue<Direction>) -> Option<WinState> {
        if self.red_fails(moves) && self.blue_fails(moves) {
            Some(WinState::Tie)
        } else if self.red_fails(moves) {
            Some(WinState::Loss)
        } else if self.blue_fails(moves) {
            Some(WinState::Win)
        } else {
            None
        }
    }

    /// The board after one tick: each player whose move stays on the board
    /// marks its target cell, but only when that cell was still free — a
    /// collision never overwrites the cell's previous owner. Red's mark is
    /// written first, so a head-to-head target shows Red's tag.
    pub open spec fn next_board(self, moves: RedBlue<Direction>) -> Seq<Occupancy> {
        let after_red = if !exits_board_spec(self.pos.red as int, moves.red)
            && !self.board@[self.red_target(moves)].spec_occupied() {
            self.board@.update(self.red_target(moves), Occupancy::Occupied(Player::Red))
        } else {
            self.board@
        };
        if !exits_board_spec(self.pos.blue as int, moves.blue) && !after_red[self.blue_target(
            moves,
        )].spec_occupied() {
            after_red.update(self.blue_target(moves), Occupancy::Occupied(Player::Blue))
        } else {
            after_red
        }
    }

    /// Each player's stored position after one tick: the target cell when the
    /// move stays on the board, else unchanged.
    pub open spec fn next_pos(self, moves: RedBlue<Direction>) -> RedBlue<usize> {
        RedBlue {
            red: if !exits_board_spec(self.pos.red as int, moves.red) {
                self.red_target(moves) as usize
            } else {
                self.pos.red
            },
            blue: if !exits_board_spec(self.pos.blue as int, moves.blue) {
                self.blue_target(moves) as usize
            } else {
                self.pos.blue
            },
        }
    }

    /// A fresh game: every cell free except the two point-symmetric starting
    /// cells, each occupied by its player; no terminal outcome.
    pub fn new() -> (r: Self)
        ensures
            r.wf(),
            r.endgame is None,
            r.pos.red == RED_START,
            r.pos.blue == invert_pos_spec(RED_START as int),
            r.board@[RED_START as int] == Occupancy::Occupied(Player::Red),
            r.board@[invert_pos_spec(RED_START as int)] == Occupancy::Occupied(Player::Blue),
            forall|i: int|
                0 <= i < BOARD_CELLS && i != RED_START && i != invert_pos_spec(RED_START as int)
                    ==> r.board@[i] == Occupancy::Free,
    {
        let mut board: Vec<Occupancy> = Vec::new();
        let mut i: usize = 0;
        while i < BOARD_CELLS
            invariant
                i <= BOARD_CELLS,
                board@.len() == i,
                forall|j: int| 0 <= j < i ==> board@[j] == Occupancy::Free,
            decreases BOARD_CELLS - i,
        {
            board.push(Occupancy::Free);
            i += 1;
        }
        let redpos = RED_START;
        let bluepos = invert_pos(redpos);
        board.set(redpos, Occupancy::Occupied(Player::Red));
        board.set(bluepos, Occupancy::Occupied(Player::Blue));
        TronGame { board, pos: RedBlue { red: redpos, blue: bluepos }, endgame: None }
    }

    /// The nominal target index of a step, as a signed value: a move off the
    /// board yields an out-of-range index rather than wrapping.
    fn advance(pos: usize, d: Direction) -> (r: isize)
        requires
            pos < BOARD_CELLS,
        ensures
            r == step_spec(pos as int, d),
    {
        let p = pos as isize;
        let side = BOARD_SIZE as isize;
        match d {
            Direction::Up => p - side,
            Direction::Down => p + side,
            Direction::Left => p - 1,
            Direction::Right => p + 1,
        }
    }

    /// Whether a move from `pos` in direction `d` exits the board.
    fn boundary_collision(pos: usize, d: Direction) -> (r: bool)
        requires
            pos < BOARD_CELLS,
        ensures
            r == exits_board_spec(pos as int, d),
    {
        match d {
            Direction::Up => pos < BOARD_SIZE,
            Direction::Down => pos + BOARD_SIZE >= BOARD_CELLS,
            Direction::Left => pos % BOARD_SIZE == 0,
            Direction::Right => pos % BOARD_SIZE == BOARD_SIZE - 1,
        }
    }

    /// Advances one tick given both players' moves, already expressed in the
    /// canonical frame, and returns the message for Red. Once the game is
    /// terminal the state is left untouched and the stored outcome replayed.
    ///
    /// Occupancy is monotone across the call: a cell never reverts to Free.
    pub fn observe(&mut self, moves: RedBlue<Direction>) -> (r: ToClientMessage)
        requires
            old(self).wf(),
        ensures
            final(self).wf(),
            old(self).endgame matches Some(w) ==> *final(self) == *old(self) && r
                == ToClientMessage::End(w),
            old(self).endgame is None ==> final(self).endgame == old(self).next_outcome(moves),
            old(self).endgame is None ==> final(self).board@ == old(self).next_board(moves),
            old(self).endgame is None ==> final(self).pos == old(self).next_pos(moves),
            old(self).endgame is None ==> (match old(self).next_outcome(moves) {
                Some(w) => r == ToClientMessage::End(w),
                None => r == ToClientMessage::Update(
                    old(self).next_pos(moves).red,
                    old(self).next_pos(moves).blue,
                ),
            }),
            forall|i: int|
                0 <= i < old(self).board@.len() && old(self).board@[i].spec_occupied()
                    ==> final(self).board@[i].spec_occupied(),
    {
        if let Some(win) = self.endgame {
            return ToClientMessage::End(win);
        }
        let red_b = Self::boundary_collision(self.pos.red, moves.red);
        let blue_b = Self::boundary_collision(self.pos.blue, moves.blue);
        let red_t = Self::advance(self.pos.red, moves.red);
        let blue_t = Self::advance(self.pos.blue, moves.blue);

        // The head-to-head check comes before either occupancy test, so the
        // order the players are processed in cannot decide who wins.
        let mut red_collides = red_t == blue_t;
        let mut blue_collides = red_t == blue_t;

        if !red_b {
            proof {
                lemma_step_in_bounds(old(self).pos.red as int, moves.red);
            }
            let rt = red_t as usize;
            let cell_taken = self.board[rt].occupied();
            red_collides = red_collides || cell_taken;
            if !cell_taken {
                self.board.set(rt, Occupancy::Occupied(Player::Red));
            }
            self.pos.red = rt;
        }
        if !blue_b {
            proof {
                lemma_step_in_bounds(old(self).pos.blue as int, moves.blue);
            }
            let bt = blue_t as usize;
            let cell_taken = self.board[bt].occupied();
            blue_collides = blue_collides || cell_taken;
            if !cell_taken {
                self.board.set(bt, Occupancy::Occupied(Player::Blue));
            }
            self.pos.blue = bt;
        }

        self.endgame = match (red_collides || red_b, blue_collides || blue_b) {
            (true, true) => Some(WinState::Tie),
            (false, false) => None,
            (true, false) => Some(WinState::Loss),
            (false, true) => Some(WinState::Win),
        };
        if let Some(win) = self.endgame {
            ToClientMessage::End(win)
        } else {
            ToClientMessage::Update(self.pos.red, self.pos.blue)
        }
    }

    /// The current positions as an update message, without advancing state.
    pub fn position_update(&self) -> (r: ToClientMessage)
        ensures
            r == ToClientMessage::Update(self.pos.red, self.pos.blue),
    {
        ToClientMessage::Update(self.pos.red, self.pos.blue)
    }

    /// A read-only copy of the board for spectators.
    pub fn render_data(&self) -> (r: RenderData)
        ensures
            r.width == BOARD_SIZE,
            r.height == BOARD_SIZE,
            r.data@ == self.board@,
    {
        RenderData { width: BOARD_SIZE, height: BOARD_SIZE, data: self.board.clone() }
    }

    /// Forces a terminal outcome without touching the board.
    pub fn set_win_state(&mut self, w: WinState)
        ensures
            final(self).endgame == Some(w),
            final(self).board@ == old(self).board@,
            final(self).pos == old(self).pos,
    {
        self.endgame = Some(w);
    }

    /// Whether a terminal outcome has been reached.
    pub fn game_over(&self) -> (r: bool)
        ensures
            r == (self.endgame is Some),
    {
        self.endgame.is_some()
    }
}

/// Both players exiting the board on the same tick yields a tie.
pub proof fn lemma_both_exit_tie(s: TronGame, moves: RedBlue<Direction>)
    requires
        s.wf(),
        exits_board_spec(s.pos.red as int, moves.red),
        exits_board_spec(s.pos.blue as int, moves.blue),
    ensures
        s.next_outcome(moves) == Some(WinState::Tie),
{
}

/// One player exiting the board while the other's move succeeds outright
/// ends the game in the survivor's favor: a loss for Red when Red exits, a
/// win for Red when Blue exits.
pub proof fn lemma_single_exit_decides(s: TronGame, moves: RedBlue<Direction>)
    requires
        s.wf(),
    ensures
        exits_board_spec(s.pos.red as int, moves.red) && !s.blue_fails(moves) ==> s.next_outcome(
            moves,
        ) == Some(WinState::Loss),
        exits_board_spec(s.pos.blue as int, moves.blue) && !s.red_fails(moves) ==> s.next_outcome(
            moves,
        ) == Some(WinState::Win),
{
}

/// A cell as the opposite player sees it: the player tags exchanged.
pub open spec fn mirror_cell(c: Occupancy) -> Occupancy {
    match c {
        Occupancy::Occupied(Player::Red) => Occupancy::Occupied(Player::Blue),
        Occupancy::Occupied(Player::Blue) => Occupancy::Occupied(Player::Red),
        Occupancy::Free => Occupancy::Free,
    }
}

/// A move pair as the opposite player sees it: the roles exchanged and each
/// direction mapped through the point symmetry.
pub open spec fn mirror_moves(moves: RedBlue<Direction>) -> RedBlue<Direction> {
    RedBlue { red: invert_direction_spec(moves.blue), blue: invert_direction_spec(moves.red) }
}

/// Whether `t` is the game `s` seen from the opposite player's side: the
/// roles exchanged, every position and cell mapped through the board's
/// point symmetry.
pub open spec fn is_mirror_game(s: TronGame, t: TronGame) -> bool {
    &&& t.pos.red == invert_pos_spec(s.pos.blue as int)
    &&& t.pos.blue == invert_pos_spec(s.pos.red as int)
    &&& t.board@.len() == s.board@.len()
    &&& (forall|i: int|
        0 <= i < BOARD_CELLS ==> t.board@[i] == mirror_cell(s.board@[invert_pos_spec(i)]))
}

/// The two viewpoints agree: one tick of a game and one tick of its mirror
/// image, fed the mirrored moves, fail the same players and produce the
/// same outcome up to perspective inversion. The engine's single canonical
/// frame therefore gives both players identical semantics.
pub proof fn lemma_viewpoints_agree(s: TronGame, t: TronGame, moves: RedBlue<Direction>)
    requires
        s.wf(),
        t.wf(),
        is_mirror_game(s, t),
    ensures
        t.red_fails(mirror_moves(moves)) == s.blue_fails(moves),
        t.blue_fails(mirror_moves(moves)) == s.red_fails(moves),
        t.next_outcome(mirror_moves(moves)) == (match s.next_outcome(moves) {
            Some(w) => Some(w.inverse_spec()),
            None => None::<WinState>,
        }),
{
    let mm = mirror_moves(moves);
    lemma_step_symmetric(s.pos.blue as int, moves.blue);
    lemma_step_symmetric(s.pos.red as int, moves.red);
    lemma_exits_board_symmetric(s.pos.blue as int, moves.blue);
    lemma_exits_board_symmetric(s.pos.red as int, moves.red);
    assert(t.red_target(mm) == invert_pos_spec(s.blue_target(moves)));
    assert(t.blue_target(mm) == invert_pos_spec(s.red_target(moves)));
    if !exits_board_spec(s.pos.blue as int, moves.blue) {
        lemma_step_in_bounds(s.pos.blue as int, moves.blue);
        assert(t.board@[t.red_target(mm)] == mirror_cell(s.board@[s.blue_target(moves)]));
    }
    if !exits_board_spec(s.pos.red as int, moves.red) {
        lemma_step_in_bounds(s.pos.red as int, moves.red);
        assert(t.board@[t.blue_target(mm)] == mirror_cell(s.board@[s.red_target(moves)]));
    }
}

/// A fresh game is its own mirror image: the two starting cells are point
/// symmetric to each other and carry opposite tags, so the mirror relation
/// of `lemma_viewpoints_agree` is satisfiable from the very first tick.
pub proof fn lemma_new_game_self_mirror(g: TronGame)
    requires
        g.wf(),
        g.pos.red == RED_START,
        g.pos.blue == invert_pos_spec(RED_START as int),
        g.board@[RED_START as int] == Occupancy::Occupied(Player::Red),
        g.board@[invert_pos_spec(RED_START as int)] == Occupancy::Occupied(Player::Blue),
        forall|i: int|
            0 <= i < BOARD_CELLS && i != RED_START && i != invert_pos_spec(RED_START as int)
                ==> g.board@[i] == Occupancy::Free,
    ensures
        is_mirror_game(g, g),
{
}

/// Two players moving into the same free cell on the same tick both lose:
/// the head-to-head check precedes either occupancy test, so the order the
/// players are processed in never changes the outcome.
pub proof fn lemma_head_to_head_tie(s: TronGame, moves: RedBlue<Direction>)
    requires
        s.wf(),
        !exits_board_spec(s.pos.red as int, moves.red),
        !exits_board_spec(s.pos.blue as int, moves.blue),
        s.red_target(moves) == s.blue_target(moves),
        !s.board@[s.red_target(moves)].spec_occupied(),
    ensures
        s.next_outcome(moves) == Some(WinState::Tie),
{
}

} // verus!
