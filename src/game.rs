//! The game controller: whose turn it is, which phase the game is in and
//! who won. It forwards each action to the board and decides from the
//! result and the stone counts what happens next.
use vstd::prelude::*;

use crate::board::{
    can_jump, can_place, can_slide, count, in_mill, jumped, opponent, Board, Player,
};

verus! {

/// The phase of the game.
#[derive(Clone, Copy, Debug, PartialEq, Eq, Structural)]
pub enum GamePhase {
    /// Each player puts nine stones, one per turn, on any empty point.
    Placement,
    /// Stones slide to a connected empty point.
    Sliding,
    /// A player is down to three stones; that player's stones jump to any
    /// empty point, the other player's still slide.
    Flying,
    /// A player has fewer than three stones left; the other one has won.
    Finished,
}

/// What became of an action.
#[derive(Clone, Copy, Debug, PartialEq, Eq, Structural)]
pub enum TurnOutcome {
    /// Refused: nothing changed and the same player acts again.
    Invalid,
    /// Made, and the turn passed to the other player.
    Done,
    /// Made, and the stone that moved closed a mill; the turn passed.
    Mill,
}

/// The number of stones each player puts on the board in the placement phase.
pub const STONES_PER_PLAYER: u8 = 9;

/// The state of a game as a value.
pub struct GameView {
    pub board: Seq<Player>,
    pub phase: GamePhase,
    /// The player whose action comes next.
    pub turn: Player,
    pub winner: Player,
    /// A mill was closed and a stone of `turn` is to be taken off first.
    pub removal_pending: bool,
    /// Stones player one has put on the board so far.
    pub placed_one: nat,
    /// Stones player two has put on the board so far.
    pub placed_two: nat,
}

/// Stones `p` has put on the board so far.
pub open spec fn placed_by(v: GameView, p: Player) -> nat {
    match p {
        Player::One => v.placed_one,
        Player::Two => v.placed_two,
        Player::Nobody => 0,
    }
}

/// Stones `p` still plays with: those on the board and those not yet placed.
pub open spec fn stones_left(v: GameView, p: Player) -> int {
    count(v.board, p) + STONES_PER_PLAYER - placed_by(v, p)
}

/// Both players have put all their stones.
pub open spec fn placement_done(v: GameView) -> bool {
    v.placed_one == STONES_PER_PLAYER && v.placed_two == STONES_PER_PLAYER
}

/// The phase that follows `phase` when the players have `l1` and `l2`
/// stones left. A player with fewer than three stones left loses, in any
/// phase. Otherwise placement goes on until both players have put all their
/// stones (`done`); after it a player with three stones left makes the game
/// enter its flying phase, and the game stays there.
pub open spec fn next_phase(phase: GamePhase, l1: int, l2: int, done: bool) -> GamePhase {
    if phase == GamePhase::Finished || l1 < 3 || l2 < 3 {
        GamePhase::Finished
    } else if phase == GamePhase::Placement && !done {
        GamePhase::Placement
    } else if phase == GamePhase::Flying || l1 == 3 || l2 == 3 {
        GamePhase::Flying
    } else {
        GamePhase::Sliding
    }
}

/// The winner once the stones left `l1` and `l2` are seen in `phase`: the
/// player who did not drop below three, decided when the game ends.
pub open spec fn next_winner(phase: GamePhase, winner: Player, l1: int, l2: int) -> Player {
    if phase != GamePhase::Finished && (l1 < 3 || l2 < 3) {
        if l1 < 3 {
            Player::Two
        } else {
            Player::One
        }
    } else {
        winner
    }
}

/// The state with phase and winner brought up to date with the stones left.
pub open spec fn settled(v: GameView) -> GameView {
    let l1 = stones_left(v, Player::One);
    let l2 = stones_left(v, Player::Two);
    GameView {
        phase: next_phase(v.phase, l1, l2, placement_done(v)),
        winner: next_winner(v.phase, v.winner, l1, l2),
        ..v
    }
}

/// The state after an action was made on `v` that left the board as `b`
/// and moved a stone to `dest`: phase and winner are updated, a mill asks
/// for a removal while the opponent has a stone to lose, and the turn passes.
pub open spec fn completed(v: GameView, b: Seq<Player>, dest: int) -> GameView {
    let s = settled(GameView { board: b, ..v });
    GameView {
        turn: opponent(v.turn),
        removal_pending: s.phase != GamePhase::Finished && in_mill(b, dest) && count(
            b,
            opponent(v.turn),
        ) > 0,
        ..s
    }
}

/// `v` with one more stone counted as placed by `v.turn`.
pub open spec fn one_more_placed(v: GameView) -> GameView {
    if v.turn == Player::One {
        GameView { placed_one: v.placed_one + 1, ..v }
    } else {
        GameView { placed_two: v.placed_two + 1, ..v }
    }
}

/// The outcome reported for an action: refused, made, or made with a mill.
pub open spec fn outcome(legal: bool, mill: bool) -> TurnOutcome {
    if !legal {
        TurnOutcome::Invalid
    } else if mill {
        TurnOutcome::Mill
    } else {
        TurnOutcome::Done
    }
}

/// The game is open for a placement or a move by `v.turn`.
pub open spec fn may_act(v: GameView) -> bool {
    v.phase != GamePhase::Finished && !v.removal_pending
}

/// `v.turn` may put a stone on `x`: it has stones left to place and `x`
/// is an empty point.
pub open spec fn placement_legal(v: GameView, x: int) -> bool {
    &&& may_act(v)
    &&& v.phase == GamePhase::Placement
    &&& placed_by(v, v.turn) < STONES_PER_PLAYER
    &&& can_place(v.board, x)
}

/// The player to move is down to three stones and may jump.
pub open spec fn may_fly(v: GameView) -> bool {
    count(v.board, v.turn) == 3
}

/// `v.turn` may move its stone from `x` to `y`: a jump for a player with
/// three stones, a slide along the board for one with more.
pub open spec fn move_legal(v: GameView, x: int, y: int) -> bool {
    &&& may_act(v)
    &&& (v.phase == GamePhase::Sliding || v.phase == GamePhase::Flying)
    &&& if may_fly(v) {
        can_jump(v.board, x, y, v.turn)
    } else {
        can_slide(v.board, x, y, v.turn)
    }
}

/// A stone of `v.turn` on `x` may be taken off after the opponent's mill.
pub open spec fn removal_legal(v: GameView, x: int) -> bool {
    v.removal_pending && v.turn != Player::Nobody && 0 <= x < 24 && v.board[x] == v.turn
}

/// The state after the stone on `x` was taken off.
pub open spec fn removed(v: GameView, x: int) -> GameView {
    settled(
        GameView { board: v.board.update(x, Player::Nobody), removal_pending: false, ..v },
    )
}

/// The facts every game keeps: a player is to act, no player has placed
/// more than its stones, the game is over exactly when a winner is
/// recorded, and an ended game awaits nothing.
pub open spec fn consistent(v: GameView) -> bool {
    &&& v.board.len() == 24
    &&& (v.turn == Player::One || v.turn == Player::Two)
    &&& v.placed_one <= STONES_PER_PLAYER
    &&& v.placed_two <= STONES_PER_PLAYER
    &&& (v.phase == GamePhase::Finished) == (v.winner != Player::Nobody)
    &&& (v.phase == GamePhase::Finished ==> !v.removal_pending)
}

/// Once both players have put all their stones and each has nine on the
/// board, placement is over and the game slides.
pub proof fn lemma_nine_placed_each_starts_sliding(v: GameView)
    requires
        v.phase == GamePhase::Placement,
        placement_done(v),
        count(v.board, Player::One) == 9,
        count(v.board, Player::Two) == 9,
    ensures
        settled(v).phase == GamePhase::Sliding,
{
}

/// A player left with fewer than three stones loses: the game ends with
/// the opponent, who has three or more, as winner.
pub proof fn lemma_fewer_than_three_loses(v: GameView, p: Player)
    requires
        v.phase != GamePhase::Finished,
        p == Player::One || p == Player::Two,
        stones_left(v, p) < 3,
        stones_left(v, opponent(p)) >= 3,
    ensures
        settled(v).phase == GamePhase::Finished,
        settled(v).winner == opponent(p),
{
}

/// Turn, phase and winner: everything of a game but the board.
#[derive(Clone, Copy)]
struct Status {
    phase: GamePhase,
    turn: Player,
    winner: Player,
    removal_pending: bool,
    placed_one: u8,
    placed_two: u8,
}

/// The game made of `board` and `s`.
closed spec fn game_view(board: Seq<Player>, s: Status) -> GameView {
    GameView {
        board,
        phase: s.phase,
        turn: s.turn,
        winner: s.winner,
        removal_pending: s.removal_pending,
        placed_one: s.placed_one as nat,
        placed_two: s.placed_two as nat,
    }
}

/// A game: the board and the turn, phase and winner around it.
pub struct GameController {
    board: Board,
    status: Status,
}

impl View for GameController {
    type V = GameView;

    closed spec fn view(&self) -> GameView {
        game_view(self.board@, self.status)
    }
}

impl GameController {
    /// Every game is consistent.
    #[verifier::type_invariant]
    pub open spec fn is_consistent(self) -> bool {
        consistent(self@)
    }

    /// A new game: empty board, placement phase, player one to act.
    pub fn new() -> (r: GameController)
        ensures
            r@ == (GameView {
                board: Seq::new(24, |i: int| Player::Nobody),
                phase: GamePhase::Placement,
                turn: Player::One,
                winner: Player::Nobody,
                removal_pending: false,
                placed_one: 0,
                placed_two: 0,
            }),
    {
        GameController {
            board: Board::new(),
            status: Status {
                phase: GamePhase::Placement,
                turn: Player::One,
                winner: Player::Nobody,
                removal_pending: false,
                placed_one: 0,
                placed_two: 0,
            },
        }
    }

    /// `s` with phase and winner brought up to date with this board.
    fn settle(&self, s: Status) -> (r: Status)
        ensures
            game_view(self.board@, r) == settled(game_view(self.board@, s)),
    {
        let c1 = self.board.number_of_stones(Player::One) as u16;
        let c2 = self.board.number_of_stones(Player::Two) as u16;
        // stones left below three, or exactly three, without leaving u16
        let short1 = c1 + 9 < s.placed_one as u16 + 3;
        let short2 = c2 + 9 < s.placed_two as u16 + 3;
        let three = c1 + 9 == s.placed_one as u16 + 3 || c2 + 9 == s.placed_two as u16 + 3;
        let done = s.placed_one == STONES_PER_PLAYER && s.placed_two == STONES_PER_PLAYER;
        let phase = if s.phase == GamePhase::Finished || short1 || short2 {
            GamePhase::Finished
        } else if s.phase == GamePhase::Placement && !done {
            GamePhase::Placement
        } else if s.phase == GamePhase::Flying || three {
            GamePhase::Flying
        } else {
            GamePhase::Sliding
        };
        let winner = if s.phase != GamePhase::Finished && (short1 || short2) {
            if short1 {
                Player::Two
            } else {
                Player::One
            }
        } else {
            s.winner
        };
        Status { phase, winner, ..s }
    }

    /// Ends a turn whose action left the board as it is now, with a stone
    /// moved to `dest`, and `s` as the status before the action.
    fn complete_turn(&mut self, s: Status, dest: u8) -> (r: TurnOutcome)
        requires
            consistent(game_view(old(self).board@, s)),
        ensures
            final(self)@ == completed(game_view(old(self).board@, s), old(self).board@, dest as int),
            r == outcome(true, in_mill(old(self).board@, dest as int)),
    {
        let mill = self.board.is_part_of_mill(dest);
        let settled = self.settle(s);
        let next = s.turn.opponent();
        let pending = settled.phase != GamePhase::Finished && mill
            && self.board.number_of_stones(next) > 0;
        self.status = Status { turn: next, removal_pending: pending, ..settled };
        if mill {
            TurnOutcome::Mill
        } else {
            TurnOutcome::Done
        }
    }

    /// The player to act: puts a stone on `x`. Allowed in the placement
    /// phase, with no removal awaited, while the player has stones left to
    /// place, on an empty point of the board.
    pub fn place(&mut self, x: u8) -> (r: TurnOutcome)
        ensures
            r == outcome(
                placement_legal(old(self)@, x as int),
                in_mill(old(self)@.board.update(x as int, old(self)@.turn), x as int),
            ),
            placement_legal(old(self)@, x as int) ==> final(self)@ == completed(
                one_more_placed(old(self)@),
                old(self)@.board.update(x as int, old(self)@.turn),
                x as int,
            ),
            !placement_legal(old(self)@, x as int) ==> final(self)@ == old(self)@,
    {
        proof {
            use_type_invariant(&*self);
        }
        let s = self.status;
        if s.phase != GamePhase::Placement || s.removal_pending {
            return TurnOutcome::Invalid;
        }
        let placed = if s.turn == Player::One {
            s.placed_one
        } else {
            s.placed_two
        };
        if placed >= STONES_PER_PLAYER {
            return TurnOutcome::Invalid;
        }
        if !self.board.place(x, s.turn) {
            return TurnOutcome::Invalid;
        }
        let counted = if s.turn == Player::One {
            Status { placed_one: s.placed_one + 1, ..s }
        } else {
            Status { placed_two: s.placed_two + 1, ..s }
        };
        self.complete_turn(counted, x)
    }

    /// The player to act: moves a stone from `x` to `y`. Allowed in the
    /// sliding and flying phases with no removal awaited; a player with
    /// three stones jumps to any empty point, one with more slides along
    /// the board.
    pub fn move_stone(&mut self, x: u8, y: u8) -> (r: TurnOutcome)
        ensures
            r == outcome(
                move_legal(old(self)@, x as int, y as int),
                in_mill(jumped(old(self)@.board, x as int, y as int, old(self)@.turn), y as int),
            ),
            move_legal(old(self)@, x as int, y as int) ==> final(self)@ == completed(
                old(self)@,
                jumped(old(self)@.board, x as int, y as int, old(self)@.turn),
                y as int,
            ),
            !move_legal(old(self)@, x as int, y as int) ==> final(self)@ == old(self)@,
    {
        proof {
            use_type_invariant(&*self);
        }
        let s = self.status;
        if !(s.phase == GamePhase::Sliding || s.phase == GamePhase::Flying) || s.removal_pending {
            return TurnOutcome::Invalid;
        }
        let made = if self.board.number_of_stones(s.turn) == 3 {
            self.board.jump(x, y, s.turn)
        } else {
            self.board.mv(x, y, s.turn)
        };
        if !made {
            return TurnOutcome::Invalid;
        }
        self.complete_turn(s, y)
    }

    /// After a mill: takes the stone on `x`, which must belong to the player
    /// to act, off the board, then settles the phase (a player left with
    /// fewer than three stones loses). The turn does not pass. Returns
    /// whether the stone was taken; a refused removal changes nothing.
    pub fn remove(&mut self, x: u8) -> (r: bool)
        ensures
            r == removal_legal(old(self)@, x as int),
            r ==> final(self)@ == removed(old(self)@, x as int),
            !r ==> final(self)@ == old(self)@,
    {
        proof {
            use_type_invariant(&*self);
        }
        let s = self.status;
        if !s.removal_pending {
            return false;
        }
        if !self.board.remove(x, s.turn) {
            return false;
        }
        let settled = self.settle(Status { removal_pending: false, ..s });
        self.status = settled;
        true
    }

    /// The current phase.
    pub fn phase(&self) -> (r: GamePhase)
        ensures
            r == self@.phase,
    {
        self.status.phase
    }

    /// The player whose action comes next.
    pub fn active_player(&self) -> (r: Player)
        ensures
            r == self@.turn,
    {
        self.status.turn
    }

    /// The winner; `Nobody` while the game goes on.
    pub fn winner(&self) -> (r: Player)
        ensures
            r == self@.winner,
    {
        self.status.winner
    }

    /// A mill was closed and a stone of the player to act must be removed
    /// before anything else.
    pub fn removal_pending(&self) -> (r: bool)
        ensures
            r == self@.removal_pending,
    {
        self.status.removal_pending
    }

    /// Stones `p` has put on the board so far.
    pub fn placed(&self, p: Player) -> (r: u8)
        ensures
            r == placed_by(self@, p),
    {
        match p {
            Player::One => self.status.placed_one,
            Player::Two => self.status.placed_two,
            Player::Nobody => 0,
        }
    }

    /// The player to act is down to three stones and jumps instead of sliding.
    pub fn may_fly(&self) -> (r: bool)
        ensures
            r == may_fly(self@),
    {
        self.board.number_of_stones(self.status.turn) == 3
    }

    /// The board, for reading.
    pub fn board(&self) -> (r: &Board)
        ensures
            r@ == self@.board,
    {
        &self.board
    }
}

} // verus!
