//! Stone occupancy of the 24 points, and the legality checks and moves
//! that work against the fixed adjacency and mill tables.
use vstd::prelude::*;

use crate::layout::{adjacent, mill_line};

verus! {

/// The player who moves after `p`.
pub open spec fn opponent(p: Player) -> Player {
    match p {
        Player::Nobody => Player::Nobody,
        Player::One => Player::Two,
        Player::Two => Player::One,
    }
}

/// Number of points of `s` held by `p`.
pub open spec fn count(s: Seq<Player>, p: Player) -> nat
    decreases s.len(),
{
    if s.len() == 0 {
        0
    } else {
        count(s.drop_last(), p) + if s.last() == p {
            1nat
        } else {
            0nat
        }
    }
}

/// The occupant of point `x`; an index off the board reads as empty.
pub open spec fn occupant_of(s: Seq<Player>, x: int) -> Player {
    if 0 <= x < 24 {
        s[x]
    } else {
        Player::Nobody
    }
}

/// A stone may be put on `x`: it is a point of the board and empty.
pub open spec fn can_place(s: Seq<Player>, x: int) -> bool {
    0 <= x < 24 && s[x] == Player::Nobody
}

/// The occupancy after `place(x, p)`, whether it succeeded or not.
pub open spec fn placed(s: Seq<Player>, x: int, p: Player) -> Seq<Player> {
    if can_place(s, x) {
        s.update(x, p)
    } else {
        s
    }
}

/// `p` may move its stone from `x` to any empty point `y`.
pub open spec fn can_jump(s: Seq<Player>, x: int, y: int, p: Player) -> bool {
    &&& 0 <= x < 24
    &&& 0 <= y < 24
    &&& x != y
    &&& s[y] == Player::Nobody
    &&& s[x] == p
}

/// `p` may slide its stone from `x` to the connected empty point `y`.
pub open spec fn can_slide(s: Seq<Player>, x: int, y: int, p: Player) -> bool {
    adjacent(x, y) && can_jump(s, x, y, p)
}

/// The occupancy after the stone of `p` went from `x` to `y`.
pub open spec fn jumped(s: Seq<Player>, x: int, y: int, p: Player) -> Seq<Player> {
    s.update(x, Player::Nobody).update(y, p)
}

/// `p` holds all three points of winning line `m`.
pub open spec fn line_owned(s: Seq<Player>, m: int, p: Player) -> bool {
    forall|k: int| 0 <= k < 3 ==> s[#[trigger] mill_line(m)[k]] == p
}

/// Winning line `m` is held in full by one player.
pub open spec fn line_full(s: Seq<Player>, m: int) -> bool {
    let p = s[mill_line(m)[0]];
    p != Player::Nobody && line_owned(s, m, p)
}

/// The stone on `x` lies on a winning line whose three points all belong
/// to the stone's owner.
pub open spec fn in_mill(s: Seq<Player>, x: int) -> bool {
    &&& 0 <= x < 24
    &&& s[x] != Player::Nobody
    &&& exists|m: int| 0 <= m < 16 && #[trigger] mill_line(m).contains(x) && line_owned(s, m, s[x])
}

/// The character that stands for the occupant of a point in a drawing.
pub open spec fn piece_of(p: Player) -> Seq<char> {
    match p {
        Player::Nobody => seq!['0'],
        Player::One => seq!['1'],
        Player::Two => seq!['2'],
    }
}

/// Counting after one point changed hands.
pub proof fn lemma_count_update(s: Seq<Player>, i: int, v: Player, p: Player)
    requires
        0 <= i < s.len(),
    ensures
        count(s.update(i, v), p) + (if s[i] == p { 1int } else { 0int }) == count(s, p) + (if v
            == p {
            1int
        } else {
            0int
        }),
    decreases s.len(),
{
    let t = s.update(i, v);
    if i < s.len() - 1 {
        assert(t.drop_last() =~= s.drop_last().update(i, v));
        lemma_count_update(s.drop_last(), i, v, p);
    } else {
        assert(t.drop_last() =~= s.drop_last());
    }
}

/// A stone count never exceeds the number of points.
pub proof fn lemma_count_bound(s: Seq<Player>, p: Player)
    ensures
        count(s, p) <= s.len(),
    decreases s.len(),
{
    if s.len() > 0 {
        lemma_count_bound(s.drop_last(), p);
    }
}

/// Placing a stone twice on the same point: the second attempt is refused
/// and the board stays as the first attempt left it.
pub proof fn lemma_place_twice_refused(s: Seq<Player>, x: int, p: Player)
    requires
        s.len() == 24,
        p != Player::Nobody,
    ensures
        !can_place(placed(s, x, p), x),
        placed(placed(s, x, p), x, p) == placed(s, x, p),
{
}

/// After a jump the origin is empty, the destination holds the mover's
/// stone, and the mover has as many stones as before.
pub proof fn lemma_jump_keeps_count(s: Seq<Player>, x: int, y: int, p: Player)
    requires
        s.len() == 24,
        can_jump(s, x, y, p),
    ensures
        occupant_of(jumped(s, x, y, p), x) == Player::Nobody,
        occupant_of(jumped(s, x, y, p), y) == p,
        count(jumped(s, x, y, p), p) == count(s, p),
{
    let t = s.update(x, Player::Nobody);
    lemma_count_update(s, x, Player::Nobody, p);
    lemma_count_update(t, y, p, p);
}

/// An empty point is never part of a mill.
pub proof fn lemma_empty_point_not_in_mill(s: Seq<Player>, x: int)
    requires
        occupant_of(s, x) == Player::Nobody,
    ensures
        !in_mill(s, x),
{
}

/// Who owns a point (or a game): `Nobody` marks an empty point, or no winner.
#[derive(Clone, Copy, Debug, PartialEq, Eq, Structural)]
pub enum Player {
    Nobody,
    One,
    Two,
}

impl Player {
    /// The other player; `Nobody` has no opponent.
    pub fn opponent(&self) -> (r: Player)
        ensures
            r == opponent(*self),
    {
        match *self {
            Player::Nobody => Player::Nobody,
            Player::One => Player::Two,
            Player::Two => Player::One,
        }
    }

    /// The name under which the player is shown.
    pub fn name(&self) -> (r: &'static str)
        ensures
            r@ == match *self {
                Player::Nobody => "None (Draw)"@,
                Player::One => "Player One"@,
                Player::Two => "Player Two"@,
            },
    {
        match *self {
            Player::Nobody => "None (Draw)",
            Player::One => "Player One",
            Player::Two => "Player Two",
        }
    }
}

/// The board: the adjacency table, the winning lines and who holds each point.
pub struct Board {
    allowed_moves: Vec<Vec<u8>>,
    possible_mills: Vec<Vec<u8>>,
    stones: Vec<Player>,
}

impl View for Board {
    type V = Seq<Player>;

    /// The occupant of each of the 24 points.
    closed spec fn view(&self) -> Seq<Player> {
        self.stones@
    }
}

impl Board {
    #[verifier::type_invariant]
    closed spec fn tables_fixed(self) -> bool {
        &&& self.stones@.len() == 24
        &&& self.allowed_moves@.len() == 24
        &&& forall|x: int, y: u8|
            0 <= x < 24 ==> (#[trigger] self.allowed_moves@[x]@.contains(y) <==> adjacent(
                x,
                y as int,
            ))
        &&& self.possible_mills@.len() == 16
        &&& forall|m: int| 0 <= m < 16 ==> (#[trigger] self.possible_mills@[m]@).len() == 3
        &&& forall|m: int, k: int|
            0 <= m < 16 && 0 <= k < 3 ==> {
                &&& #[trigger] self.possible_mills@[m]@[k] < 24
                &&& self.possible_mills@[m]@[k] as int == mill_line(m)[k]
            }
    }

    /// A new, empty board.
    pub fn new() -> (r: Board)
        ensures
            r@ == Seq::new(24, |i: int| Player::Nobody),
    {
        let mut allowed_moves: Vec<Vec<u8>> = Vec::new();
        allowed_moves.push(vec![1, 9]);
        allowed_moves.push(vec![0, 2, 4]);
        allowed_moves.push(vec![1, 14]);
        allowed_moves.push(vec![10, 4]);
        allowed_moves.push(vec![3, 5, 7, 1]);
        allowed_moves.push(vec![4, 13]);
        allowed_moves.push(vec![11, 7]);
        allowed_moves.push(vec![6, 4, 8]);
        allowed_moves.push(vec![7, 12]);
        allowed_moves.push(vec![0, 10, 21]);
        allowed_moves.push(vec![9, 3, 18, 11]);
        allowed_moves.push(vec![6, 10, 15]);
        allowed_moves.push(vec![8, 13, 17]);
        allowed_moves.push(vec![12, 5, 14, 20]);
        allowed_moves.push(vec![13, 2, 23]);
        allowed_moves.push(vec![11, 16]);
        allowed_moves.push(vec![15, 19, 17]);
        allowed_moves.push(vec![16, 12]);
        allowed_moves.push(vec![10, 19]);
        allowed_moves.push(vec![18, 16, 20, 22]);
        allowed_moves.push(vec![19, 13]);
        allowed_moves.push(vec![9, 22]);
        allowed_moves.push(vec![21, 19, 23]);
        allowed_moves.push(vec![22, 14]);

        let mut possible_mills: Vec<Vec<u8>> = Vec::new();
        possible_mills.push(vec![0, 1, 2]);
        possible_mills.push(vec![3, 4, 5]);
        possible_mills.push(vec![6, 7, 8]);
        possible_mills.push(vec![15, 16, 17]);
        possible_mills.push(vec![18, 19, 20]);
        possible_mills.push(vec![21, 22, 23]);
        possible_mills.push(vec![0, 9, 21]);
        possible_mills.push(vec![3, 10, 18]);
        possible_mills.push(vec![6, 11, 15]);
        possible_mills.push(vec![8, 12, 17]);
        possible_mills.push(vec![5, 13, 20]);
        possible_mills.push(vec![2, 14, 23]);
        possible_mills.push(vec![1, 4, 7]);
        possible_mills.push(vec![12, 13, 14]);
        possible_mills.push(vec![16, 19, 22]);
        possible_mills.push(vec![9, 10, 11]);

        let stones: Vec<Player> = vec![Player::Nobody; 24];
        assert(stones@ == Seq::new(24, |i: int| Player::Nobody));
        Board { allowed_moves, possible_mills, stones }
    }

    /// `y` is directly connected to `x`; an index off the board has no neighbours.
    pub fn allowed_move(&self, x: u8, y: u8) -> (r: bool)
        ensures
            r == adjacent(x as int, y as int),
        no_unwind
    {
        proof {
            use_type_invariant(self);
        }
        if x >= 24 {
            return false;
        }
        let row = &self.allowed_moves[x as usize];
        assert(row@.contains(y) <==> adjacent(x as int, y as int));
        let mut i: usize = 0;
        while i < row.len()
            invariant
                row@.contains(y) <==> adjacent(x as int, y as int),
                forall|j: int| 0 <= j < i ==> row@[j] != y,
            decreases row.len() - i,
        {
            if row[i] == y {
                assert(row@.contains(y));
                return true;
            }
            i += 1;
        }
        assert(!row@.contains(y));
        false
    }

    /// Who holds point `x` (`Nobody` if it is empty or off the board).
    pub fn occupant(&self, x: u8) -> (r: Player)
        ensures
            r == occupant_of(self@, x as int),
            self@.len() == 24,
        no_unwind
    {
        proof {
            use_type_invariant(self);
        }
        if x >= 24 {
            return Player::Nobody;
        }
        self.stones[x as usize]
    }

    /// Point `x` holds a stone.
    pub fn is_occupied(&self, x: u8) -> (r: bool)
        ensures
            r == (occupant_of(self@, x as int) != Player::Nobody),
        no_unwind
    {
        self.occupant(x) != Player::Nobody
    }

    /// Puts a stone of `p` on `x` if `x` is an empty point of the board;
    /// otherwise changes nothing. Returns whether the stone was put.
    pub fn place(&mut self, x: u8, p: Player) -> (r: bool)
        ensures
            r == can_place(old(self)@, x as int),
            final(self)@ == placed(old(self)@, x as int, p),
        no_unwind
    {
        proof {
            use_type_invariant(&*self);
        }
        if x >= 24 {
            return false;
        }
        if self.is_occupied(x) {
            return false;
        }
        self.stones[x as usize] = p;
        true
    }

    /// Moves the stone of `p` from `x` to the empty point `y`, which must be
    /// directly connected to `x`. Returns whether the move was made; a
    /// refused move changes nothing.
    pub fn mv(&mut self, x: u8, y: u8, p: Player) -> (r: bool)
        ensures
            r == can_slide(old(self)@, x as int, y as int, p),
            r ==> final(self)@ == jumped(old(self)@, x as int, y as int, p),
            !r ==> final(self)@ == old(self)@,
        no_unwind
    {
        if !self.allowed_move(x, y) {
            return false;
        }
        self.jump(x, y, p)
    }

    /// Moves the stone of `p` from `x` to any other empty point `y`.
    /// Returns whether the move was made; a refused move changes nothing.
    pub fn jump(&mut self, x: u8, y: u8, p: Player) -> (r: bool)
        ensures
            r == can_jump(old(self)@, x as int, y as int, p),
            r ==> final(self)@ == jumped(old(self)@, x as int, y as int, p),
            !r ==> final(self)@ == old(self)@,
        no_unwind
    {
        proof {
            use_type_invariant(&*self);
        }
        if x >= 24 || y >= 24 || x == y || self.is_occupied(y) || self.stones[x as usize] != p {
            return false;
        }
        self.stones[x as usize] = Player::Nobody;
        self.stones[y as usize] = p;
        true
    }

    /// Takes the stone of `p` off point `x`. Refused, with nothing changed,
    /// unless `x` is a point of the board that holds a stone of `p`.
    pub fn remove(&mut self, x: u8, p: Player) -> (r: bool)
        ensures
            r == (p != Player::Nobody && 0 <= x < 24 && old(self)@[x as int] == p),
            r ==> final(self)@ == old(self)@.update(x as int, Player::Nobody),
            !r ==> final(self)@ == old(self)@,
        no_unwind
    {
        proof {
            use_type_invariant(&*self);
        }
        if p == Player::Nobody || x >= 24 || self.stones[x as usize] != p {
            return false;
        }
        self.stones[x as usize] = Player::Nobody;
        true
    }

    /// The first winning line, in table order, whose three points all
    /// belong to one player: that player and the line's points; or
    /// `(Nobody, None)` when no line is held in full.
    pub fn get_mill(&self) -> (r: (Player, Option<Vec<u8>>))
        ensures
            match r.1 {
                Option::None => r.0 == Player::Nobody && forall|m: int|
                    0 <= m < 16 ==> !line_full(self@, m),
                Option::Some(line) => exists|m: int|
                    {
                        &&& 0 <= m < 16
                        &&& line_full(self@, m)
                        &&& forall|j: int| 0 <= j < m ==> !line_full(self@, j)
                        &&& r.0 == self@[mill_line(m)[0]]
                        &&& line@.len() == 3
                        &&& forall|k: int| 0 <= k < 3 ==> line@[k] as int == mill_line(m)[k]
                    },
            },
    {
        proof {
            use_type_invariant(self);
        }
        let mut i: usize = 0;
        while i < self.possible_mills.len()
            invariant
                self.possible_mills@.len() == 16,
                forall|j: int| 0 <= j < i ==> !line_full(self@, j),
            decreases 16 - i,
        {
            proof {
                use_type_invariant(self);
            }
            let line = &self.possible_mills[i];
            let p = self.stones[line[0] as usize];
            if p != Player::Nobody && self.stones[line[1] as usize] == p && self.stones[line[2]
                as usize] == p {
                let found = vec![line[0], line[1], line[2]];
                assert(line_full(self@, i as int));
                return (p, Some(found));
            }
            i += 1;
        }
        (Player::Nobody, None)
    }

    /// The stone on `x` is part of a mill: some winning line through `x`
    /// has all three points held by the owner of `x`. False for an empty
    /// point or an index off the board.
    pub fn is_part_of_mill(&self, x: u8) -> (r: bool)
        ensures
            r == in_mill(self@, x as int),
    {
        proof {
            use_type_invariant(self);
        }
        if x >= 24 {
            return false;
        }
        let player = self.stones[x as usize];
        if player == Player::Nobody {
            return false;
        }
        let mut i: usize = 0;
        while i < self.possible_mills.len()
            invariant
                self.possible_mills@.len() == 16,
                x < 24,
                self@.len() == 24,
                player == self@[x as int],
                player != Player::Nobody,
                forall|j: int|
                    0 <= j < i ==> !(#[trigger] mill_line(j).contains(x as int) && line_owned(
                        self@,
                        j,
                        player,
                    )),
            decreases 16 - i,
        {
            proof {
                use_type_invariant(self);
            }
            let line = &self.possible_mills[i];
            if line[0] == x || line[1] == x || line[2] == x {
                if self.stones[line[0] as usize] == player && self.stones[line[1] as usize]
                    == player && self.stones[line[2] as usize] == player {
                    assert(mill_line(i as int).contains(x as int));
                    assert forall|k: int| 0 <= k < 3 implies self@[#[trigger] mill_line(
                        i as int,
                    )[k]] == player by {
                        assert(line@[k] as int == mill_line(i as int)[k]);
                    }
                    return true;
                }
            }
            i += 1;
        }
        false
    }

    /// The character that shows who holds point `x`: `0` when empty (or off
    /// the board), `1` or `2` for the players.
    pub fn piece(&self, x: u8) -> (r: &'static str)
        ensures
            r@ == piece_of(occupant_of(self@, x as int)),
    {
        proof {
            reveal_strlit("0");
            reveal_strlit("1");
            reveal_strlit("2");
        }
        match self.occupant(x) {
            Player::Nobody => "0",
            Player::One => "1",
            Player::Two => "2",
        }
    }

    /// Number of stones of `p` on the board.
    pub fn number_of_stones(&self, p: Player) -> (r: u8)
        ensures
            r == count(self@, p),
            self@.len() == 24,
    {
        proof {
            use_type_invariant(self);
        }
        let mut cnt: u8 = 0;
        let mut i: usize = 0;
        while i < self.stones.len()
            invariant
                self.stones@.len() == 24,
                i <= 24,
                cnt == count(self.stones@.subrange(0, i as int), p),
            decreases 24 - i,
        {
            proof {
                assert(self.stones@.subrange(0, i + 1).drop_last() =~= self.stones@.subrange(
                    0,
                    i as int,
                ));
                lemma_count_bound(self.stones@.subrange(0, i as int), p);
            }
            if self.stones[i] == p {
                cnt += 1;
            }
            i += 1;
        }
        assert(self.stones@.subrange(0, 24) =~= self.stones@);
        cnt
    }
}

} // verus!
