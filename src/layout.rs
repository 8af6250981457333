//! The fixed geometry of the board: 24 points on three concentric squares
//! joined by spokes at the midpoints, numbered row by row from the top left.
//!
//! ```text
//!  0----------1----------2
//!  |   3------4------5   |
//!  |   |   6--7--8   |   |
//!  9--10--11     12--13--14
//!  |   |  15--16--17 |   |
//!  |  18-----19-----20   |
//! 21---------22---------23
//! ```
use vstd::prelude::*;

verus! {

/// The points reachable from `x` by a single slide.
pub open spec fn neighbors(x: int) -> Set<int> {
    if x == 0 { set![1, 9] }
    else if x == 1 { set![0, 2, 4] }
    else if x == 2 { set![1, 14] }
    else if x == 3 { set![10, 4] }
    else if x == 4 { set![3, 5, 7, 1] }
    else if x == 5 { set![4, 13] }
    else if x == 6 { set![11, 7] }
    else if x == 7 { set![6, 4, 8] }
    else if x == 8 { set![7, 12] }
    else if x == 9 { set![0, 10, 21] }
    else if x == 10 { set![9, 3, 18, 11] }
    else if x == 11 { set![6, 10, 15] }
    else if x == 12 { set![8, 13, 17] }
    else if x == 13 { set![12, 5, 14, 20] }
    else if x == 14 { set![13, 2, 23] }
    else if x == 15 { set![11, 16] }
    else if x == 16 { set![15, 19, 17] }
    else if x == 17 { set![16, 12] }
    else if x == 18 { set![10, 19] }
    else if x == 19 { set![18, 16, 20, 22] }
    else if x == 20 { set![19, 13] }
    else if x == 21 { set![9, 22] }
    else if x == 22 { set![21, 19, 23] }
    else if x == 23 { set![22, 14] }
    else { Set::empty() }
}

/// `y` is directly connected to `x` on the board.
pub open spec fn adjacent(x: int, y: int) -> bool {
    neighbors(x).contains(y)
}

/// The points of the `m`-th winning line, for `0 <= m < 16`.
pub open spec fn mill_line(m: int) -> Seq<int> {
    if m == 0 { seq![0, 1, 2] }
    else if m == 1 { seq![3, 4, 5] }
    else if m == 2 { seq![6, 7, 8] }
    else if m == 3 { seq![15, 16, 17] }
    else if m == 4 { seq![18, 19, 20] }
    else if m == 5 { seq![21, 22, 23] }
    else if m == 6 { seq![0, 9, 21] }
    else if m == 7 { seq![3, 10, 18] }
    else if m == 8 { seq![6, 11, 15] }
    else if m == 9 { seq![8, 12, 17] }
    else if m == 10 { seq![5, 13, 20] }
    else if m == 11 { seq![2, 14, 23] }
    else if m == 12 { seq![1, 4, 7] }
    else if m == 13 { seq![12, 13, 14] }
    else if m == 14 { seq![16, 19, 22] }
    else { seq![9, 10, 11] }
}

/// Adjacency is symmetric: a stone can slide back the way it came.
pub proof fn lemma_adjacency_symmetric(x: int, y: int)
    ensures
        adjacent(x, y) == adjacent(y, x),
{
}

} // verus!
