//! Rules engine for Nine Men's Morris: the fixed board graph, stone
//! occupancy, mill detection and the turn / phase state machine.

mod board;
mod game;
mod layout;

pub use board::{
    can_jump, can_place, can_slide, count, in_mill, jumped, lemma_count_bound, lemma_count_update,
    lemma_empty_point_not_in_mill, lemma_jump_keeps_count, lemma_place_twice_refused, line_full,
    line_owned, occupant_of, opponent, piece_of, placed, Board, Player,
};
pub use game::{
    completed, consistent, lemma_fewer_than_three_loses, lemma_nine_placed_each_starts_sliding, may_act, may_fly, move_legal, next_phase, next_winner, one_more_placed,
    outcome, placed_by, placement_done, stones_left, STONES_PER_PLAYER,
    placement_legal, removal_legal, removed, settled, GameController, GamePhase, GameView,
    TurnOutcome,
};
pub use layout::{adjacent, lemma_adjacency_symmetric, mill_line, neighbors};
