//! Utilities for AI player

use vstd::prelude::*;
use vstd::arithmetic::div_mod::{
    lemma_fundamental_div_mod,
    lemma_fundamental_div_mod_converse,
    lemma_add_mod_noop,
    lemma_mod_multiples_basic,
    lemma_small_mod,
};
use crate::gameboard::{GameBoard, BoardSpace, BoardSpaceLocation};
use crate::active_player::ActivePlayer;
use crate::game_outcome::{
    GameOutcome,
    spec_outcome,
    count_empty,
    count_empty_from,
    lemma_count_empty_update,
    lemma_count_empty_bound,
};

verus! {

broadcast use crate::gameboard::lemma_board_view_len;

/// The fixed-point unit of win scores.
///
/// A win score is a rational number in [-1, 1]: +1 for an immediate win of
/// the desired player, -1 for an immediate win of the other player, 0 for a
/// draw, and half the average of the continuation scores otherwise. Every
/// score the evaluator can produce is such a rational times this unit,
/// which equals 2^8 * 8!: the recursion halves at most 8 times and averages
/// over at most 8 continuations, so the unit clears every denominator and
/// the scaled score is always an integer.
pub const SCORE_UNIT: i64 = 10321920;

/// The score of a move whose resulting board is finished, relative to the
/// player `winning` whose wins count positively
pub open spec fn leaf_score(outcome: GameOutcome, winning: ActivePlayer) -> int {
    match outcome {
        GameOutcome::PlayerX(_) => if winning is PlayerX {
            SCORE_UNIT as int
        } else {
            -(SCORE_UNIT as int)
        },
        GameOutcome::PlayerO(_) => if winning is PlayerO {
            SCORE_UNIT as int
        } else {
            -(SCORE_UNIT as int)
        },
        _ => 0,
    }
}

/// The win score, scaled by [`SCORE_UNIT`], of the move that writes
/// `active`'s mark to the Empty space `i` of `b`, relative to the player
/// `winning` whose wins count positively.
///
/// If the move finishes the game it scores [`leaf_score`]; otherwise it
/// scores half the average of the scores of all continuation moves, made by
/// the opposite player on the resulting board.
pub open spec fn move_score(
    b: Seq<BoardSpace>,
    i: int,
    active: ActivePlayer,
    winning: ActivePlayer,
) -> int
    decreases count_empty(b) as int, 0int, 0int,
        when b.len() == 9 && 0 <= i < 9 && b[i] is Empty
{
    let b2 = b.update(i, active.spec_board_space());
    if spec_outcome(b2) is Incomplete {
        proof {
            lemma_count_empty_update(b, i, active.spec_board_space(), 0);
        }
        sum_scores(b2, active.spec_opposite(), winning, 0) / (2 * (count_empty(b2) as int))
    } else {
        leaf_score(spec_outcome(b2), winning)
    }
}

/// The sum of [`move_score`] over all moves available to `active` on `b`
/// at spaces `i` and beyond
pub open spec fn sum_scores(
    b: Seq<BoardSpace>,
    active: ActivePlayer,
    winning: ActivePlayer,
    i: int,
) -> int
    decreases count_empty(b) as int, 1int, 9 - i,
        when b.len() == 9 && 0 <= i <= 9
{
    if i >= 9 {
        0
    } else if b[i] is Empty {
        move_score(b, i, active, winning) + sum_scores(b, active, winning, i + 1)
    } else {
        sum_scores(b, active, winning, i + 1)
    }
}

/// The product of the divisors that the evaluator still applies below a
/// board with `e` Empty spaces: every score of a move on such a board is a
/// multiple of this number. It satisfies `rem_scale(9) == 1` and
/// `rem_scale(e) == 2 * e * rem_scale(e + 1)`, so `rem_scale(1) ==`
/// [`SCORE_UNIT`].
pub open spec fn rem_scale(e: int) -> int
    decreases 9 - e,
{
    if e >= 9 || e < 1 {
        1
    } else {
        2 * e * rem_scale(e + 1)
    }
}

/// `rem_scale` is always positive.
proof fn lemma_rem_scale_pos(e: int)
    ensures
        rem_scale(e) >= 1,
    decreases 9 - e,
{
    if 1 <= e < 9 {
        lemma_rem_scale_pos(e + 1);
        assert(2 * e * rem_scale(e + 1) >= 1) by (nonlinear_arith)
            requires
                e >= 1,
                rem_scale(e + 1) >= 1,
        ;
    }
}

/// The concrete values of `rem_scale`, one step at a time.
proof fn lemma_rem_scale_values()
    ensures
        rem_scale(9) == 1,
        rem_scale(8) == 16,
        rem_scale(7) == 224,
        rem_scale(6) == 2688,
        rem_scale(5) == 26880,
        rem_scale(4) == 215040,
        rem_scale(3) == 1290240,
        rem_scale(2) == 5160960,
        rem_scale(1) == SCORE_UNIT,
{
    assert(rem_scale(9) == 1);
    assert(rem_scale(8) == 2 * 8 * rem_scale(9));
    assert(rem_scale(7) == 2 * 7 * rem_scale(8));
    assert(rem_scale(6) == 2 * 6 * rem_scale(7));
    assert(rem_scale(5) == 2 * 5 * rem_scale(6));
    assert(rem_scale(4) == 2 * 4 * rem_scale(5));
    assert(rem_scale(3) == 2 * 3 * rem_scale(4));
    assert(rem_scale(2) == 2 * 2 * rem_scale(3));
    assert(rem_scale(1) == 2 * 1 * rem_scale(2));
}

/// The whole score unit is a multiple of `rem_scale(e)` for every Empty
/// count `e` a board can have.
proof fn lemma_rem_scale_divides_unit(e: int)
    requires
        1 <= e <= 9,
    ensures
        (SCORE_UNIT as int) % rem_scale(e) == 0,
    decreases e,
{
    lemma_rem_scale_pos(e);
    if e == 1 {
        lemma_rem_scale_values();
        lemma_mod_multiples_basic(1, SCORE_UNIT as int);
    } else {
        lemma_rem_scale_divides_unit(e - 1);
        lemma_rem_scale_pos(e - 1);
        let r = rem_scale(e);
        let q = (SCORE_UNIT as int) / rem_scale(e - 1);
        lemma_fundamental_div_mod(SCORE_UNIT as int, rem_scale(e - 1));
        assert(SCORE_UNIT as int == rem_scale(e - 1) * q);
        assert(rem_scale(e - 1) == 2 * (e - 1) * r);
        assert((2 * (e - 1) * r) * q == (q * (2 * (e - 1))) * r) by (nonlinear_arith);
        lemma_mod_multiples_basic(q * (2 * (e - 1)), r);
    }
}

/// Negating a multiple of `m` yields a multiple of `m`.
proof fn lemma_neg_mod(x: int, m: int)
    requires
        m >= 1,
        x % m == 0,
    ensures
        (-x) % m == 0,
{
    lemma_fundamental_div_mod(x, m);
    let q = x / m;
    assert(-x == (-q) * m + 0) by (nonlinear_arith)
        requires
            x == m * q,
    ;
    lemma_fundamental_div_mod_converse(-x, m, -q, 0);
}

/// The central facts about a move's score: it always lies in
/// [-SCORE_UNIT, SCORE_UNIT]; it is a multiple of `rem_scale(e)`, where `e`
/// is the board's Empty count; and when the move does not finish the game,
/// its score times `2 * e2` (with `e2` the continuations' board's Empty
/// count) equals the sum of the continuation scores exactly — the division
/// in [`move_score`] loses nothing.
pub proof fn lemma_move_score_props(
    b: Seq<BoardSpace>,
    i: int,
    active: ActivePlayer,
    winning: ActivePlayer,
)
    requires
        b.len() == 9,
        0 <= i < 9,
        b[i] is Empty,
    ensures
        -(SCORE_UNIT as int) <= move_score(b, i, active, winning) <= SCORE_UNIT as int,
        move_score(b, i, active, winning) % rem_scale(count_empty(b) as int) == 0,
        spec_outcome(b.update(i, active.spec_board_space())) is Incomplete ==> move_score(
            b,
            i,
            active,
            winning,
        ) * (2 * (count_empty(b.update(i, active.spec_board_space())) as int)) == sum_scores(
            b.update(i, active.spec_board_space()),
            active.spec_opposite(),
            winning,
            0,
        ),
    decreases count_empty(b) as int, 0int, 0int,
{
    let m = active.spec_board_space();
    let b2 = b.update(i, m);
    lemma_count_empty_update(b, i, m, 0);
    lemma_count_empty_bound(b, 0);
    let e = count_empty(b) as int;
    let e2 = count_empty(b2) as int;
    lemma_rem_scale_pos(e);
    let score = move_score(b, i, active, winning);
    if spec_outcome(b2) is Incomplete {
        let sum = sum_scores(b2, active.spec_opposite(), winning, 0);
        lemma_sum_scores_props(b2, active.spec_opposite(), winning, 0);
        // sum is a multiple of rem_scale(e2) == 2 * e2 * rem_scale(e)
        lemma_rem_scale_pos(e2);
        lemma_fundamental_div_mod(sum, rem_scale(e2));
        let q = sum / rem_scale(e2);
        assert(sum == rem_scale(e2) * q);
        assert(rem_scale(e2) == 2 * e2 * rem_scale(e));
        assert((2 * e2 * rem_scale(e)) * q == (rem_scale(e) * q) * (2 * e2) + 0)
            by (nonlinear_arith);
        lemma_fundamental_div_mod_converse(sum, 2 * e2, rem_scale(e) * q, 0);
        assert(score == rem_scale(e) * q);
        assert(score * (2 * e2) == sum) by (nonlinear_arith)
            requires
                sum == rem_scale(e2) * q,
                rem_scale(e2) == 2 * e2 * rem_scale(e),
                score == rem_scale(e) * q,
        ;
        // divisibility of the score itself
        assert(score % rem_scale(e) == 0) by {
            assert(q * rem_scale(e) == score) by (nonlinear_arith)
                requires
                    score == rem_scale(e) * q,
            ;
            lemma_mod_multiples_basic(q, rem_scale(e));
        }
        // bounds: |sum| <= e2 * SCORE_UNIT, so |score| <= SCORE_UNIT / 2
        assert(-(SCORE_UNIT as int) <= score <= SCORE_UNIT as int) by (nonlinear_arith)
            requires
                score * (2 * e2) == sum,
                -(e2 * (SCORE_UNIT as int)) <= sum <= e2 * (SCORE_UNIT as int),
                e2 >= 1,
                SCORE_UNIT as int >= 1,
        ;
    } else {
        assert(1 <= e <= 9);
        lemma_rem_scale_divides_unit(e);
        if score == 0 {
            lemma_small_mod(0nat, rem_scale(e) as nat);
        } else if score == -(SCORE_UNIT as int) {
            lemma_neg_mod(SCORE_UNIT as int, rem_scale(e));
        }
    }
}

/// The sum of the scores of the moves at spaces `i` and beyond is bounded
/// by the number of those moves times the score unit, and is a multiple of
/// `rem_scale` of the board's Empty count.
pub proof fn lemma_sum_scores_props(
    b: Seq<BoardSpace>,
    active: ActivePlayer,
    winning: ActivePlayer,
    i: int,
)
    requires
        b.len() == 9,
        0 <= i <= 9,
    ensures
        -((count_empty_from(b, i) as int) * (SCORE_UNIT as int)) <= sum_scores(
            b,
            active,
            winning,
            i,
        ) <= (count_empty_from(b, i) as int) * (SCORE_UNIT as int),
        sum_scores(b, active, winning, i) % rem_scale(count_empty(b) as int) == 0,
    decreases count_empty(b) as int, 1int, 9 - i,
{
    let d = rem_scale(count_empty(b) as int);
    lemma_rem_scale_pos(count_empty(b) as int);
    if i >= 9 {
        lemma_small_mod(0nat, d as nat);
    } else {
        lemma_sum_scores_props(b, active, winning, i + 1);
        if b[i] is Empty {
            lemma_move_score_props(b, i, active, winning);
            lemma_add_mod_noop(
                move_score(b, i, active, winning),
                sum_scores(b, active, winning, i + 1),
                d,
            );
            lemma_small_mod(0nat, d as nat);
        }
    }
}

/// Reasons why a turn may fail
#[derive(Debug, PartialEq, Eq, Structural, Clone, Copy)]
pub enum AiError {
    /// The provided [`GameBoard`] was already finished, and no more moves are possible
    GameFinished,
    /// The provided [`GameBoard`] was not finished, but no valid moves could be found
    NoMovesFound,
}

/// A candidate move together with its evaluated win score
#[derive(Clone, Copy)]
pub struct PossibleMove {
    new_location: BoardSpaceLocation,
    /// the win score, shifted by one [`SCORE_UNIT`] so that it is never
    /// negative: 0 stands for a sure loss, `2 * SCORE_UNIT` for a sure win
    win_score: u64,
}

/// The sum of the shifted win scores held by a sequence of moves
spec fn sum_shifted(s: Seq<PossibleMove>) -> int
    decreases s.len(),
{
    if s.len() == 0 {
        0
    } else {
        sum_shifted(s.drop_last()) + s.last().win_score
    }
}

impl PossibleMove {
    /// Every move's shifted score stays within the score range.
    #[verifier::type_invariant]
    spec fn shifted_in_range(self) -> bool {
        self.win_score <= 2 * SCORE_UNIT
    }

    /// The (scaled, signed) win score this move holds
    pub closed spec fn spec_win_score(self) -> int {
        self.win_score - SCORE_UNIT
    }

    /// The location this move would claim
    pub closed spec fn spec_location(self) -> BoardSpaceLocation {
        self.new_location
    }

    /// Creates and returns a new `PossibleMove`
    ///
    /// This constructor evaluates all sub moves from the newly created move.
    /// The process of evaluating all sub moves may take significant time; when appropriate
    /// it is usually best to reference or clone an existing `PossibleMove` instance
    pub fn new(
        board: &GameBoard,
        new_location: BoardSpaceLocation,
        active_player: &ActivePlayer,
        winning_player: &ActivePlayer,
    ) -> (r: Self)
        requires
            board@[new_location.as_int()] is Empty,
        ensures
            r.spec_location() == new_location,
            r.spec_win_score() == move_score(
                board@,
                new_location.as_int(),
                *active_player,
                *winning_player,
            ),
        decreases count_empty(board@),
    {
        let mut new_board = board.clone();
        new_board.space_mut(new_location, active_player.get_board_space());
        let ghost b2 = new_board@;
        let ghost loc = new_location.as_int();
        let ghost e2 = count_empty(b2) as int;
        proof {
            lemma_count_empty_update(board@, loc, active_player.spec_board_space(), 0);
        }

        let finished = new_board.game_outcome().game_finished();
        let ghost sub_active = active_player.spec_opposite();
        let mut sub_moves: Vec<PossibleMove> = Vec::new();
        if !finished {
            let sub_active_player = active_player.opposite();
            let locations = BoardSpaceLocation::all();
            let mut i: usize = 0;
            while i < 9
                invariant
                    i <= 9,
                    b2.len() == 9,
                    b2 == new_board@,
                    spec_outcome(b2) is Incomplete,
                    sub_active == sub_active_player,
                    e2 == count_empty(b2) as int,
                    count_empty(b2) < count_empty(board@),
                    board@[loc] is Empty,
                    b2 == board@.update(loc, active_player.spec_board_space()),
                    forall|j: int| 0 <= j < 9 ==> (#[trigger] locations@[j]).as_int() == j,
                    sub_moves@.len() == e2 - count_empty_from(b2, i as int),
                    sum_shifted(sub_moves@) == (sum_scores(b2, sub_active, *winning_player, 0)
                        - sum_scores(b2, sub_active, *winning_player, i as int)) + (e2
                        - count_empty_from(b2, i as int)) * (SCORE_UNIT as int),
                decreases 9 - i,
            {
                let sub_location = locations[i];
                if matches!(*new_board.space(sub_location), BoardSpace::Empty) {
                    let sub_move = Self::new(
                        &new_board,
                        sub_location,
                        &sub_active_player,
                        winning_player,
                    );
                    let ghost prev = sub_moves@;
                    sub_moves.push(sub_move);
                    proof {
                        assert(sub_moves@.drop_last() == prev);
                        assert(sub_moves@.last() == sub_move);
                        assert(sum_scores(b2, sub_active, *winning_player, i as int)
                            == move_score(b2, i as int, sub_active, *winning_player)
                            + sum_scores(b2, sub_active, *winning_player, i as int + 1));
                    }
                }
                i = i + 1;
            }
            proof {
                lemma_count_empty_bound(b2, 0);
            }
        }

        let win_score = Self::calculate_win_score(&sub_moves, &new_board, winning_player);
        proof {
            if !finished {
                lemma_move_score_props(board@, loc, *active_player, *winning_player);
                let score = move_score(board@, loc, *active_player, *winning_player);
                let sum = sum_scores(b2, sub_active, *winning_player, 0);
                assert(sum_shifted(sub_moves@) == sum + e2 * (SCORE_UNIT as int));
                let num = sum_shifted(sub_moves@) + e2 * (SCORE_UNIT as int);
                assert(num == (score + SCORE_UNIT) * (2 * e2) + 0) by (nonlinear_arith)
                    requires
                        num == sum + 2 * (e2 * (SCORE_UNIT as int)),
                        score * (2 * e2) == sum,
                ;
                lemma_fundamental_div_mod_converse(num, 2 * e2, score + SCORE_UNIT, 0);
                assert(win_score as int == score + SCORE_UNIT);
            }
        }
        Self { new_location, win_score }
    }

    /// Gets the win score for this `PossibleMove`
    ///
    /// Win score is an abstract value representing how likely this possible move
    /// is to result in a win for the desired player or a draw.
    ///
    /// The score is held in fixed-point form: [`SCORE_UNIT`] stands for a
    /// sure immediate win, `-SCORE_UNIT` for a sure immediate loss. The
    /// exact value isn't especially meaningful, it is most useful for
    /// comparison against other win scores from other possible moves
    pub fn win_score(&self) -> (r: i64)
        ensures
            r as int == self.spec_win_score(),
    {
        proof {
            use_type_invariant(self);
        }
        (self.win_score as i64) - SCORE_UNIT
    }

    /// Gets the preference for this `PossibleMove` when seeking a win,
    /// in shifted fixed-point form: 0 is least preferable,
    /// `2 * SCORE_UNIT` is most preferable
    fn calculate_win_score(
        sub_moves: &Vec<PossibleMove>,
        board: &GameBoard,
        winning_player: &ActivePlayer,
    ) -> (r: u64)
        requires
            sub_moves@.len() <= 9,
        ensures
            r as int == if sub_moves@.len() > 0 {
                (sum_shifted(sub_moves@) + sub_moves@.len() * (SCORE_UNIT as int)) / (2
                    * sub_moves@.len() as int)
            } else {
                leaf_score(spec_outcome(board@), *winning_player) + SCORE_UNIT
            },
    {
        let sub_move_count = sub_moves.len();
        if sub_move_count > 0 {
            // if there are sub moves, return half the average of their
            // shifted scores; averaging the shifted scores and shifting the
            // midpoint back in keeps the value in shifted form while halving
            // the distance from the neutral score, which de-emphasizes
            // distant moves
            let mut total: u64 = 0;
            let mut k: usize = 0;
            while k < sub_move_count
                invariant
                    k <= sub_move_count,
                    sub_move_count == sub_moves@.len(),
                    sub_move_count <= 9,
                    total as int == sum_shifted(sub_moves@.take(k as int)),
                    total as int <= k * 2 * (SCORE_UNIT as int),
                decreases sub_move_count - k,
            {
                let sub_move = sub_moves[k];
                proof {
                    use_type_invariant(&sub_move);
                    assert(sub_moves@.take(k as int + 1).drop_last() == sub_moves@.take(
                        k as int,
                    ));
                    assert(sub_moves@.take(k as int + 1).last() == sub_moves@[k as int]);
                }
                total = total + sub_move.win_score;
                k = k + 1;
            }
            proof {
                assert(sub_moves@.take(sub_move_count as int) == sub_moves@);
            }
            (total + (sub_move_count as u64) * (SCORE_UNIT as u64)) / (2 * sub_move_count
                as u64)
        } else {
            match board.game_outcome() {
                GameOutcome::PlayerX(_) => {
                    match winning_player {
                        ActivePlayer::PlayerX => 2 * (SCORE_UNIT as u64),
                        ActivePlayer::PlayerO => 0,
                    }
                },
                GameOutcome::PlayerO(_) => {
                    match winning_player {
                        ActivePlayer::PlayerX => 0,
                        ActivePlayer::PlayerO => 2 * (SCORE_UNIT as u64),
                    }
                },
                // Incomplete and Draw always get the neutral score
                _ => SCORE_UNIT as u64,
            }
        }
    }

    /// Returns the [`BoardSpaceLocation`] associated with this possible move
    pub fn new_location(&self) -> (r: &BoardSpaceLocation)
        ensures
            *r == self.spec_location(),
    {
        &self.new_location
    }
}

/// The index of the `k`-th Empty space of `b` at or after `i`, counting
/// from zero; 9 when there is no such space
pub open spec fn empty_index_from(b: Seq<BoardSpace>, i: int, k: int) -> int
    decreases 9 - i,
{
    if i < 0 || i >= 9 {
        9
    } else if b[i] is Empty {
        if k <= 0 {
            i
        } else {
            empty_index_from(b, i + 1, k - 1)
        }
    } else {
        empty_index_from(b, i + 1, k)
    }
}

/// The index of the `k`-th Empty space of `b`, counting from zero
pub open spec fn empty_index(b: Seq<BoardSpace>, k: int) -> int {
    empty_index_from(b, 0, k)
}

/// The `k`-th Empty index names an Empty space, for every `k` below the
/// Empty count.
pub proof fn lemma_empty_index_props(b: Seq<BoardSpace>, i: int, k: int)
    requires
        0 <= i <= 9,
        0 <= k < count_empty_from(b, i),
    ensures
        i <= empty_index_from(b, i, k) < 9,
        b[empty_index_from(b, i, k)] is Empty,
    decreases 9 - i,
{
    if i < 9 {
        if b[i] is Empty {
            if k > 0 {
                lemma_empty_index_props(b, i + 1, k - 1);
            }
        } else {
            lemma_empty_index_props(b, i + 1, k);
        }
    }
}

/// An Empty space at `i` is the `c`-th Empty space counting from `j`,
/// where `c` is the number of Empty spaces in `[j, i)`.
proof fn lemma_empty_index_locate(b: Seq<BoardSpace>, j: int, i: int)
    requires
        0 <= j <= i < 9,
        b[i] is Empty,
    ensures
        empty_index_from(b, j, count_empty_from(b, j) - count_empty_from(b, i)) == i,
    decreases i - j,
{
    if j < i {
        lemma_empty_index_locate(b, j + 1, i);
        crate::game_outcome::lemma_count_empty_mono(b, j + 1, i);
    }
}

/// What it means for `s` to be the candidate list of board `b` for
/// `perspective`: one entry per Empty space, in enumeration order, each
/// holding that move's [`move_score`].
pub open spec fn is_candidate_list(
    b: Seq<BoardSpace>,
    perspective: ActivePlayer,
    s: Seq<PossibleMove>,
) -> bool {
    &&& s.len() == count_empty(b)
    &&& forall|k: int|
        0 <= k < s.len() ==> (#[trigger] s[k]).spec_location().as_int() == empty_index(b, k)
    &&& forall|k: int|
        0 <= k < s.len() ==> (#[trigger] s[k]).spec_win_score() == move_score(
            b,
            empty_index(b, k),
            perspective,
            perspective,
        )
}

/// Scores every legal move on the given board
///
/// A legal move writes the mark of the player currently to act onto an
/// Empty space. `perspective` is both the player to act and the player
/// whose wins score positively. The returned list holds one entry per
/// Empty space of the board, in the enumeration order of
/// [`BoardSpaceLocation::all`], unsorted.
///
/// Callers must check that the game is not finished before asking for
/// moves; on a finished board there is nothing to evaluate.
pub fn evaluate_moves(board: &GameBoard, perspective: &ActivePlayer) -> (r: Vec<PossibleMove>)
    requires
        spec_outcome(board@) is Incomplete,
    ensures
        is_candidate_list(board@, *perspective, r@),
{
    let locations = BoardSpaceLocation::all();
    let mut moves: Vec<PossibleMove> = Vec::new();
    let mut i: usize = 0;
    while i < 9
        invariant
            i <= 9,
            board@.len() == 9,
            spec_outcome(board@) is Incomplete,
            moves@.len() == count_empty(board@) - count_empty_from(board@, i as int),
            forall|k: int|
                0 <= k < moves@.len() ==> (#[trigger] moves@[k]).spec_location().as_int()
                    == empty_index(board@, k),
            forall|k: int|
                0 <= k < moves@.len() ==> (#[trigger] moves@[k]).spec_win_score() == move_score(
                    board@,
                    empty_index(board@, k),
                    *perspective,
                    *perspective,
                ),
            forall|j: int| 0 <= j < 9 ==> (#[trigger] locations@[j]).as_int() == j,
        decreases 9 - i,
    {
        proof {
            crate::game_outcome::lemma_count_empty_mono(board@, 0, i as int);
        }
        let location = locations[i];
        if matches!(*board.space(location), BoardSpace::Empty) {
            proof {
                lemma_empty_index_locate(board@, 0, i as int);
            }
            let possible_move = PossibleMove::new(board, location, perspective, perspective);
            moves.push(possible_move);
        }
        i = i + 1;
    }
    moves
}

/// Law: the evaluator is a pure function. Its contract pins the candidate
/// list completely, so any two lists that satisfy it for the same board and
/// perspective are equal, elements and order included.
pub proof fn lemma_candidate_list_deterministic(
    b: Seq<BoardSpace>,
    perspective: ActivePlayer,
    r1: Seq<PossibleMove>,
    r2: Seq<PossibleMove>,
)
    requires
        is_candidate_list(b, perspective, r1),
        is_candidate_list(b, perspective, r2),
    ensures
        r1 == r2,
{
    assert forall|k: int| 0 <= k < r1.len() implies r1[k] == r2[k] by {
        assert(r1[k].spec_location().as_int() == r2[k].spec_location().as_int());
        assert(r1[k].new_location == r2[k].new_location);
        assert(r1[k].spec_win_score() == r2[k].spec_win_score());
        assert(r1[k].win_score == r2[k].win_score);
    };
    assert(r1 =~= r2);
}

/// Law: for every board and every perspective, each score the evaluator
/// returns lies within [-SCORE_UNIT, SCORE_UNIT], the scaled form of the
/// range [-1, 1].
pub proof fn lemma_candidate_scores_bounded(
    b: Seq<BoardSpace>,
    perspective: ActivePlayer,
    s: Seq<PossibleMove>,
)
    requires
        b.len() == 9,
        is_candidate_list(b, perspective, s),
    ensures
        forall|k: int|
            0 <= k < s.len() ==> -(SCORE_UNIT as int) <= (#[trigger] s[k]).spec_win_score()
                <= SCORE_UNIT as int,
{
    assert forall|k: int|
        0 <= k < s.len() implies -(SCORE_UNIT as int) <= (#[trigger] s[k]).spec_win_score()
        <= SCORE_UNIT as int by {
        lemma_empty_index_props(b, 0, k);
        lemma_move_score_props(b, empty_index(b, k), perspective, perspective);
    };
}

/// Law: a move that finishes the game scores exactly one unit when it wins
/// the game for the desired player, exactly minus one unit when it wins the
/// game for the other player, and exactly zero when it fills the board with
/// no winner.
pub proof fn lemma_terminal_move_score(
    b: Seq<BoardSpace>,
    i: int,
    active: ActivePlayer,
    winning: ActivePlayer,
)
    requires
        b.len() == 9,
        0 <= i < 9,
        b[i] is Empty,
        !(spec_outcome(b.update(i, active.spec_board_space())) is Incomplete),
    ensures
        spec_outcome(b.update(i, active.spec_board_space())) is PlayerX ==> move_score(
            b,
            i,
            active,
            winning,
        ) == if winning is PlayerX {
            SCORE_UNIT as int
        } else {
            -(SCORE_UNIT as int)
        },
        spec_outcome(b.update(i, active.spec_board_space())) is PlayerO ==> move_score(
            b,
            i,
            active,
            winning,
        ) == if winning is PlayerO {
            SCORE_UNIT as int
        } else {
            -(SCORE_UNIT as int)
        },
        spec_outcome(b.update(i, active.spec_board_space())) is Draw ==> move_score(
            b,
            i,
            active,
            winning,
        ) == 0,
{
}

/// On a board whose only Empty space is `j`, the sum of available move
/// scores from `l` on is that one move's score, or nothing once `l` has
/// passed it.
proof fn lemma_sum_scores_single(
    b: Seq<BoardSpace>,
    active: ActivePlayer,
    winning: ActivePlayer,
    l: int,
    j: int,
)
    requires
        b.len() == 9,
        0 <= l <= 9,
        0 <= j < 9,
        b[j] is Empty,
        count_empty(b) == 1,
    ensures
        sum_scores(b, active, winning, l) == if l <= j {
            move_score(b, j, active, winning)
        } else {
            0
        },
    decreases 9 - l,
{
    if l < 9 {
        lemma_sum_scores_single(b, active, winning, l + 1, j);
        if l != j && b[l] is Empty {
            // two distinct Empty spaces would make the count at least two
            if l < j {
                crate::game_outcome::lemma_count_empty_mono(b, 0, l);
                crate::game_outcome::lemma_count_empty_mono(b, l + 1, j);
            } else {
                crate::game_outcome::lemma_count_empty_mono(b, 0, j);
                crate::game_outcome::lemma_count_empty_mono(b, j + 1, l);
            }
            assert(false);
        }
    }
}

/// The strict order by which candidate moves are ranked: ascending win
/// score, ties broken by the enumeration order of the move's location. The
/// locations of distinct candidates differ, so this order is total over a
/// candidate list and sorting by it is stable.
pub open spec fn move_key_lt(a: PossibleMove, b: PossibleMove) -> bool {
    ||| a.spec_win_score() < b.spec_win_score()
    ||| (a.spec_win_score() == b.spec_win_score() && a.spec_location().as_int()
        < b.spec_location().as_int())
}

/// A sequence of moves arranged in ascending key order
pub open spec fn sorted_by_key(s: Seq<PossibleMove>) -> bool {
    forall|k1: int, k2: int|
        0 <= k1 < k2 < s.len() ==> !move_key_lt(#[trigger] s[k2], #[trigger] s[k1])
}

/// `x` placed into `s` before the first element it precedes
pub open spec fn insert_move(x: PossibleMove, s: Seq<PossibleMove>) -> Seq<PossibleMove>
    decreases s.len(),
{
    if s.len() == 0 {
        seq![x]
    } else if move_key_lt(x, s.first()) {
        seq![x] + s
    } else {
        seq![s.first()] + insert_move(x, s.drop_first())
    }
}

/// The moves of `s` arranged in ascending key order by repeated insertion
pub open spec fn sort_moves(s: Seq<PossibleMove>) -> Seq<PossibleMove>
    decreases s.len(),
{
    if s.len() == 0 {
        Seq::empty()
    } else {
        insert_move(s.last(), sort_moves(s.drop_last()))
    }
}

/// Inserting grows the sequence by one.
proof fn lemma_insert_move_len(x: PossibleMove, s: Seq<PossibleMove>)
    ensures
        insert_move(x, s).len() == s.len() + 1,
    decreases s.len(),
{
    if s.len() > 0 && !move_key_lt(x, s.first()) {
        lemma_insert_move_len(x, s.drop_first());
    }
}

/// Sorting keeps the length.
pub proof fn lemma_sort_moves_len(s: Seq<PossibleMove>)
    ensures
        sort_moves(s).len() == s.len(),
    decreases s.len(),
{
    if s.len() > 0 {
        lemma_sort_moves_len(s.drop_last());
        lemma_insert_move_len(s.last(), sort_moves(s.drop_last()));
    }
}

/// Scanning for the first element that `x` precedes and placing `x` there
/// is what `insert_move` does.
proof fn lemma_insert_move_shape(x: PossibleMove, s: Seq<PossibleMove>, idx: int)
    requires
        0 <= idx <= s.len(),
        forall|m: int| 0 <= m < idx ==> !move_key_lt(x, #[trigger] s[m]),
        idx < s.len() ==> move_key_lt(x, s[idx]),
    ensures
        insert_move(x, s) == s.insert(idx, x),
    decreases idx,
{
    if idx == 0 {
        if s.len() == 0 {
            assert(insert_move(x, s) =~= s.insert(0, x));
        } else {
            assert(insert_move(x, s) =~= s.insert(0, x));
        }
    } else {
        let d = s.drop_first();
        assert(forall|m: int| 0 <= m < idx - 1 ==> !move_key_lt(x, #[trigger] d[m]));
        lemma_insert_move_shape(x, d, idx - 1);
        assert(insert_move(x, s) =~= s.insert(idx, x));
    }
}

/// Inserting into a sorted sequence keeps it sorted.
proof fn lemma_insert_move_sorted(x: PossibleMove, s: Seq<PossibleMove>)
    requires
        sorted_by_key(s),
    ensures
        sorted_by_key(insert_move(x, s)),
    decreases s.len(),
{
    lemma_insert_move_len(x, s);
    if s.len() > 0 && !move_key_lt(x, s.first()) {
        let d = s.drop_first();
        assert(sorted_by_key(d));
        lemma_insert_move_sorted(x, d);
        lemma_insert_move_len(x, d);
        let r = insert_move(x, s);
        let inner = insert_move(x, d);
        lemma_insert_move_membership(x, d);
        assert forall|k1: int, k2: int| 0 <= k1 < k2 < r.len() implies !move_key_lt(
            r[k2],
            r[k1],
        ) by {
            if k1 > 0 {
                assert(r[k1] == inner[k1 - 1] && r[k2] == inner[k2 - 1]);
            } else {
                assert(r[k2] == inner[k2 - 1]);
            }
        };
    }
}

/// Every element of an insertion's result is either the inserted move or
/// one of the source's elements.
proof fn lemma_insert_move_membership(x: PossibleMove, s: Seq<PossibleMove>)
    ensures
        forall|k: int|
            0 <= k < insert_move(x, s).len() ==> (#[trigger] insert_move(x, s)[k] == x
                || exists|m: int| 0 <= m < s.len() && insert_move(x, s)[k] == s[m]),
    decreases s.len(),
{
    lemma_insert_move_len(x, s);
    let r = insert_move(x, s);
    if s.len() == 0 {
    } else if move_key_lt(x, s.first()) {
        assert forall|k: int| 0 <= k < r.len() implies (#[trigger] r[k] == x || exists|m: int|
            0 <= m < s.len() && r[k] == s[m]) by {
            if k > 0 {
                assert(r[k] == s[k - 1]);
            }
        };
    } else {
        let d = s.drop_first();
        lemma_insert_move_membership(x, d);
        lemma_insert_move_len(x, d);
        let inner = insert_move(x, d);
        assert forall|k: int| 0 <= k < r.len() implies (#[trigger] r[k] == x || exists|m: int|
            0 <= m < s.len() && r[k] == s[m]) by {
            if k == 0 {
                assert(r[0] == s[0]);
            } else {
                assert(r[k] == inner[k - 1]);
                if inner[k - 1] != x {
                    let m = choose|m: int| 0 <= m < d.len() && inner[k - 1] == d[m];
                    assert(r[k] == s[m + 1]);
                }
            }
        };
    }
}

/// The last element of an insertion's result: the larger, in key order, of
/// the inserted move and the source's last element.
proof fn lemma_insert_move_last(x: PossibleMove, s: Seq<PossibleMove>)
    requires
        sorted_by_key(s),
    ensures
        insert_move(x, s).last() == if s.len() > 0 && move_key_lt(x, s.last()) {
            s.last()
        } else {
            x
        },
    decreases s.len(),
{
    lemma_insert_move_len(x, s);
    if s.len() > 0 {
        if move_key_lt(x, s.first()) {
            assert((seq![x] + s).last() == s.last());
        } else {
            let d = s.drop_first();
            assert(sorted_by_key(d));
            lemma_insert_move_last(x, d);
            lemma_insert_move_len(x, d);
            assert((seq![s.first()] + insert_move(x, d)).last() == insert_move(x, d).last());
            if d.len() > 0 {
                assert(d.last() == s.last());
            }
        }
    }
}

/// The sorted arrangement is sorted, its last element is one of the
/// original moves, and no original move exceeds it in key order.
pub proof fn lemma_sort_moves_props(s: Seq<PossibleMove>)
    ensures
        sort_moves(s).len() == s.len(),
        sorted_by_key(sort_moves(s)),
        s.len() > 0 ==> exists|m: int|
            0 <= m < s.len() && s[m] == sort_moves(s).last(),
        forall|k: int|
            0 <= k < s.len() ==> !move_key_lt(sort_moves(s).last(), #[trigger] s[k]),
    decreases s.len(),
{
    lemma_sort_moves_len(s);
    if s.len() > 0 {
        let d = s.drop_last();
        lemma_sort_moves_props(d);
        lemma_sort_moves_len(d);
        lemma_insert_move_sorted(s.last(), sort_moves(d));
        lemma_insert_move_last(s.last(), sort_moves(d));
        let r = sort_moves(s);
        assert forall|k: int| 0 <= k < s.len() implies !move_key_lt(r.last(), #[trigger] s[k])
            by {
            if k < s.len() - 1 {
                assert(d[k] == s[k]);
                assert(!move_key_lt(sort_moves(d).last(), d[k]));
            }
        };
        if sort_moves(d).len() > 0 && move_key_lt(s.last(), sort_moves(d).last()) {
            let m = choose|m: int| 0 <= m < d.len() && d[m] == sort_moves(d).last();
            assert(s[m] == r.last());
        } else {
            assert(s[s.len() - 1] == r.last());
        }
    }
}

/// The enumeration index of a location
fn location_index(location: &BoardSpaceLocation) -> (r: u8)
    ensures
        r as int == location.as_int(),
{
    match location {
        BoardSpaceLocation::TopLeft => 0,
        BoardSpaceLocation::TopMiddle => 1,
        BoardSpaceLocation::TopRight => 2,
        BoardSpaceLocation::MiddleLeft => 3,
        BoardSpaceLocation::MiddleMiddle => 4,
        BoardSpaceLocation::MiddleRight => 5,
        BoardSpaceLocation::BottomLeft => 6,
        BoardSpaceLocation::BottomMiddle => 7,
        BoardSpaceLocation::BottomRight => 8,
    }
}

/// Whether `a` comes strictly before `b` in the candidate ranking
fn move_key_less(a: &PossibleMove, b: &PossibleMove) -> (r: bool)
    ensures
        r == move_key_lt(*a, *b),
{
    if a.win_score < b.win_score {
        true
    } else if a.win_score == b.win_score {
        location_index(&a.new_location) < location_index(&b.new_location)
    } else {
        false
    }
}

/// Places `x` into the sorted vector `sorted`, before the first element
/// that `x` precedes in key order
fn insert_sorted(sorted: &mut Vec<PossibleMove>, x: PossibleMove)
    ensures
        final(sorted)@ == insert_move(x, old(sorted)@),
{
    let mut idx: usize = 0;
    while idx < sorted.len() && !move_key_less(&x, &sorted[idx])
        invariant
            idx <= sorted@.len(),
            sorted@ == old(sorted)@,
            forall|m: int| 0 <= m < idx ==> !move_key_lt(x, #[trigger] sorted@[m]),
        decreases sorted@.len() - idx,
    {
        idx = idx + 1;
    }
    proof {
        lemma_insert_move_shape(x, sorted@, idx as int);
    }
    sorted.insert(idx, x);
}

/// Arranges the given moves in ascending key order: by win score, ties in
/// enumeration order of their locations
fn sort_possible_moves(moves: &Vec<PossibleMove>) -> (r: Vec<PossibleMove>)
    ensures
        r@ == sort_moves(moves@),
{
    let mut sorted: Vec<PossibleMove> = Vec::new();
    let mut k: usize = 0;
    while k < moves.len()
        invariant
            k <= moves@.len(),
            sorted@ == sort_moves(moves@.take(k as int)),
        decreases moves@.len() - k,
    {
        let next = moves[k];
        insert_sorted(&mut sorted, next);
        proof {
            assert(moves@.take(k as int + 1).drop_last() == moves@.take(k as int));
            assert(moves@.take(k as int + 1).last() == moves@[k as int]);
        }
        k = k + 1;
    }
    proof {
        assert(moves@.take(moves@.len() as int) == moves@);
    }
    sorted
}

/// Law (decay): a move that leaves the game undecided with exactly one
/// continuation scores half that continuation's score. In particular, when
/// the single continuation is a sure win for the desired player, the move
/// scores half a unit — strictly less in magnitude than an immediate win.
pub proof fn lemma_decay_single_continuation(
    b: Seq<BoardSpace>,
    i: int,
    j: int,
    active: ActivePlayer,
    winning: ActivePlayer,
)
    requires
        b.len() == 9,
        0 <= i < 9,
        b[i] is Empty,
        spec_outcome(b.update(i, active.spec_board_space())) is Incomplete,
        count_empty(b.update(i, active.spec_board_space())) == 1,
        0 <= j < 9,
        b.update(i, active.spec_board_space())[j] is Empty,
    ensures
        move_score(b, i, active, winning) == move_score(
            b.update(i, active.spec_board_space()),
            j,
            active.spec_opposite(),
            winning,
        ) / 2,
        move_score(
            b.update(i, active.spec_board_space()),
            j,
            active.spec_opposite(),
            winning,
        ) == SCORE_UNIT as int ==> move_score(b, i, active, winning) == (SCORE_UNIT as int)
            / 2,
{
    let b2 = b.update(i, active.spec_board_space());
    lemma_sum_scores_single(b2, active.spec_opposite(), winning, 0, j);
}

/// The place, in the ascending-sorted candidate list of length `n`, of the
/// move the policy selects: on a mistake (the mistake chance exceeds the
/// draw) the place scales with the difficulty, falling back to the worst
/// move when out of range; otherwise the best move, at the end of the list.
///
/// A mistake deliberately picks a suboptimal move, and its severity scales
/// inversely with the difficulty: a high difficulty indexes near the end of
/// the ascending list, so its mistakes stay mild, while a low difficulty
/// indexes near the start and blunders badly.
pub open spec fn chosen_move_index(difficulty: int, draw: int, n: int) -> int {
    if 100 - difficulty > draw {
        if difficulty * n / 100 < n {
            difficulty * n / 100
        } else {
            0
        }
    } else {
        n - 1
    }
}

/// What the boards a turn may produce look like: for the candidate list of
/// the given board and player, the new board carries the player's mark on
/// the location of the sorted candidate selected by [`chosen_move_index`].
/// The candidate list is determined by board and player, so at most one
/// board satisfies this.
pub open spec fn is_turn_outcome(
    difficulty: int,
    b: Seq<BoardSpace>,
    player: ActivePlayer,
    draw: int,
    nb: Seq<BoardSpace>,
) -> bool {
    forall|cands: Seq<PossibleMove>|
        #[trigger] is_candidate_list(b, player, cands) ==> nb == b.update(
            sort_moves(cands)[chosen_move_index(difficulty, draw, cands.len() as int)].spec_location().as_int(),
            player.spec_board_space(),
        )
}

/// Relies on rand's `Rng::gen_range` on the thread-local generator: a
/// draw from the half-open range `0..100` is strictly below 100. Nothing
/// else can be promised of a random value.
#[verifier::external_body]
fn random_percent() -> (r: u8)
    ensures
        r < 100,
{
    rand::Rng::gen_range(&mut rand::thread_rng(), 0..100u8)
}

/// Represents an AI player
///
/// Its difficulty is held in hundredths: a whole-number percentage within
/// `(0, 100]`, where 100 is the maximum difficulty.
#[derive(Debug, PartialEq, Eq, Structural, Clone, Copy)]
pub struct AiPlayer {
    difficulty: u8,
}

impl AiPlayer {
    /// A difficulty is a percentage: strictly positive, at most 100.
    #[verifier::type_invariant]
    spec fn difficulty_in_range(self) -> bool {
        1 <= self.difficulty <= 100
    }

    /// The difficulty this player plays at, in hundredths
    pub closed spec fn spec_difficulty(self) -> int {
        self.difficulty as int
    }

    /// Construct and return a new `AiPlayer` at the specified difficulty
    ///
    /// `difficulty` is a percentage within the range `(0, 100]` that
    /// represents the difficulty of the AI player. `100` is the maximum
    /// difficulty; `0` would never play on purpose and is ruled out.
    pub fn new(difficulty: u8) -> (r: Self)
        requires
            1 <= difficulty <= 100,
        ensures
            r.spec_difficulty() == difficulty,
    {
        let mut new_instance = Self::default();
        new_instance.set_difficulty(difficulty);
        new_instance
    }

    /// Set the difficulty of this `AiPlayer`
    ///
    /// `difficulty` is a percentage within the range `(0, 100]` that
    /// represents the difficulty of the AI player. `100` is the maximum
    /// difficulty. Values outside the range do not name a difficulty and
    /// are ruled out by the precondition.
    pub fn set_difficulty(&mut self, difficulty: u8)
        requires
            1 <= difficulty <= 100,
        ensures
            final(self).spec_difficulty() == difficulty,
    {
        self.difficulty = difficulty;
    }

    /// Returns the difficulty of this `AiPlayer`
    ///
    /// The difficulty will always be within the range `(0, 100]`
    pub fn difficulty(&self) -> (r: u8)
        ensures
            r as int == self.spec_difficulty(),
            1 <= r <= 100,
    {
        proof {
            use_type_invariant(self);
        }
        self.difficulty
    }

    /// Returns the mistake chance of this `AiPlayer`, in hundredths
    ///
    /// The mistake chance is the chance (from 0 to 100) that on any given turn,
    /// this `AiPlayer` will make a `mistake` and select a non-optimal move.
    /// How non-optimal this move is depends on the difficulty (lower difficulty
    /// means less optimal).
    ///
    /// The mistake chance is a function of the difficulty; more specifically
    /// `mistake_chance = 100 - difficulty`. This means that a higher difficulty
    /// results in a lower mistake chance (and vice versa). A difficulty of `100`
    /// results in a mistake chance of `0`.
    pub fn mistake_chance(&self) -> (r: u8)
        ensures
            r as int == 100 - self.spec_difficulty(),
            r < 100,
    {
        proof {
            use_type_invariant(self);
        }
        100 - self.difficulty
    }

    /// Plays a turn on the specified game board
    ///
    /// Which turn to play (player X or player O) is determined by `player`.
    ///
    /// `board` is the [`GameBoard`] to play on; it is never changed, the
    /// played move shows only in the returned board.
    ///
    /// If a move can be played successfully, this method will return `Ok(new_board)`
    /// where `new_board` is the given [`GameBoard`] after the AI has played its turn:
    /// this happens exactly when the game on `board` is not finished. The one
    /// chance draw that picks between optimal play and a mistake comes from the
    /// process random generator; whatever is drawn, the returned board satisfies
    /// [`is_turn_outcome`] for that draw.
    ///
    /// If the game on `board` is already finished, this method returns
    /// `Err(AiError::GameFinished)`. `AiError::NoMovesFound` is declared for an
    /// unfinished board without moves; no such board exists, so it is never
    /// returned.
    pub fn do_turn(&self, board: &GameBoard, player: &ActivePlayer) -> (r: Result<
        GameBoard,
        AiError,
    >)
        ensures
            (spec_outcome(board@) is Incomplete) <==> r is Ok,
            !(spec_outcome(board@) is Incomplete) ==> r == Result::<GameBoard, AiError>::Err(
                AiError::GameFinished,
            ),
            r is Ok ==> exists|draw: int|
                0 <= draw < 100 && is_turn_outcome(
                    self.spec_difficulty(),
                    board@,
                    *player,
                    draw,
                    (r->Ok_0)@,
                ),
    {
        let draw = random_percent();
        self.do_turn_with_draw(board, player, draw)
    }

    /// Plays a turn on the specified game board, with the chance draw given
    /// by the caller
    ///
    /// `draw` stands for the one random sample of the mistake model: a value
    /// in `[0, 100)`, where each value should be equally likely. A mistake
    /// occurs exactly when the mistake chance exceeds `draw`. Passing the
    /// draw in keeps the selection itself a pure function; [`AiPlayer::do_turn`]
    /// supplies a random draw.
    ///
    /// Returns `Ok(new_board)` with the selected move played exactly when
    /// the game on `board` is not finished, else `Err(AiError::GameFinished)`;
    /// the selected move is the one [`is_turn_outcome`] names for this draw.
    pub fn do_turn_with_draw(&self, board: &GameBoard, player: &ActivePlayer, draw: u8) -> (r:
        Result<GameBoard, AiError>)
        requires
            draw < 100,
        ensures
            (spec_outcome(board@) is Incomplete) <==> r is Ok,
            !(spec_outcome(board@) is Incomplete) ==> r == Result::<GameBoard, AiError>::Err(
                AiError::GameFinished,
            ),
            r is Ok ==> is_turn_outcome(
                self.spec_difficulty(),
                board@,
                *player,
                draw as int,
                (r->Ok_0)@,
            ),
    {
        proof {
            use_type_invariant(self);
        }

        // return early if game is already finished
        if board.game_outcome().game_finished() {
            return Err(AiError::GameFinished);
        }

        // generate possible moves
        let possible_moves = evaluate_moves(board, player);

        // return if there are no possible moves found; an unfinished board
        // always has an Empty space, so this cannot happen
        if possible_moves.is_empty() {
            return Err(AiError::NoMovesFound);
        }

        // sort possible moves by win score (lowest to highest)
        let sorted_moves = sort_possible_moves(&possible_moves);
        proof {
            lemma_sort_moves_len(possible_moves@);
            lemma_count_empty_bound(board@, 0);
        }
        let candidate_count = sorted_moves.len();

        // if the mistake chance is greater than the drawn value, do a
        // mistake; otherwise play optimally
        let do_mistake = self.mistake_chance() > draw;

        // determine next move
        let next_index: usize = if do_mistake {
            // pick a non-optimal move by scaling difficulty to the number of
            // candidates; rounding down means the last move is never picked
            // this way unless it is the only move
            proof {
                assert((self.difficulty as int) * (candidate_count as int) <= 900)
                    by (nonlinear_arith)
                    requires
                        self.difficulty <= 100,
                        candidate_count <= 9,
                ;
            }
            let move_index = (self.difficulty as usize) * candidate_count / 100;
            if move_index < candidate_count {
                move_index
            } else {
                // fall back to the first move, which must exist because we
                // already returned if no moves were found
                0
            }
        } else {
            // play optimally if do_mistake is false
            candidate_count - 1
        };
        let next_move = sorted_moves[next_index];

        // Clone the input board; this gets a new, mutable board to play the move on
        let mut new_board = board.clone();

        // play the next move and return the modified board
        let new_location = *next_move.new_location();
        new_board.space_mut(new_location, player.get_board_space());

        proof {
            let cands0 = possible_moves@;
            assert(next_index as int == chosen_move_index(
                self.spec_difficulty(),
                draw as int,
                cands0.len() as int,
            ));
            assert forall|cands: Seq<PossibleMove>|
                is_candidate_list(board@, *player, cands) implies new_board@ == board@.update(
                sort_moves(cands)[chosen_move_index(
                    self.spec_difficulty(),
                    draw as int,
                    cands.len() as int,
                )].spec_location().as_int(),
                player.spec_board_space(),
            ) by {
                lemma_candidate_list_deterministic(board@, *player, cands, cands0);
            };
        }
        Ok(new_board)
    }
}

impl Default for AiPlayer {
    /// An AI player at the maximum difficulty
    fn default() -> (r: Self)
        ensures
            r.spec_difficulty() == 100,
    {
        Self { difficulty: 100 }
    }
}

/// Law: at the maximum difficulty the mistake chance is zero, so whatever
/// the chance draw, the policy selects the last of the ascending-sorted
/// candidates — a move whose win score no candidate exceeds. The draw has
/// no effect on the outcome.
pub proof fn lemma_full_difficulty_optimal(
    b: Seq<BoardSpace>,
    player: ActivePlayer,
    draw: int,
    cands: Seq<PossibleMove>,
    nb: Seq<BoardSpace>,
)
    requires
        0 <= draw < 100,
        is_candidate_list(b, player, cands),
        cands.len() > 0,
        is_turn_outcome(100, b, player, draw, nb),
    ensures
        nb == b.update(
            sort_moves(cands).last().spec_location().as_int(),
            player.spec_board_space(),
        ),
        exists|m: int| 0 <= m < cands.len() && cands[m] == sort_moves(cands).last(),
        forall|k: int|
            0 <= k < cands.len() ==> (#[trigger] cands[k]).spec_win_score() <= sort_moves(
                cands,
            ).last().spec_win_score(),
{
    lemma_sort_moves_props(cands);
    assert(chosen_move_index(100, draw, cands.len() as int) == cands.len() - 1);
    assert(is_candidate_list(b, player, cands));
    assert(nb == b.update(
        sort_moves(cands)[cands.len() - 1].spec_location().as_int(),
        player.spec_board_space(),
    ));
    assert forall|k: int|
        0 <= k < cands.len() implies (#[trigger] cands[k]).spec_win_score() <= sort_moves(
        cands,
    ).last().spec_win_score() by {
        assert(!move_key_lt(sort_moves(cands).last(), cands[k]));
    };
}

} // verus!
