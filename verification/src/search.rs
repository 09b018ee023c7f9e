//! Depth-bounded minimax evaluation over an abstract game model.
//!
//! The engine is generic over any game-state type that can enumerate its
//! one-move successors, report a terminal outcome, and score a position
//! heuristically. `evaluate` walks the game tree it is handed, to a given
//! depth, and returns the game-theoretic value of the position under
//! optimal play by both sides, as pinned down by the spec function
//! `minimax_value`.

use vstd::prelude::*;

use crate::score::Score;
use crate::score::score_le;
use crate::score::spec_max_score;
use crate::score::spec_min_score;
use crate::score::max_score;
use crate::score::min_score;
use crate::score::lemma_max_score_assoc;
use crate::score::lemma_min_score_assoc;

verus! {

/// The capabilities a game-state type must offer to be searched.
///
/// A state is an immutable value; the engine never mutates one. The three
/// executable methods are each pinned to a spec-level counterpart so that
/// the engine's result can be stated purely in terms of the model.
pub trait GameModel: Sized {
    /// Every state reachable by one legal move, in the model's own order.
    spec fn spec_children(self) -> Seq<Self>;

    /// The score of a finished game, or `None` while play continues.
    spec fn spec_terminal_score(self) -> Option<Score>;

    /// A bounded estimate of a position, used only at the depth cutoff.
    spec fn spec_heuristic(self) -> Score;

    /// Produces every one-move successor of `self`.
    fn children(&self) -> (r: Vec<Self>)
        ensures
            r@ == self.spec_children(),
    ;

    /// Reports the terminal score of `self`, or `None` if play continues.
    fn terminal_score(&self) -> (r: Option<Score>)
        ensures
            r == self.spec_terminal_score(),
    ;

    /// Scores `self` heuristically.
    fn heuristic(&self) -> (r: Score)
        ensures
            r == self.spec_heuristic(),
    ;
}

/// The game-theoretic value of `s` under optimal play, searched `depth`
/// plies deep with `maximizing` to move.
///
/// Terminal scores take precedence over everything; at depth zero a
/// non-terminal state is scored heuristically; a non-terminal state
/// without children (a malformed model) degrades to its heuristic as
/// well; otherwise the value is the best of the children's values one
/// ply deeper with the roles swapped.
pub open spec fn minimax_value<G: GameModel>(s: G, depth: nat, maximizing: bool) -> Score
    decreases depth, 0nat, 0nat,
{
    match s.spec_terminal_score() {
        Some(v) => v,
        None => {
            if depth == 0 {
                s.spec_heuristic()
            } else {
                let cs = s.spec_children();
                if cs.len() == 0 {
                    s.spec_heuristic()
                } else {
                    best_value(cs, (depth - 1) as nat, maximizing)
                }
            }
        },
    }
}

/// The best of the values of the states in `cs`, each searched `depth`
/// plies deep with `!maximizing` to move: their maximum if `maximizing`,
/// else their minimum.
pub open spec fn best_value<G: GameModel>(cs: Seq<G>, depth: nat, maximizing: bool) -> Score
    recommends
        cs.len() > 0,
    decreases depth, 1nat, cs.len(),
{
    let first = minimax_value(cs[0], depth, !maximizing);
    if cs.len() <= 1 {
        first
    } else {
        let rest = best_value(cs.drop_first(), depth, maximizing);
        if maximizing {
            spec_max_score(first, rest)
        } else {
            spec_min_score(first, rest)
        }
    }
}

/// Appending a state to a non-empty sequence folds its value into the
/// best value from the right: `best_value` distributes over `push`.
proof fn lemma_best_value_push<G: GameModel>(cs: Seq<G>, x: G, depth: nat, maximizing: bool)
    requires
        cs.len() > 0,
    ensures
        best_value(cs.push(x), depth, maximizing) == (if maximizing {
            spec_max_score(best_value(cs, depth, maximizing), minimax_value(x, depth, !maximizing))
        } else {
            spec_min_score(best_value(cs, depth, maximizing), minimax_value(x, depth, !maximizing))
        }),
    decreases cs.len(),
{
    if cs.len() == 1 {
        assert(cs.push(x).drop_first() =~= seq![x]);
    } else {
        assert(cs.push(x).drop_first() =~= cs.drop_first().push(x));
        lemma_best_value_push(cs.drop_first(), x, depth, maximizing);
        let f = minimax_value(cs[0], depth, !maximizing);
        let r = best_value(cs.drop_first(), depth, maximizing);
        let v = minimax_value(x, depth, !maximizing);
        if maximizing {
            lemma_max_score_assoc(f, r, v);
        } else {
            lemma_min_score_assoc(f, r, v);
        }
    }
}

/// Evaluates `state` by recursive minimax, `depth_limit` plies deep,
/// with `maximizing` telling whether the side to move at `state` is the
/// maximizing player.
///
/// The result is exactly the minimax recursion over the model's specs:
/// the terminal score if there is one; the heuristic at depth zero or on
/// a childless non-terminal state; otherwise the maximum (maximizing) or
/// minimum (minimizing) of the children's values one ply deeper with the
/// roles swapped.
pub fn evaluate<G: GameModel>(state: &G, depth_limit: u32, maximizing: bool) -> (r: Score)
    ensures
        r == minimax_value(*state, depth_limit as nat, maximizing),
    decreases depth_limit,
{
    match state.terminal_score() {
        Some(v) => v,
        None => {
            if depth_limit == 0 {
                state.heuristic()
            } else {
                let children = state.children();
                if children.len() == 0 {
                    state.heuristic()
                } else {
                    let ghost cs = children@;
                    let mut best = evaluate(&children[0], depth_limit - 1, !maximizing);
                    proof {
                        assert(cs.take(1) =~= seq![cs[0]]);
                    }
                    let mut k: usize = 1;
                    while k < children.len()
                        invariant
                            1 <= k <= cs.len(),
                            children@ == cs,
                            cs == state.spec_children(),
                            depth_limit >= 1,
                            best == best_value(cs.take(k as int), (depth_limit - 1) as nat, maximizing),
                        decreases cs.len() - k,
                    {
                        let s = evaluate(&children[k], depth_limit - 1, !maximizing);
                        proof {
                            lemma_best_value_push(
                                cs.take(k as int),
                                cs[k as int],
                                (depth_limit - 1) as nat,
                                maximizing,
                            );
                            assert(cs.take(k as int + 1) =~= cs.take(k as int).push(cs[k as int]));
                        }
                        best = if maximizing {
                            max_score(best, s)
                        } else {
                            min_score(best, s)
                        };
                        k = k + 1;
                    }
                    proof {
                        assert(cs.take(cs.len() as int) =~= cs);
                    }
                    best
                }
            }
        },
    }
}

/// Terminal precedence: a state with a terminal score evaluates to
/// exactly that score, at every depth (including zero) and for either
/// side to move, regardless of whether children exist.
pub proof fn lemma_terminal_precedence<G: GameModel>(s: G, depth: nat, maximizing: bool, v: Score)
    requires
        s.spec_terminal_score() == Some(v),
    ensures
        minimax_value(s, depth, maximizing) == v,
{
}

/// Depth cutoff: a non-terminal state searched to depth zero evaluates
/// to exactly its heuristic score.
pub proof fn lemma_depth_cutoff<G: GameModel>(s: G, maximizing: bool)
    requires
        s.spec_terminal_score() is None,
    ensures
        minimax_value(s, 0, maximizing) == s.spec_heuristic(),
{
}

/// The best value of a non-empty sequence of states bounds every
/// member's value from the right side (above when maximizing, below when
/// minimizing) and is attained by some member.
pub proof fn lemma_best_value_extremum<G: GameModel>(cs: Seq<G>, depth: nat, maximizing: bool)
    requires
        cs.len() > 0,
    ensures
        maximizing ==> forall|i: int|
            0 <= i < cs.len() ==> score_le(
                minimax_value(#[trigger] cs[i], depth, !maximizing),
                best_value(cs, depth, maximizing),
            ),
        !maximizing ==> forall|i: int|
            0 <= i < cs.len() ==> score_le(
                best_value(cs, depth, maximizing),
                minimax_value(#[trigger] cs[i], depth, !maximizing),
            ),
        exists|i: int|
            0 <= i < cs.len() && best_value(cs, depth, maximizing) == minimax_value(
                cs[i],
                depth,
                !maximizing,
            ),
    decreases cs.len(),
{
    if cs.len() == 1 {
        assert(best_value(cs, depth, maximizing) == minimax_value(cs[0], depth, !maximizing));
    } else {
        let rest = cs.drop_first();
        lemma_best_value_extremum(rest, depth, maximizing);
        let j = choose|j: int|
            0 <= j < rest.len() && best_value(rest, depth, maximizing) == minimax_value(
                rest[j],
                depth,
                !maximizing,
            );
        assert(rest[j] == cs[j + 1]);
        let f = minimax_value(cs[0], depth, !maximizing);
        let r = best_value(rest, depth, maximizing);
        let b = best_value(cs, depth, maximizing);
        if maximizing {
            assert(score_le(f, b) && score_le(r, b));
            assert(b == f || b == r);
            assert forall|i: int| 0 <= i < cs.len() implies score_le(
                minimax_value(#[trigger] cs[i], depth, !maximizing),
                b,
            ) by {
                if i > 0 {
                    assert(rest[i - 1] == cs[i]);
                    assert(score_le(minimax_value(rest[i - 1], depth, !maximizing), r));
                }
            }
            if b == r {
                assert(b == minimax_value(cs[j + 1], depth, !maximizing));
            } else {
                assert(b == minimax_value(cs[0], depth, !maximizing));
            }
        } else {
            assert(score_le(b, f) && score_le(b, r));
            assert(b == f || b == r);
            assert forall|i: int| 0 <= i < cs.len() implies score_le(
                b,
                minimax_value(#[trigger] cs[i], depth, !maximizing),
            ) by {
                if i > 0 {
                    assert(rest[i - 1] == cs[i]);
                    assert(score_le(r, minimax_value(rest[i - 1], depth, !maximizing)));
                }
            }
            if b == r {
                assert(b == minimax_value(cs[j + 1], depth, !maximizing));
            } else {
                assert(b == minimax_value(cs[0], depth, !maximizing));
            }
        }
    }
}

/// Alternation consistency: on a non-terminal state with children and
/// remaining depth, the minimax value is an upper (maximizing) or lower
/// (minimizing) bound of every child's value one ply deeper with the
/// roles swapped, and equals the value of some child.
pub proof fn lemma_alternation<G: GameModel>(s: G, depth: nat, maximizing: bool)
    requires
        s.spec_terminal_score() is None,
        depth > 0,
        s.spec_children().len() > 0,
    ensures
        maximizing ==> forall|i: int|
            0 <= i < s.spec_children().len() ==> score_le(
                minimax_value(#[trigger] s.spec_children()[i], (depth - 1) as nat, !maximizing),
                minimax_value(s, depth, maximizing),
            ),
        !maximizing ==> forall|i: int|
            0 <= i < s.spec_children().len() ==> score_le(
                minimax_value(s, depth, maximizing),
                minimax_value(#[trigger] s.spec_children()[i], (depth - 1) as nat, !maximizing),
            ),
        exists|i: int|
            0 <= i < s.spec_children().len() && minimax_value(s, depth, maximizing)
                == minimax_value(s.spec_children()[i], (depth - 1) as nat, !maximizing),
{
    lemma_best_value_extremum(s.spec_children(), (depth - 1) as nat, maximizing);
}

/// Determinism: the value of an evaluation is a function of the state,
/// the depth and the side to move alone, so two results of the same
/// query are equal.
pub proof fn lemma_deterministic<G: GameModel>(
    s: G,
    depth: nat,
    maximizing: bool,
    r1: Score,
    r2: Score,
)
    requires
        r1 == minimax_value(s, depth, maximizing),
        r2 == minimax_value(s, depth, maximizing),
    ensures
        r1 == r2,
{
}

} // verus!
