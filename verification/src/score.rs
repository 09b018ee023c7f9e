//! Scores returned by game evaluation.
//!
//! A score is either a decisive value (`NegInf`, `PosInf`) for a forced loss
//! or win of the maximizing side, or a bounded `Finite` value produced by a
//! heuristic or standing for a draw. `NegInf` and `PosInf` dominate every
//! finite value, so terminal outcomes always outweigh heuristic estimates.

use vstd::prelude::*;

verus! {

/// Evaluation of a game position from the maximizing side's point of view.
///
/// Positive favors the maximizing side, negative the minimizing side.
/// `PosInf` and `NegInf` are decisive outcomes that dominate every bounded
/// heuristic value.
#[derive(Clone, Copy, Debug, PartialEq, Eq, Structural)]
pub enum Score {
    /// A forced loss for the maximizing side.
    NegInf,
    /// A bounded value: a heuristic estimate, or zero for a draw.
    Finite(i64),
    /// A forced win for the maximizing side.
    PosInf,
}

/// Total order on scores: `NegInf` below every `Finite`, every `Finite`
/// below `PosInf`, and finite values ordered as integers.
pub open spec fn score_le(a: Score, b: Score) -> bool {
    match (a, b) {
        (Score::NegInf, _) => true,
        (_, Score::PosInf) => true,
        (Score::Finite(x), Score::Finite(y)) => x <= y,
        (Score::PosInf, _) => false,
        (_, Score::NegInf) => false,
    }
}

/// The greater of two scores under `score_le`; on ties the second is kept.
pub open spec fn spec_max_score(a: Score, b: Score) -> Score {
    if score_le(a, b) {
        b
    } else {
        a
    }
}

/// The lesser of two scores under `score_le`; on ties the second is kept.
pub open spec fn spec_min_score(a: Score, b: Score) -> Score {
    if score_le(b, a) {
        b
    } else {
        a
    }
}

/// The greater of two scores.
pub fn max_score(a: Score, b: Score) -> (r: Score)
    ensures
        r == spec_max_score(a, b),
{
    match (a, b) {
        (Score::NegInf, _) => b,
        (_, Score::PosInf) => b,
        (Score::Finite(x), Score::Finite(y)) => if x <= y {
            b
        } else {
            a
        },
        (Score::PosInf, _) => a,
        (_, Score::NegInf) => a,
    }
}

/// The lesser of two scores.
pub fn min_score(a: Score, b: Score) -> (r: Score)
    ensures
        r == spec_min_score(a, b),
{
    match (b, a) {
        (Score::NegInf, _) => b,
        (_, Score::PosInf) => b,
        (Score::Finite(y), Score::Finite(x)) => if y <= x {
            b
        } else {
            a
        },
        (Score::PosInf, _) => a,
        (_, Score::NegInf) => a,
    }
}

/// Taking the maximum of scores is associative.
pub proof fn lemma_max_score_assoc(a: Score, b: Score, c: Score)
    ensures
        spec_max_score(a, spec_max_score(b, c)) == spec_max_score(spec_max_score(a, b), c),
{
}

/// Taking the minimum of scores is associative.
pub proof fn lemma_min_score_assoc(a: Score, b: Score, c: Score)
    ensures
        spec_min_score(a, spec_min_score(b, c)) == spec_min_score(spec_min_score(a, b), c),
{
}

} // verus!
