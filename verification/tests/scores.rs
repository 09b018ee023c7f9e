use game_search::score::max_score;
use game_search::score::min_score;
use game_search::score::Score;

#[test]
fn infinities_dominate_finite_values() {
    assert_eq!(max_score(Score::PosInf, Score::Finite(1000)), Score::PosInf);
    assert_eq!(max_score(Score::NegInf, Score::Finite(-1000)), Score::Finite(-1000));
    assert_eq!(min_score(Score::NegInf, Score::Finite(-1000)), Score::NegInf);
    assert_eq!(min_score(Score::PosInf, Score::Finite(1000)), Score::Finite(1000));
    assert_eq!(max_score(Score::NegInf, Score::PosInf), Score::PosInf);
    assert_eq!(min_score(Score::NegInf, Score::PosInf), Score::NegInf);
}

#[test]
fn finite_scores_compare_as_integers() {
    assert_eq!(max_score(Score::Finite(-3), Score::Finite(2)), Score::Finite(2));
    assert_eq!(min_score(Score::Finite(-3), Score::Finite(2)), Score::Finite(-3));
    assert_eq!(max_score(Score::Finite(5), Score::Finite(5)), Score::Finite(5));
}
