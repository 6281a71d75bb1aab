use johnson::rps::{outcome, Rps, RpsResult};

const MOVES: [Rps; 3] = [Rps::Rock, Rps::Paper, Rps::Scissors];

#[test]
fn moves_parse_in_any_case() {
    assert_eq!(Rps::from_str("rock"), Ok(Rps::Rock));
    assert_eq!(Rps::from_str("Rock"), Ok(Rps::Rock));
    assert_eq!(Rps::from_str("ROCK"), Ok(Rps::Rock));
    assert_eq!(Rps::from_str("paper"), Ok(Rps::Paper));
    assert_eq!(Rps::from_str("Paper"), Ok(Rps::Paper));
    assert_eq!(Rps::from_str("pApEr"), Ok(Rps::Paper));
    assert_eq!(Rps::from_str("scissors"), Ok(Rps::Scissors));
    assert_eq!(Rps::from_str("Scissors"), Ok(Rps::Scissors));
}

#[test]
fn other_tokens_name_no_move() {
    assert_eq!(Rps::from_str(""), Err(()));
    assert_eq!(Rps::from_str("rocks"), Err(()));
    assert_eq!(Rps::from_str("roc"), Err(()));
    assert_eq!(Rps::from_str(" rock"), Err(()));
    assert_eq!(Rps::from_str("scissor"), Err(()));
    assert_eq!(Rps::from_str("lizard"), Err(()));
    assert_eq!(Rps::from_str("accept"), Err(()));
}

#[test]
fn payoff_table() {
    assert_eq!(outcome(Rps::Rock, Rps::Scissors), RpsResult::Win);
    assert_eq!(outcome(Rps::Paper, Rps::Rock), RpsResult::Win);
    assert_eq!(outcome(Rps::Scissors, Rps::Paper), RpsResult::Win);
    assert_eq!(outcome(Rps::Scissors, Rps::Rock), RpsResult::Loss);
    assert_eq!(outcome(Rps::Rock, Rps::Paper), RpsResult::Loss);
    assert_eq!(outcome(Rps::Paper, Rps::Scissors), RpsResult::Loss);
}

#[test]
fn payoff_table_is_antisymmetric() {
    for x in MOVES {
        assert_eq!(outcome(x, x), RpsResult::Tie);
        for y in MOVES {
            assert_eq!(outcome(x, y) == RpsResult::Win, outcome(y, x) == RpsResult::Loss);
        }
    }
}
