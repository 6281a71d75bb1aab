//! Rock, paper, scissors: the moves, how a move is read from a button's token,
//! and the payoff table.

use vstd::prelude::*;

verus! {

/// A move.
#[derive(Debug, Clone, Copy, PartialEq, Eq, Hash, Structural)]
pub enum Rps {
    Rock,
    Paper,
    Scissors,
}

/// The result of a round from the point of view of the player whose move is
/// named first.
#[derive(Debug, Clone, Copy, PartialEq, Eq, Hash, Structural)]
pub enum RpsResult {
    Win,
    Loss,
    Tie,
}

/// The lower-case name of a move.
pub open spec fn move_name(m: Rps) -> Seq<char> {
    match m {
        Rps::Rock => seq!['r', 'o', 'c', 'k'],
        Rps::Paper => seq!['p', 'a', 'p', 'e', 'r'],
        Rps::Scissors => seq!['s', 'c', 'i', 's', 's', 'o', 'r', 's'],
    }
}

/// `t` spells the lower-case ASCII word `w`, each letter in either case.
pub open spec fn spells_ignoring_case(t: Seq<char>, w: Seq<char>) -> bool {
    &&& t.len() == w.len()
    &&& forall|i: int|
        0 <= i < t.len() ==> t[i] == w[i] || (t[i] as u32) + 32 == #[trigger] (w[i] as u32)
}

/// The move that a token names, if it names one.
pub open spec fn spec_parse(t: Seq<char>) -> Option<Rps> {
    if spells_ignoring_case(t, move_name(Rps::Rock)) {
        Some(Rps::Rock)
    } else if spells_ignoring_case(t, move_name(Rps::Paper)) {
        Some(Rps::Paper)
    } else if spells_ignoring_case(t, move_name(Rps::Scissors)) {
        Some(Rps::Scissors)
    } else {
        None
    }
}

/// `a` beats `b`: rock blunts scissors, paper wraps rock, scissors cut paper.
pub open spec fn beats(a: Rps, b: Rps) -> bool {
    (a == Rps::Rock && b == Rps::Scissors) || (a == Rps::Paper && b == Rps::Rock) || (a
        == Rps::Scissors && b == Rps::Paper)
}

/// The result for the player of `own` against `other`.
pub open spec fn spec_outcome(own: Rps, other: Rps) -> RpsResult {
    if own == other {
        RpsResult::Tie
    } else if beats(own, other) {
        RpsResult::Win
    } else {
        RpsResult::Loss
    }
}

/// Whether `t` spells the lower-case word `w`, letters in either case.
fn spells(t: &str, w: &str) -> (r: bool)
    requires
        forall|i: int| 0 <= i < w@.len() ==> 'a' <= #[trigger] w@[i] <= 'z',
    ensures
        r == spells_ignoring_case(t@, w@),
{
    let n = t.unicode_len();
    if n != w.unicode_len() {
        return false;
    }
    let mut i: usize = 0;
    while i < n
        invariant
            n == t@.len(),
            n == w@.len(),
            i <= n,
            forall|j: int|
                0 <= j < i ==> t@[j] == w@[j] || (t@[j] as u32) + 32 == #[trigger] (w@[j] as u32),
        decreases n - i,
    {
        let c = t.get_char(i);
        let d = w.get_char(i);
        if !(c == d || (c as u32) + 32 == d as u32) {
            return false;
        }
        i = i + 1;
    }
    true
}

impl Rps {
    /// The move a token names, in any mix of letter cases; `Err` for any
    /// other token.
    pub fn from_str(input: &str) -> (r: Result<Rps, ()>)
        ensures
            r == (match spec_parse(input@) {
                Some(m) => Ok::<Rps, ()>(m),
                None => Err(()),
            }),
    {
        proof {
            reveal_strlit("rock");
            reveal_strlit("paper");
            reveal_strlit("scissors");
        }
        assert("rock"@ == move_name(Rps::Rock));
        assert("paper"@ == move_name(Rps::Paper));
        assert("scissors"@ == move_name(Rps::Scissors));
        if spells(input, "rock") {
            Ok(Rps::Rock)
        } else if spells(input, "paper") {
            Ok(Rps::Paper)
        } else if spells(input, "scissors") {
            Ok(Rps::Scissors)
        } else {
            Err(())
        }
    }
}

/// The payoff table: the result for the player of `own` against `other`.
pub fn outcome(own: Rps, other: Rps) -> (r: RpsResult)
    ensures
        r == spec_outcome(own, other),
{
    match (own, other) {
        (Rps::Rock, Rps::Rock) => RpsResult::Tie,
        (Rps::Rock, Rps::Paper) => RpsResult::Loss,
        (Rps::Rock, Rps::Scissors) => RpsResult::Win,
        (Rps::Paper, Rps::Rock) => RpsResult::Win,
        (Rps::Paper, Rps::Paper) => RpsResult::Tie,
        (Rps::Paper, Rps::Scissors) => RpsResult::Loss,
        (Rps::Scissors, Rps::Rock) => RpsResult::Loss,
        (Rps::Scissors, Rps::Paper) => RpsResult::Win,
        (Rps::Scissors, Rps::Scissors) => RpsResult::Tie,
    }
}

/// The payoff table is antisymmetric: one player wins exactly when the other,
/// with the moves swapped, loses; and equal moves tie.
pub proof fn lemma_outcome_antisymmetric(x: Rps, y: Rps)
    ensures
        spec_outcome(x, y) == RpsResult::Win <==> spec_outcome(y, x) == RpsResult::Loss,
        spec_outcome(x, x) == RpsResult::Tie,
{
}

} // verus!
