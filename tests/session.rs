use johnson::ledger::{JohnsonError, Ledger};
use johnson::rps::{Rps, RpsResult};
use johnson::session::{Phase, WagerRejection, WagerSession};
use johnson::waiter::{InteractionWaiter, WaitEvent, WaitStep};

const CHALLENGER: i64 = 11;
const OPPONENT: i64 = 22;

fn ledger_with(challenger: u64, opponent: u64) -> Ledger {
    let mut ledger = Ledger::new();
    ledger.get_or_create(CHALLENGER, String::from("challenger"));
    ledger.get_or_create(OPPONENT, String::from("opponent"));
    if challenger > 0 {
        ledger.credit(CHALLENGER, challenger).unwrap();
    }
    if opponent > 0 {
        ledger.credit(OPPONENT, opponent).unwrap();
    }
    ledger
}

fn balances(ledger: &Ledger) -> (i64, i64) {
    (ledger.get(CHALLENGER).unwrap().vbucks, ledger.get(OPPONENT).unwrap().vbucks)
}

fn open(ledger: &Ledger, stake: u64) -> Result<WagerSession, WagerRejection> {
    let (c, o) = balances(ledger);
    WagerSession::start(CHALLENGER, OPPONENT, false, stake, c, o)
}

/// Feeds events to a waiter until it finishes; the redirected actors and the
/// result.
fn wait(target: i64, events: Vec<WaitEvent>) -> (Vec<i64>, Option<String>) {
    let mut waiter = InteractionWaiter::new(target);
    let mut redirected = Vec::new();
    for event in events {
        match waiter.on_event(event) {
            WaitStep::Redirect(actor) => redirected.push(actor),
            WaitStep::Finish(result) => return (redirected, result),
        }
    }
    let step = waiter.on_event(WaitEvent::Closed);
    assert_eq!(step, WaitStep::Finish(None));
    (redirected, None)
}

fn press(actor: i64, token: &str) -> WaitEvent {
    WaitEvent::Action { actor, token: String::from(token) }
}

#[test]
fn challenger_wins_with_rock_over_scissors() {
    let mut ledger = ledger_with(150, 100);
    let mut session = open(&ledger, 100).unwrap();
    assert_eq!(session.phase, Phase::AwaitingAcceptance);
    assert_eq!(session.on_acceptance(Some("accept")), Phase::AwaitingChallengerMove);
    assert_eq!(session.on_move(Some("rock")), Phase::AwaitingOpponentMove);
    assert_eq!(session.on_move(Some("scissors")), Phase::Resolved);
    assert_eq!(session.challenger_move, Some(Rps::Rock));
    assert_eq!(session.opponent_move, Some(Rps::Scissors));
    assert_eq!(session.settle(&mut ledger), Ok(RpsResult::Win));
    assert_eq!(balances(&ledger), (250, 0));
}

#[test]
fn opponent_wins_and_takes_the_stake() {
    let mut ledger = ledger_with(100, 100);
    let mut session = open(&ledger, 60).unwrap();
    session.on_acceptance(Some("accept"));
    session.on_move(Some("Paper"));
    session.on_move(Some("Scissors"));
    assert_eq!(session.settle(&mut ledger), Ok(RpsResult::Loss));
    assert_eq!(balances(&ledger), (40, 160));
}

#[test]
fn tie_moves_no_funds() {
    let mut ledger = ledger_with(100, 100);
    let mut session = open(&ledger, 100).unwrap();
    session.on_acceptance(Some("accept"));
    session.on_move(Some("rock"));
    session.on_move(Some("ROCK"));
    assert_eq!(session.settle(&mut ledger), Ok(RpsResult::Tie));
    assert_eq!(balances(&ledger), (100, 100));
}

#[test]
fn declined_challenge_moves_no_funds() {
    let ledger = ledger_with(200, 200);
    let mut session = open(&ledger, 100).unwrap();
    assert_eq!(session.on_acceptance(Some("decline")), Phase::Declined);
    assert_eq!(session.phase, Phase::Declined);
    assert_eq!(balances(&ledger), (200, 200));
}

#[test]
fn challenger_short_of_the_stake_is_refused_before_any_prompt() {
    let ledger = ledger_with(50, 500);
    assert_eq!(open(&ledger, 100), Err(WagerRejection::InsufficientFunds(CHALLENGER)));
    assert_eq!(balances(&ledger), (50, 500));
}

#[test]
fn opponent_short_of_the_stake_is_refused() {
    let ledger = ledger_with(500, 99);
    assert_eq!(open(&ledger, 100), Err(WagerRejection::InsufficientFunds(OPPONENT)));
}

#[test]
fn self_challenge_and_bot_opponent_are_refused() {
    assert_eq!(
        WagerSession::start(CHALLENGER, CHALLENGER, false, 10, 100, 100),
        Err(WagerRejection::InvalidWagerTarget)
    );
    assert_eq!(
        WagerSession::start(CHALLENGER, OPPONENT, true, 10, 100, 100),
        Err(WagerRejection::InvalidWagerTarget)
    );
}

#[test]
fn opponent_silent_during_moves_times_out() {
    let ledger = ledger_with(100, 100);
    let mut session = open(&ledger, 100).unwrap();
    session.on_acceptance(Some("accept"));
    session.on_move(Some("rock"));
    let (_, reply) = wait(OPPONENT, vec![WaitEvent::TimedOut]);
    assert_eq!(reply, None);
    assert_eq!(session.on_move(reply.as_deref()), Phase::TimedOut);
    assert_eq!(balances(&ledger), (100, 100));
}

#[test]
fn challenger_silent_times_out() {
    let mut session = WagerSession::start(CHALLENGER, OPPONENT, false, 0, 0, 0).unwrap();
    session.on_acceptance(Some("accept"));
    assert_eq!(session.on_move(None), Phase::TimedOut);
}

#[test]
fn acceptance_timeout_ends_the_session() {
    let mut session = WagerSession::start(CHALLENGER, OPPONENT, false, 5, 5, 5).unwrap();
    assert_eq!(session.on_acceptance(None), Phase::TimedOut);
}

#[test]
fn unknown_move_token_counts_as_no_reply() {
    let mut session = WagerSession::start(CHALLENGER, OPPONENT, false, 5, 5, 5).unwrap();
    session.on_acceptance(Some("accept"));
    assert_eq!(session.on_move(Some("lizard")), Phase::TimedOut);
    assert_eq!(session.challenger_move, None);
}

#[test]
fn settlement_failure_is_reported_and_moves_nothing() {
    let mut ledger = ledger_with(100, 100);
    let mut session = open(&ledger, 100).unwrap();
    session.on_acceptance(Some("accept"));
    session.on_move(Some("rock"));
    session.on_move(Some("paper"));
    ledger.debit(CHALLENGER, 30).unwrap();
    let payer = ledger.get(CHALLENGER).unwrap();
    assert_eq!(session.settle(&mut ledger), Err(JohnsonError::InsufficientFunds(payer, 100)));
    assert_eq!(balances(&ledger), (70, 100));
}

#[test]
fn waiter_redirects_other_users_and_returns_the_target() {
    let (redirected, reply) = wait(
        OPPONENT,
        vec![press(33, "accept"), press(CHALLENGER, "decline"), press(OPPONENT, "accept"), press(OPPONENT, "decline")],
    );
    assert_eq!(redirected, vec![33, CHALLENGER]);
    assert_eq!(reply, Some(String::from("accept")));
}

#[test]
fn waiter_finishes_once_on_timeout() {
    let mut waiter = InteractionWaiter::new(OPPONENT);
    assert_eq!(waiter.on_event(press(5, "rock")), WaitStep::Redirect(5));
    assert!(!waiter.finished);
    assert_eq!(waiter.on_event(WaitEvent::TimedOut), WaitStep::Finish(None));
    assert!(waiter.finished);
}

#[test]
fn waiter_finishes_when_the_stream_ends() {
    let (redirected, reply) = wait(OPPONENT, vec![press(5, "rock")]);
    assert_eq!(redirected, vec![5]);
    assert_eq!(reply, None);
}

#[test]
fn full_match_through_waiters() {
    let mut ledger = ledger_with(300, 300);
    let mut session = open(&ledger, 120).unwrap();
    let (_, accept) = wait(OPPONENT, vec![press(CHALLENGER, "accept"), press(OPPONENT, "accept")]);
    session.on_acceptance(accept.as_deref());
    let (_, first) = wait(CHALLENGER, vec![press(OPPONENT, "paper"), press(CHALLENGER, "scissors")]);
    session.on_move(first.as_deref());
    let (_, second) = wait(OPPONENT, vec![press(OPPONENT, "paper")]);
    session.on_move(second.as_deref());
    assert_eq!(session.settle(&mut ledger), Ok(RpsResult::Win));
    assert_eq!(balances(&ledger), (420, 180));
}
