//! A wagered rock-paper-scissors match between a challenger and an opponent.
//!
//! The session checks the wager before anything is shown, then waits for the
//! opponent to accept and for each player's move in turn, and settles with a
//! single ledger transfer once both moves are known.  No balance changes
//! before settlement: a session abandoned at any earlier point costs nobody
//! anything.

use vstd::prelude::*;

use crate::ledger::{spec_transfer, JohnsonError, Ledger};
use crate::rps::{outcome, spec_outcome, spec_parse, Rps, RpsResult};

verus! {

/// How long the opponent and each player have to reply, in seconds.
pub const REPLY_TIMEOUT_SECS: u64 = 60;

/// Where a session stands.
#[derive(Debug, Clone, Copy, PartialEq, Eq, Structural)]
pub enum Phase {
    /// The opponent has been asked to accept or decline.
    AwaitingAcceptance,
    /// The challenger has been asked for a move.
    AwaitingChallengerMove,
    /// The opponent has been asked for a move; the challenger's is known.
    AwaitingOpponentMove,
    /// Both moves are known; the session is ready to settle.
    Resolved,
    /// The opponent declined.
    Declined,
    /// A reply did not come in time, or named no move.
    TimedOut,
}

/// Why a wager was refused before it started.
#[derive(Debug, Clone, Copy, PartialEq, Eq, Structural)]
pub enum WagerRejection {
    /// A player challenged themselves, or challenged an automated account.
    InvalidWagerTarget,
    /// This player's balance is below the stake.
    InsufficientFunds(i64),
}

/// A match in progress.
#[derive(Debug, Clone, Copy, PartialEq, Eq)]
pub struct WagerSession {
    pub challenger: i64,
    pub opponent: i64,
    pub stake: u64,
    pub phase: Phase,
    pub challenger_move: Option<Rps>,
    pub opponent_move: Option<Rps>,
}

/// The token of the button that declines a challenge.
pub open spec fn decline_token() -> Seq<char> {
    seq!['d', 'e', 'c', 'l', 'i', 'n', 'e']
}

impl WagerSession {
    /// The moves that are known are those that the phase says are known.
    pub open spec fn wf(&self) -> bool {
        &&& self.challenger != self.opponent
        &&& self.phase == Phase::AwaitingOpponentMove || self.phase == Phase::Resolved
            ==> self.challenger_move is Some
        &&& self.phase == Phase::AwaitingAcceptance || self.phase == Phase::AwaitingChallengerMove
            || self.phase == Phase::Declined ==> self.challenger_move is None
        &&& (self.opponent_move is Some) <==> self.phase == Phase::Resolved
    }

    /// Opens a match of `challenger` against `opponent` for `stake`, given the
    /// two balances as the ledger holds them.  A player may not challenge
    /// themselves or an automated account, and both must hold the stake.
    pub fn start(
        challenger: i64,
        opponent: i64,
        opponent_is_bot: bool,
        stake: u64,
        challenger_balance: i64,
        opponent_balance: i64,
    ) -> (r: Result<WagerSession, WagerRejection>)
        ensures
            challenger == opponent || opponent_is_bot ==> r == Err::<WagerSession, WagerRejection>(
                WagerRejection::InvalidWagerTarget,
            ),
            challenger != opponent && !opponent_is_bot && challenger_balance < stake ==> r == Err::<
                WagerSession,
                WagerRejection,
            >(WagerRejection::InsufficientFunds(challenger)),
            challenger != opponent && !opponent_is_bot && challenger_balance >= stake
                && opponent_balance < stake ==> r == Err::<WagerSession, WagerRejection>(
                WagerRejection::InsufficientFunds(opponent),
            ),
            challenger != opponent && !opponent_is_bot && challenger_balance >= stake
                && opponent_balance >= stake ==> r == Ok::<WagerSession, WagerRejection>(
                (WagerSession {
                    challenger,
                    opponent,
                    stake,
                    phase: Phase::AwaitingAcceptance,
                    challenger_move: None,
                    opponent_move: None,
                }),
            ),
            r matches Ok(s) ==> s.wf(),
    {
        if challenger == opponent || opponent_is_bot {
            return Err(WagerRejection::InvalidWagerTarget);
        }
        if (challenger_balance as i128) < stake as i128 {
            return Err(WagerRejection::InsufficientFunds(challenger));
        }
        if (opponent_balance as i128) < stake as i128 {
            return Err(WagerRejection::InsufficientFunds(opponent));
        }
        Ok(
            WagerSession {
                challenger,
                opponent,
                stake,
                phase: Phase::AwaitingAcceptance,
                challenger_move: None,
                opponent_move: None,
            },
        )
    }

    /// Takes the opponent's reply to the challenge: the token of the button
    /// pressed, or `None` when no reply came in time.  The decline button
    /// ends the session; any other button accepts it.
    pub fn on_acceptance(&mut self, reply: Option<&str>) -> (r: Phase)
        requires
            old(self).wf(),
            old(self).phase == Phase::AwaitingAcceptance,
        ensures
            final(self).wf(),
            r == final(self).phase,
            *final(self) == (WagerSession { phase: r, ..*old(self) }),
            r == (match reply {
                None => Phase::TimedOut,
                Some(t) => if t@ == decline_token() {
                    Phase::Declined
                } else {
                    Phase::AwaitingChallengerMove
                },
            }),
    {
        let next = match reply {
            None => Phase::TimedOut,
            Some(t) => {
                proof {
                    reveal_strlit("decline");
                }
                assert("decline"@ == decline_token());
                if str_eq(t, "decline") {
                    Phase::Declined
                } else {
                    Phase::AwaitingChallengerMove
                }
            },
        };
        self.phase = next;
        next
    }

    /// Takes the reply of the player whose move is awaited: the token of the
    /// button pressed, or `None` when no reply came in time.  A token that
    /// names no move counts as no reply and ends the session.
    pub fn on_move(&mut self, reply: Option<&str>) -> (r: Phase)
        requires
            old(self).wf(),
            old(self).phase == Phase::AwaitingChallengerMove || old(self).phase
                == Phase::AwaitingOpponentMove,
        ensures
            final(self).wf(),
            r == final(self).phase,
            final(self).challenger == old(self).challenger,
            final(self).opponent == old(self).opponent,
            final(self).stake == old(self).stake,
            ({
                let m = match reply {
                    None => None,
                    Some(t) => spec_parse(t@),
                };
                match m {
                    None => *final(self) == (WagerSession { phase: Phase::TimedOut, ..*old(self) }),
                    Some(mv) => if old(self).phase == Phase::AwaitingChallengerMove {
                        *final(self) == (WagerSession {
                            phase: Phase::AwaitingOpponentMove,
                            challenger_move: Some(mv),
                            ..*old(self)
                        })
                    } else {
                        *final(self) == (WagerSession {
                            phase: Phase::Resolved,
                            opponent_move: Some(mv),
                            ..*old(self)
                        })
                    },
                }
            }),
    {
        let mv = match reply {
            None => None,
            Some(t) => match Rps::from_str(t) {
                Ok(m) => Some(m),
                Err(_) => None,
            },
        };
        match mv {
            None => {
                self.phase = Phase::TimedOut;
            },
            Some(m) => {
                if self.phase == Phase::AwaitingChallengerMove {
                    self.challenger_move = Some(m);
                    self.phase = Phase::AwaitingOpponentMove;
                } else {
                    self.opponent_move = Some(m);
                    self.phase = Phase::Resolved;
                }
            },
        }
        self.phase
    }
}

impl WagerSession {
    /// The result for the challenger of a resolved session.
    pub open spec fn spec_result(&self) -> RpsResult {
        spec_outcome(self.challenger_move->Some_0, self.opponent_move->Some_0)
    }

    /// Settles a resolved session: on a win of either player, one transfer of
    /// the stake from the loser to the winner; on a tie, nothing.  The result
    /// for the challenger, or the reason the transfer was refused, in which
    /// case no balance changed.  Taking the session by value, settlement
    /// happens at most once.
    pub fn settle(self, ledger: &mut Ledger) -> (r: Result<RpsResult, JohnsonError>)
        requires
            self.wf(),
            self.phase == Phase::Resolved,
            old(ledger).wf(),
            old(ledger)@.contains_key(self.challenger),
            old(ledger)@.contains_key(self.opponent),
        ensures
            final(ledger).wf(),
            self.spec_result() == RpsResult::Tie ==> final(ledger)@ == old(ledger)@ && r == Ok::<
                RpsResult,
                JohnsonError,
            >(RpsResult::Tie),
            self.spec_result() == RpsResult::Win ==> match spec_transfer(
                old(ledger)@,
                self.opponent,
                self.challenger,
                self.stake,
            ) {
                Ok(m) => final(ledger)@ == m && r == Ok::<RpsResult, JohnsonError>(RpsResult::Win),
                Err(e) => final(ledger)@ == old(ledger)@ && r == Err::<RpsResult, JohnsonError>(e),
            },
            self.spec_result() == RpsResult::Loss ==> match spec_transfer(
                old(ledger)@,
                self.challenger,
                self.opponent,
                self.stake,
            ) {
                Ok(m) => final(ledger)@ == m && r == Ok::<RpsResult, JohnsonError>(RpsResult::Loss),
                Err(e) => final(ledger)@ == old(ledger)@ && r == Err::<RpsResult, JohnsonError>(e),
            },
    {
        let cm = self.challenger_move.unwrap();
        let om = self.opponent_move.unwrap();
        let result = outcome(cm, om);
        match result {
            RpsResult::Tie => Ok(RpsResult::Tie),
            RpsResult::Win => match ledger.transfer(self.opponent, self.challenger, self.stake) {
                Ok(()) => Ok(RpsResult::Win),
                Err(e) => Err(e),
            },
            RpsResult::Loss => match ledger.transfer(self.challenger, self.opponent, self.stake) {
                Ok(()) => Ok(RpsResult::Loss),
                Err(e) => Err(e),
            },
        }
    }
}

/// Whether two strings hold the same characters.
fn str_eq(a: &str, b: &str) -> (r: bool)
    ensures
        r == (a@ == b@),
{
    let n = a.unicode_len();
    if n != b.unicode_len() {
        return false;
    }
    let mut i: usize = 0;
    while i < n
        invariant
            n == a@.len(),
            n == b@.len(),
            i <= n,
            forall|j: int| 0 <= j < i ==> a@[j] == b@[j],
        decreases n - i,
    {
        if a.get_char(i) != b.get_char(i) {
            return false;
        }
        i = i + 1;
    }
    assert(a@ =~= b@);
    true
}

} // verus!
