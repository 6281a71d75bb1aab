//! The passive reward of a chat message: a few vbucks and a fixed amount of
//! experience, and a level-up event when the experience crosses into a higher
//! level.

use vstd::prelude::*;

use crate::ledger::{
    spec_credit, spec_get_or_create, spec_grant, DbUser, JohnsonError, Ledger, LevelChange,
};

verus! {

/// The least vbucks a message earns.
pub const MONEY_MIN: u64 = 5;

/// One above the most vbucks a message earns.
pub const MONEY_MAX: u64 = 20;

/// The experience a message earns.
pub const EXP_PER_MESSAGE: u64 = 100;

/// A user reached a higher level; the bot tells them so.
#[derive(Debug, Clone, Copy, PartialEq, Eq)]
pub struct LevelUp {
    pub user: i64,
    pub old_level: i64,
    pub new_level: i64,
}

/// What rewarding one message did.  The credit and the grant are attempted
/// and reported each on its own: a refusal of one does not stop the other.
#[derive(Debug, PartialEq, Eq)]
pub struct RewardReport {
    /// The vbucks the message earned.
    pub money: u64,
    /// The new balance, or why the credit was refused.
    pub credit: Result<i64, JohnsonError>,
    /// The levels before and after the grant, or why it was refused.
    pub experience: Result<LevelChange, JohnsonError>,
    /// Present exactly when the grant raised the level.
    pub level_up: Option<LevelUp>,
}

/// The level-up event that a grant's result calls for.
pub open spec fn level_up_of(user: i64, experience: Result<LevelChange, JohnsonError>) -> Option<
    LevelUp,
> {
    match experience {
        Ok(c) => if c.new_level > c.old_level {
            Some(LevelUp { user, old_level: c.old_level, new_level: c.new_level })
        } else {
            None
        },
        Err(_) => None,
    }
}

/// The accounts once the credit of a reward was applied, or left alone when it
/// was refused.
pub open spec fn after_credit(m: Map<i64, DbUser>, user: i64, money: u64) -> Map<i64, DbUser> {
    match spec_credit(m, user, money) {
        Ok(after) => after,
        Err(_) => m,
    }
}

/// Rewarding a message of `user` with `money` vbucks took the accounts from
/// `before` to `after` and reported `r`: the account was looked up (and made,
/// under `name`, when missing), then credited, then granted experience.
pub open spec fn rewarded(
    before: Map<i64, DbUser>,
    after: Map<i64, DbUser>,
    user: i64,
    name: String,
    money: u64,
    r: RewardReport,
) -> bool {
    let looked_up = spec_get_or_create(before, user, name);
    let credited = after_credit(looked_up, user, money);
    &&& r.money == money
    &&& r.credit == match spec_credit(looked_up, user, money) {
        Ok(m) => Ok::<i64, JohnsonError>(m[user].vbucks),
        Err(e) => Err(e),
    }
    &&& spec_grant(credited, user, EXP_PER_MESSAGE, r.experience, after)
    &&& r.level_up == level_up_of(user, r.experience)
}

/// Rewards a message of `user`, who goes by `name`, with `money` vbucks and
/// `EXP_PER_MESSAGE` experience.
pub fn reward_message(ledger: &mut Ledger, user: i64, name: String, money: u64) -> (r: RewardReport)
    requires
        old(ledger).wf(),
    ensures
        final(ledger).wf(),
        rewarded(old(ledger)@, final(ledger)@, user, name, money, r),
{
    let _account = ledger.get_or_create(user, name);
    let credit = ledger.credit(user, money);
    let experience = ledger.grant_experience(user, EXP_PER_MESSAGE);
    let level_up = match &experience {
        Ok(c) => if c.leveled_up() {
            Some(LevelUp { user, old_level: c.old_level, new_level: c.new_level })
        } else {
            None
        },
        Err(_) => None,
    };
    RewardReport { money, credit, experience, level_up }
}

/// Relies on `rand::Rng::gen_range` over `rand::thread_rng`: a value drawn
/// uniformly from the half-open range `low..high`, which panics when the range
/// is empty.
#[verifier::external_body]
fn draw_in_range(low: u64, high: u64) -> (r: u64)
    requires
        low < high,
    ensures
        low <= r < high,
{
    rand::Rng::gen_range(&mut rand::thread_rng(), low..high)
}

/// Rewards a message of `user`, who goes by `name`, with a number of vbucks
/// drawn from `MONEY_MIN..MONEY_MAX` and `EXP_PER_MESSAGE` experience.
pub fn reward_messenger(ledger: &mut Ledger, user: i64, name: String) -> (r: RewardReport)
    requires
        old(ledger).wf(),
    ensures
        final(ledger).wf(),
        MONEY_MIN <= r.money < MONEY_MAX,
        rewarded(old(ledger)@, final(ledger)@, user, name, r.money, r),
{
    let money = draw_in_range(MONEY_MIN, MONEY_MAX);
    reward_message(ledger, user, name, money)
}

} // verus!
