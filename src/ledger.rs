//! The per-community ledger: each user's balance, experience and level, and
//! the operations that change them.  Every operation checks all that can make
//! it fail before it changes anything, so a failed operation leaves the ledger
//! as it was.

use std::collections::HashMap;
use vstd::prelude::*;

use crate::leveling::{
    exp_to_level, is_consistent, is_level_of, lemma_threshold_increasing,
    lemma_threshold_lower_bound, lemma_threshold_not_max, level_threshold, level_to_exp,
    saturate_i64,
};

verus! {

broadcast use vstd::std_specs::hash::group_hash_axioms;

/// One user's record in one community.
#[derive(Debug, Clone, PartialEq, Eq)]
pub struct DbUser {
    /// The name the user had when the record was made.
    pub name: String,
    /// The user's id on the chat platform.
    pub id: i64,
    /// Balance, in vbucks.
    pub vbucks: i64,
    /// Experience.
    pub exp: i64,
    /// Level, recomputed from experience whenever experience is granted.
    pub level: i64,
}

/// Why a ledger operation was refused.  A refused operation changes nothing.
#[derive(Debug, Clone, PartialEq, Eq)]
pub enum JohnsonError {
    /// The account, as it stood, holds less than the amount to be taken.
    InsufficientFunds(DbUser, u64),
    /// A transfer named the same account on both sides.
    SelfTransfer(i64),
    /// Adding the amount to the account's balance would not fit an `i64`.
    BalanceOverflow(i64, u64),
    /// Adding the amount to the account's experience would not fit an `i64`.
    ExperienceOverflow(i64, u64),
}

/// The level of an account before and after experience was granted.
#[derive(Debug, Clone, Copy, PartialEq, Eq)]
pub struct LevelChange {
    pub old_level: i64,
    pub new_level: i64,
}

impl LevelChange {
    /// Whether the grant crossed into a higher level.
    pub fn leveled_up(&self) -> (r: bool)
        ensures
            r == (self.new_level > self.old_level),
    {
        self.new_level > self.old_level
    }
}

/// `u` with its balance set to `b`.
pub open spec fn with_vbucks(u: DbUser, b: int) -> DbUser {
    DbUser { vbucks: b as i64, ..u }
}

/// `u` with its experience and level set.
pub open spec fn with_exp_level(u: DbUser, exp: int, level: int) -> DbUser {
    DbUser { exp: exp as i64, level: level as i64, ..u }
}

/// The account of `id` in `m`, or a fresh one under `name`: no vbucks, no
/// experience, level zero.
pub open spec fn account_or_fresh(m: Map<i64, DbUser>, id: i64, name: String) -> DbUser {
    if m.contains_key(id) {
        m[id]
    } else {
        DbUser { name, id, vbucks: 0, exp: 0, level: 0 }
    }
}

/// The accounts once `id` has been looked up, and created when missing.
pub open spec fn spec_get_or_create(m: Map<i64, DbUser>, id: i64, name: String) -> Map<
    i64,
    DbUser,
> {
    m.insert(id, account_or_fresh(m, id, name))
}

/// What a credit of `amount` to `id` makes of the accounts.
pub open spec fn spec_credit(m: Map<i64, DbUser>, id: i64, amount: u64) -> Result<
    Map<i64, DbUser>,
    JohnsonError,
> {
    let u = m[id];
    if u.vbucks + amount > i64::MAX {
        Err(JohnsonError::BalanceOverflow(id, amount))
    } else {
        Ok(m.insert(id, with_vbucks(u, u.vbucks + amount)))
    }
}

/// What a debit of `amount` from `id` makes of the accounts.
pub open spec fn spec_debit(m: Map<i64, DbUser>, id: i64, amount: u64) -> Result<
    Map<i64, DbUser>,
    JohnsonError,
> {
    let u = m[id];
    if u.vbucks < amount {
        Err(JohnsonError::InsufficientFunds(u, amount))
    } else {
        Ok(m.insert(id, with_vbucks(u, u.vbucks - amount)))
    }
}

/// What a transfer of `amount` from `from` to `to` makes of the accounts: a
/// guarded debit and a credit, both or neither.
pub open spec fn spec_transfer(m: Map<i64, DbUser>, from: i64, to: i64, amount: u64) -> Result<
    Map<i64, DbUser>,
    JohnsonError,
> {
    let f = m[from];
    let t = m[to];
    if from == to {
        Err(JohnsonError::SelfTransfer(from))
    } else if f.vbucks < amount {
        Err(JohnsonError::InsufficientFunds(f, amount))
    } else if t.vbucks + amount > i64::MAX {
        Err(JohnsonError::BalanceOverflow(to, amount))
    } else {
        Ok(
            m.insert(from, with_vbucks(f, f.vbucks - amount)).insert(
                to,
                with_vbucks(t, t.vbucks + amount),
            ),
        )
    }
}

/// The experience a grant starts from: the stored experience when it lies
/// within the stored level, else the threshold of that level.
pub open spec fn repaired_exp(u: DbUser) -> int {
    if is_consistent(u.level as int, u.exp as int) {
        u.exp as int
    } else {
        saturate_i64(level_threshold(u.level as nat))
    }
}

/// Experience and level are both stored atomically: this is what a grant of
/// `amount` leaves in the record, given the level that the new experience has.
pub open spec fn granted(u: DbUser, amount: u64, level: int) -> DbUser {
    with_exp_level(u, repaired_exp(u) + amount, level)
}

/// What a grant of `amount` experience to `id` returns and leaves, as
/// `Ledger::grant_experience` states it.
pub open spec fn spec_grant(
    m: Map<i64, DbUser>,
    id: i64,
    amount: u64,
    r: Result<LevelChange, JohnsonError>,
    after: Map<i64, DbUser>,
) -> bool {
    let u = m[id];
    let exp = repaired_exp(u) + amount;
    match r {
        Ok(c) => {
            &&& exp <= i64::MAX
            &&& c.old_level == u.level
            &&& is_level_of(exp, c.new_level as int)
            &&& after == m.insert(id, granted(u, amount, c.new_level as int))
        },
        Err(e) => {
            &&& exp > i64::MAX
            &&& e == JohnsonError::ExperienceOverflow(id, amount)
            &&& after == m
        },
    }
}

/// Whether a record's experience lies within its stored level: at or above
/// that level's threshold and at or below the next one's.
pub fn validate_user_exp(user: &DbUser) -> (r: bool)
    ensures
        r == is_consistent(user.level as int, user.exp as int),
{
    if user.level < 0 {
        return false;
    }
    let min_exp = level_to_exp(user.level);
    proof {
        lemma_threshold_not_max(user.level as nat);
    }
    if min_exp == i64::MAX {
        return false;
    }
    proof {
        lemma_threshold_increasing(user.level as nat);
        lemma_threshold_lower_bound(user.level as nat);
    }
    let next_exp = level_to_exp(user.level + 1);
    user.exp >= min_exp && user.exp <= next_exp
}

impl DbUser {
    /// A copy of the record.
    pub fn snapshot(&self) -> (r: DbUser)
        ensures
            r == *self,
    {
        DbUser {
            name: self.name.clone(),
            id: self.id,
            vbucks: self.vbucks,
            exp: self.exp,
            level: self.level,
        }
    }
}

/// The accounts of one community, keyed by user id.
pub struct Ledger {
    accounts: HashMap<i64, DbUser>,
}

impl View for Ledger {
    type V = Map<i64, DbUser>;

    closed spec fn view(&self) -> Map<i64, DbUser> {
        self.accounts@
    }
}

impl Ledger {
    /// Each account is filed under its own id, at a level that is not negative.
    pub closed spec fn wf(&self) -> bool {
        forall|id: i64| #[trigger]
            self@.contains_key(id) ==> self@[id].id == id && self@[id].level >= 0
    }

    /// A ledger with no accounts.
    pub fn new() -> (r: Ledger)
        ensures
            r.wf(),
            r@ == Map::<i64, DbUser>::empty(),
    {
        Ledger { accounts: HashMap::new() }
    }

    /// The account of `id`, if it has one.
    pub fn get(&self, id: i64) -> (r: Option<DbUser>)
        ensures
            r == (if self@.contains_key(id) {
                Some(self@[id])
            } else {
                None
            }),
    {
        match self.accounts.get(&id) {
            Some(u) => Some(u.snapshot()),
            None => None,
        }
    }

    /// The account of `id`; a fresh one under `name` when it has none.
    pub fn get_or_create(&mut self, id: i64, name: String) -> (r: DbUser)
        requires
            old(self).wf(),
        ensures
            final(self).wf(),
            r == account_or_fresh(old(self)@, id, name),
            final(self)@ == spec_get_or_create(old(self)@, id, name),
    {
        match self.accounts.get(&id) {
            Some(u) => {
                assert(old(self)@.insert(id, old(self)@[id]) =~= old(self)@);
                u.snapshot()
            },
            None => {
                let fresh = DbUser { name, id, vbucks: 0, exp: 0, level: 0 };
                self.accounts.insert(id, fresh.snapshot());
                assert forall|k: i64| #[trigger] self@.contains_key(k) implies self@[k].id == k
                    && self@[k].level >= 0 by {
                    if k != id {
                        assert(old(self)@.contains_key(k));
                    }
                }
                fresh
            },
        }
    }

    /// Stores a record as it was read back from storage, replacing any
    /// account under the same id.
    pub fn restore(&mut self, user: DbUser)
        requires
            old(self).wf(),
            user.level >= 0,
        ensures
            final(self).wf(),
            final(self)@ == old(self)@.insert(user.id, user),
    {
        let id = user.id;
        self.accounts.insert(id, user);
        assert forall|k: i64| #[trigger] self@.contains_key(k) implies self@[k].id == k
            && self@[k].level >= 0 by {
            if k != id {
                assert(old(self)@.contains_key(k));
            }
        }
    }

    /// Replaces the balance of an account.
    fn set_vbucks(&mut self, id: i64, vbucks: i64)
        requires
            old(self).wf(),
            old(self)@.contains_key(id),
        ensures
            final(self).wf(),
            final(self)@ == old(self)@.insert(id, with_vbucks(old(self)@[id], vbucks as int)),
    {
        let u = self.accounts.get(&id).unwrap();
        let updated = DbUser {
            name: u.name.clone(),
            id: u.id,
            vbucks,
            exp: u.exp,
            level: u.level,
        };
        self.accounts.insert(id, updated);
    }

    /// Adds `amount` to the balance of `id`; the new balance.
    pub fn credit(&mut self, id: i64, amount: u64) -> (r: Result<i64, JohnsonError>)
        requires
            old(self).wf(),
            old(self)@.contains_key(id),
        ensures
            final(self).wf(),
            match spec_credit(old(self)@, id, amount) {
                Ok(m) => final(self)@ == m && r == Ok::<i64, JohnsonError>(m[id].vbucks),
                Err(e) => final(self)@ == old(self)@ && r == Err::<i64, JohnsonError>(e),
            },
    {
        let balance = self.accounts.get(&id).unwrap().vbucks;
        if balance as i128 + amount as i128 > i64::MAX as i128 {
            return Err(JohnsonError::BalanceOverflow(id, amount));
        }
        let new_balance = (balance as i128 + amount as i128) as i64;
        self.set_vbucks(id, new_balance);
        Ok(new_balance)
    }

    /// Takes `amount` from the balance of `id`, unless it holds less; the new
    /// balance.
    pub fn debit(&mut self, id: i64, amount: u64) -> (r: Result<i64, JohnsonError>)
        requires
            old(self).wf(),
            old(self)@.contains_key(id),
        ensures
            final(self).wf(),
            match spec_debit(old(self)@, id, amount) {
                Ok(m) => final(self)@ == m && r == Ok::<i64, JohnsonError>(m[id].vbucks),
                Err(e) => final(self)@ == old(self)@ && r == Err::<i64, JohnsonError>(e),
            },
    {
        let u = self.accounts.get(&id).unwrap();
        if (u.vbucks as i128) < amount as i128 {
            return Err(JohnsonError::InsufficientFunds(u.snapshot(), amount));
        }
        let new_balance = (u.vbucks as i128 - amount as i128) as i64;
        self.set_vbucks(id, new_balance);
        Ok(new_balance)
    }

    /// Moves `amount` from `from` to `to`: both balances change, or, when the
    /// transfer is refused, neither does.
    pub fn transfer(&mut self, from: i64, to: i64, amount: u64) -> (r: Result<(), JohnsonError>)
        requires
            old(self).wf(),
            old(self)@.contains_key(from),
            old(self)@.contains_key(to),
        ensures
            final(self).wf(),
            match spec_transfer(old(self)@, from, to, amount) {
                Ok(m) => final(self)@ == m && r == Ok::<(), JohnsonError>(()),
                Err(e) => final(self)@ == old(self)@ && r == Err::<(), JohnsonError>(e),
            },
    {
        if from == to {
            return Err(JohnsonError::SelfTransfer(from));
        }
        let f = self.accounts.get(&from).unwrap();
        if (f.vbucks as i128) < amount as i128 {
            return Err(JohnsonError::InsufficientFunds(f.snapshot(), amount));
        }
        let from_balance = (f.vbucks as i128 - amount as i128) as i64;
        let to_balance = self.accounts.get(&to).unwrap().vbucks;
        if to_balance as i128 + amount as i128 > i64::MAX as i128 {
            return Err(JohnsonError::BalanceOverflow(to, amount));
        }
        let to_balance = (to_balance as i128 + amount as i128) as i64;
        self.set_vbucks(from, from_balance);
        self.set_vbucks(to, to_balance);
        Ok(())
    }

    /// Grants `amount` experience to `id`.  Experience that does not lie within
    /// the stored level is first reset to that level's threshold; the level is
    /// then recomputed from the new experience, and both are stored together.
    pub fn grant_experience(&mut self, id: i64, amount: u64) -> (r: Result<
        LevelChange,
        JohnsonError,
    >)
        requires
            old(self).wf(),
            old(self)@.contains_key(id),
        ensures
            final(self).wf(),
            spec_grant(old(self)@, id, amount, r, final(self)@),
    {
        let u = self.accounts.get(&id).unwrap();
        let old_level = u.level;
        let base: i64 = if validate_user_exp(u) {
            u.exp
        } else {
            level_to_exp(u.level)
        };
        if base as i128 + amount as i128 > i64::MAX as i128 {
            return Err(JohnsonError::ExperienceOverflow(id, amount));
        }
        let new_exp = (base as i128 + amount as i128) as i64;
        let new_level = exp_to_level(new_exp);
        let updated = DbUser {
            name: u.name.clone(),
            id: u.id,
            vbucks: u.vbucks,
            exp: new_exp,
            level: new_level,
        };
        self.accounts.insert(id, updated);
        assert forall|k: i64| #[trigger] self@.contains_key(k) implies self@[k].id == k
            && self@[k].level >= 0 by {
            if k != id {
                assert(old(self)@.contains_key(k));
            }
        }
        Ok(LevelChange { old_level, new_level })
    }
}

/// A successful transfer takes exactly `amount` from the payer, gives exactly
/// `amount` to the payee, leaves the sum of their balances as it was, and
/// touches no other account.
pub proof fn lemma_transfer_conserves(m: Map<i64, DbUser>, from: i64, to: i64, amount: u64)
    requires
        spec_transfer(m, from, to, amount) is Ok,
    ensures
        ({
            let after = spec_transfer(m, from, to, amount)->Ok_0;
            &&& after[from].vbucks == m[from].vbucks - amount
            &&& after[to].vbucks == m[to].vbucks + amount
            &&& after[from].vbucks + after[to].vbucks == m[from].vbucks + m[to].vbucks
            &&& forall|k: i64| k != from && k != to ==> #[trigger] after[k] == m[k]
        }),
{
}

/// A transfer between two accounts whose payer holds less than the amount is
/// refused as insufficient funds, naming the payer as it stood; a refused
/// transfer changes no balance (see `Ledger::transfer`).
pub proof fn lemma_transfer_insufficient(m: Map<i64, DbUser>, from: i64, to: i64, amount: u64)
    requires
        from != to,
        m[from].vbucks < amount,
    ensures
        spec_transfer(m, from, to, amount) == Err::<Map<i64, DbUser>, JohnsonError>(
            JohnsonError::InsufficientFunds(m[from], amount),
        ),
{
}

/// A debit or transfer that goes through never leaves the paying account with
/// a negative balance.
pub proof fn lemma_payer_stays_non_negative(m: Map<i64, DbUser>, op: LedgerOp)
    requires
        spec_apply(m, op) is Ok,
    ensures
        op matches LedgerOp::Debit(id, _) ==> spec_apply(m, op)->Ok_0[id].vbucks >= 0,
        op matches LedgerOp::Transfer(from, _, _) ==> spec_apply(m, op)->Ok_0[from].vbucks >= 0,
{
}

/// One balance operation of the ledger.
#[derive(Debug, Clone, Copy, PartialEq, Eq)]
pub enum LedgerOp {
    Credit(i64, u64),
    Debit(i64, u64),
    Transfer(i64, i64, u64),
}

/// What an operation makes of the accounts, as `Ledger`'s methods state it.
pub open spec fn spec_apply(m: Map<i64, DbUser>, op: LedgerOp) -> Result<
    Map<i64, DbUser>,
    JohnsonError,
> {
    match op {
        LedgerOp::Credit(id, amount) => spec_credit(m, id, amount),
        LedgerOp::Debit(id, amount) => spec_debit(m, id, amount),
        LedgerOp::Transfer(from, to, amount) => spec_transfer(m, from, to, amount),
    }
}

/// The accounts an operation names are all in `m`.
pub open spec fn names_accounts_of(m: Map<i64, DbUser>, op: LedgerOp) -> bool {
    match op {
        LedgerOp::Credit(id, _) => m.contains_key(id),
        LedgerOp::Debit(id, _) => m.contains_key(id),
        LedgerOp::Transfer(from, to, _) => m.contains_key(from) && m.contains_key(to),
    }
}

/// The change that an operation, once applied, makes to the balance of `id`.
pub open spec fn delta(op: LedgerOp, id: i64) -> int {
    match op {
        LedgerOp::Credit(x, amount) => if x == id {
            amount as int
        } else {
            0
        },
        LedgerOp::Debit(x, amount) => if x == id {
            -amount
        } else {
            0
        },
        LedgerOp::Transfer(from, to, amount) => if from == id {
            -amount
        } else if to == id {
            amount as int
        } else {
            0
        },
    }
}

/// The accounts after the operations were applied one after another; a
/// refused operation leaves them as they were.
pub open spec fn apply_all(m: Map<i64, DbUser>, ops: Seq<LedgerOp>) -> Map<i64, DbUser>
    decreases ops.len(),
{
    if ops.len() == 0 {
        m
    } else {
        let next = match spec_apply(m, ops[0]) {
            Ok(after) => after,
            Err(_) => m,
        };
        apply_all(next, ops.drop_first())
    }
}

/// The sum of the changes to the balance of `id` of those operations that were
/// applied, one after another, from `m` on.
pub open spec fn applied_deltas(m: Map<i64, DbUser>, ops: Seq<LedgerOp>, id: i64) -> int
    decreases ops.len(),
{
    if ops.len() == 0 {
        0
    } else {
        match spec_apply(m, ops[0]) {
            Ok(after) => delta(ops[0], id) + applied_deltas(after, ops.drop_first(), id),
            Err(_) => applied_deltas(m, ops.drop_first(), id),
        }
    }
}

/// No update is lost: however many operations are applied to the ledger one
/// after another, each account ends with its starting balance plus the changes
/// of exactly those operations that were applied.
pub proof fn lemma_no_lost_updates(m: Map<i64, DbUser>, ops: Seq<LedgerOp>, id: i64)
    requires
        m.contains_key(id),
        forall|i: int| 0 <= i < ops.len() ==> names_accounts_of(m, #[trigger] ops[i]),
    ensures
        apply_all(m, ops).contains_key(id),
        apply_all(m, ops)[id].vbucks == m[id].vbucks + applied_deltas(m, ops, id),
    decreases ops.len(),
{
    if ops.len() > 0 {
        let op = ops[0];
        assert(names_accounts_of(m, op));
        let next = match spec_apply(m, op) {
            Ok(after) => after,
            Err(_) => m,
        };
        assert(next.dom() == m.dom());
        let rest = ops.drop_first();
        assert forall|i: int| 0 <= i < rest.len() implies names_accounts_of(
            next,
            #[trigger] rest[i],
        ) by {
            assert(rest[i] == ops[i + 1]);
            assert(names_accounts_of(m, ops[i + 1]));
        }
        lemma_no_lost_updates(next, rest, id);
    }
}

} // verus!
