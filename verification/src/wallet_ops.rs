use vstd::prelude::*;

use crate::errors::Error;
use crate::models::{Wallet, Amount, Timestamp};
use crate::store::{SmplDB, MAX_ROWS};

verus! {

/// The wallet row as it stands after a deposit of `amount` at time `now`.
pub open spec fn deposited_wallet(w: Wallet, amount: Amount, now: Timestamp) -> Wallet {
    Wallet {
        id: w.id,
        user_id: w.user_id,
        balance: (w.balance + amount) as Amount,
        status: w.status,
        created_at: w.created_at,
        updated_at: Some(now),
    }
}

/// The wallet row as it stands after a withdrawal of `amount` at time `now`.
pub open spec fn withdrawn_wallet(w: Wallet, amount: Amount, now: Timestamp) -> Wallet {
    Wallet {
        id: w.id,
        user_id: w.user_id,
        balance: (w.balance - amount) as Amount,
        status: w.status,
        created_at: w.created_at,
        updated_at: Some(now),
    }
}

/// The wallet row created for `user_id` at time `now`: balance zero, active.
pub open spec fn fresh_wallet(pre: SmplDB, user_id: i32, now: Timestamp) -> Wallet {
    Wallet {
        id: (pre.wallets@.len() + 1) as i32,
        user_id: user_id,
        balance: 0,
        status: true,
        created_at: Some(now),
        updated_at: Some(now),
    }
}

impl SmplDB {
    /// What `create_wallet` does: a wallet for an unknown user is a foreign-key
    /// violation (a store failure), a second wallet for one user is a unique
    /// violation, and otherwise one zero-balance wallet row is appended.
    pub open spec fn create_wallet_post(
        pre: SmplDB,
        post: SmplDB,
        r: Result<Wallet, Error>,
        user_id: i32,
        now: Timestamp,
    ) -> bool {
        if !(1 <= user_id <= pre.users@.len()) {
            r == Err::<Wallet, Error>(Error::StoreFailure) && post == pre
        } else if pre.has_wallet_for(user_id as int) {
            r == Err::<Wallet, Error>(Error::Duplicate) && post == pre
        } else if pre.wallets@.len() >= MAX_ROWS {
            r == Err::<Wallet, Error>(Error::StoreFailure) && post == pre
        } else {
            &&& r == Ok::<Wallet, Error>(fresh_wallet(pre, user_id, now))
            &&& post.users@ == pre.users@
            &&& post.wallets@ == pre.wallets@.push(fresh_wallet(pre, user_id, now))
            &&& post.transactions@ == pre.transactions@
        }
    }

    /// Inserts a wallet with balance `0`, status active, for `user_id`.
    pub fn create_wallet(&mut self, user_id: i32, now: Timestamp) -> (r: Result<Wallet, Error>)
        requires
            old(self).wf(),
        ensures
            final(self).wf(),
            Self::create_wallet_post(*old(self), *final(self), r, user_id, now),
    {
        if !(user_id >= 1 && user_id as usize <= self.users.len()) {
            return Err(Error::StoreFailure);
        }
        match self.find_wallet_for(user_id) {
            Some(_) => Err(Error::Duplicate),
            None => {
                if self.wallets.len() >= MAX_ROWS {
                    return Err(Error::StoreFailure);
                }
                let w = Wallet {
                    id: (self.wallets.len() + 1) as i32,
                    user_id: user_id,
                    balance: 0,
                    status: true,
                    created_at: Some(now),
                    updated_at: Some(now),
                };
                self.wallets.push(w);
                Ok(w)
            },
        }
    }

    /// The wallet returned by the plain locked read, as a function of the
    /// store state alone. Absence of the row is an internal-consistency
    /// failure, since every signed-up user has exactly one wallet.
    pub open spec fn spec_get_wallet(self, user_id: i32) -> Result<Wallet, Error> {
        if self.has_wallet_for(user_id as int) {
            Ok(self.wallets@[self.wallet_for_idx(user_id as int)])
        } else {
            Err(Error::StoreFailure)
        }
    }

    /// Returns the wallet owned by `user_id` under a non-exclusive row lock:
    /// the read blocks concurrent balance mutation, never mutates, and its
    /// result depends on the committed store state alone.
    pub fn get_wallet(&self, user_id: i32) -> (r: Result<Wallet, Error>)
        requires
            self.wf(),
        ensures
            r == self.spec_get_wallet(user_id),
    {
        match self.find_wallet_for(user_id) {
            Some(i) => Ok(self.wallets[i]),
            None => Err(Error::StoreFailure),
        }
    }

    /// What `deposit` does: the one wallet row of `user_id` gains exactly
    /// `amount`; a missing row or a sum beyond the representable range is a
    /// store failure that mutates nothing.
    pub open spec fn deposit_post(
        pre: SmplDB,
        post: SmplDB,
        r: Result<Wallet, Error>,
        user_id: i32,
        amount: Amount,
        now: Timestamp,
    ) -> bool {
        if !pre.has_wallet_for(user_id as int) {
            r == Err::<Wallet, Error>(Error::StoreFailure) && post == pre
        } else {
            let i = pre.wallet_for_idx(user_id as int);
            let w = pre.wallets@[i];
            if w.balance + amount > Amount::MAX {
                r == Err::<Wallet, Error>(Error::StoreFailure) && post == pre
            } else {
                &&& r == Ok::<Wallet, Error>(deposited_wallet(w, amount, now))
                &&& post.users@ == pre.users@
                &&& post.wallets@ == pre.wallets@.update(i, deposited_wallet(w, amount, now))
                &&& post.transactions@ == pre.transactions@
            }
        }
    }

    /// Acquires an exclusive lock on the wallet row of `user_id`, reads the
    /// balance, writes `balance + amount` and the updated timestamp, and
    /// commits; all in one transaction.
    ///
    /// Positivity of `amount` is the boundary's responsibility and is stated
    /// here as a precondition.
    pub fn deposit(&mut self, user_id: i32, amount: Amount, now: Timestamp) -> (r: Result<
        Wallet,
        Error,
    >)
        requires
            old(self).wf(),
            amount > 0,
        ensures
            final(self).wf(),
            Self::deposit_post(*old(self), *final(self), r, user_id, amount, now),
    {
        let i = match self.find_wallet_for(user_id) {
            Some(i) => i,
            None => {
                return Err(Error::StoreFailure);
            },
        };
        let w = self.wallets[i];
        if amount > Amount::MAX - w.balance {
            return Err(Error::StoreFailure);
        }
        let updated = Wallet {
            id: w.id,
            user_id: w.user_id,
            balance: w.balance + amount,
            status: w.status,
            created_at: w.created_at,
            updated_at: Some(now),
        };
        self.wallets[i] = updated;
        Ok(updated)
    }

    /// What `withdraw` does: a balance smaller than `amount` rolls the
    /// transaction back without any write; otherwise the one wallet row of
    /// `user_id` loses exactly `amount`.
    pub open spec fn withdraw_post(
        pre: SmplDB,
        post: SmplDB,
        r: Result<Wallet, Error>,
        user_id: i32,
        amount: Amount,
        now: Timestamp,
    ) -> bool {
        if !pre.has_wallet_for(user_id as int) {
            r == Err::<Wallet, Error>(Error::StoreFailure) && post == pre
        } else {
            let i = pre.wallet_for_idx(user_id as int);
            let w = pre.wallets@[i];
            if w.balance < amount {
                r == Err::<Wallet, Error>(Error::RollbackTransaction) && post == pre
            } else {
                &&& r == Ok::<Wallet, Error>(withdrawn_wallet(w, amount, now))
                &&& post.users@ == pre.users@
                &&& post.wallets@ == pre.wallets@.update(i, withdrawn_wallet(w, amount, now))
                &&& post.transactions@ == pre.transactions@
            }
        }
    }

    /// Acquires an exclusive lock on the wallet row of `user_id`; if the
    /// balance is smaller than `amount` the transaction is rolled back with no
    /// partial write, otherwise writes `balance - amount` and commits.
    pub fn withdraw(&mut self, user_id: i32, amount: Amount, now: Timestamp) -> (r: Result<
        Wallet,
        Error,
    >)
        requires
            old(self).wf(),
            amount > 0,
        ensures
            final(self).wf(),
            Self::withdraw_post(*old(self), *final(self), r, user_id, amount, now),
    {
        let i = match self.find_wallet_for(user_id) {
            Some(i) => i,
            None => {
                return Err(Error::StoreFailure);
            },
        };
        let w = self.wallets[i];
        if w.balance < amount {
            return Err(Error::RollbackTransaction);
        }
        let updated = Wallet {
            id: w.id,
            user_id: w.user_id,
            balance: w.balance - amount,
            status: w.status,
            created_at: w.created_at,
            updated_at: Some(now),
        };
        self.wallets[i] = updated;
        Ok(updated)
    }
}

/// Idempotent read: the plain wallet read is a function of the store state
/// alone, so two reads of one user's wallet with no intervening mutation
/// return identical results.
pub proof fn lemma_get_wallet_idempotent(
    s: SmplDB,
    user_id: i32,
    r1: Result<Wallet, Error>,
    r2: Result<Wallet, Error>,
)
    requires
        r1 == s.spec_get_wallet(user_id),
        r2 == s.spec_get_wallet(user_id),
    ensures
        r1 == r2,
{
}

/// No overdraft: balances are unsigned minor units, so every committed
/// balance of every wallet is at least zero, in every store state.
pub proof fn lemma_no_overdraft(s: SmplDB)
    ensures
        forall|i: int| 0 <= i < s.wallets@.len() ==> (#[trigger] s.wallets@[i]).balance as int >= 0,
{
}

} // verus!
