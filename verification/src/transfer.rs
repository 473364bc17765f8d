use vstd::prelude::*;

use crate::errors::Error;
use crate::models::{Wallet, Transaction, Amount, Timestamp};
use crate::store::{SmplDB, MAX_ROWS};
use crate::wallet_ops::{deposited_wallet, withdrawn_wallet};

verus! {

/// The canonical lock-acquisition order of the transfer engine: whichever
/// direction a transfer runs, the two wallet row locks are requested lowest
/// wallet id first. The order is a property of the wallet pair, never of the
/// caller's argument order.
pub open spec fn spec_lock_order(a: i32, b: i32) -> (i32, i32) {
    if a <= b {
        (a, b)
    } else {
        (b, a)
    }
}

/// Orders a pair of wallet ids into canonical lock-acquisition order.
pub fn lock_order(a: i32, b: i32) -> (r: (i32, i32))
    ensures
        r == spec_lock_order(a, b),
{
    if a <= b {
        (a, b)
    } else {
        (b, a)
    }
}

/// Deadlock freedom: the canonical lock order is symmetric in its arguments,
/// so two concurrent transfers between the same two wallets — whichever
/// direction each one runs — request the same row lock first and cannot form
/// a wait cycle; both complete once that lock frees.
pub proof fn lemma_lock_order_symmetric(a: i32, b: i32)
    ensures
        spec_lock_order(a, b) == spec_lock_order(b, a),
        spec_lock_order(a, b).0 <= spec_lock_order(a, b).1,
        spec_lock_order(a, b) == (a, b) || spec_lock_order(a, b) == (b, a),
{
}

/// The wallet row rewritten with only its timestamp touched, as a
/// self-transfer leaves it: the debit and the credit cancel exactly.
pub open spec fn touched_wallet(w: Wallet, now: Timestamp) -> Wallet {
    Wallet {
        id: w.id,
        user_id: w.user_id,
        balance: w.balance,
        status: w.status,
        created_at: w.created_at,
        updated_at: Some(now),
    }
}

/// The ledger entry recorded for a completed transfer.
pub open spec fn new_entry(
    pre: SmplDB,
    from_w: Wallet,
    to_w: Wallet,
    amount: Amount,
    now: Timestamp,
) -> Transaction {
    Transaction {
        id: (pre.transactions@.len() + 1) as i32,
        from_wallet: from_w.id,
        to_wallet: to_w.id,
        amount: amount,
        created_at: Some(now),
    }
}

impl SmplDB {
    /// What `insert_payment` does, case by case. A sender without a wallet, an
    /// unknown destination username, or a destination user without a wallet is
    /// an internal-consistency failure; a sender balance below `amount` rolls
    /// the whole transaction back; otherwise the debit, the credit and one
    /// ledger entry are committed together. A transfer from a wallet to itself
    /// is permitted as an amount-neutral entry: the debit and the credit meet
    /// on one row, whose balance is unchanged (the same-wallet case is
    /// detected before anything is written, so the row is never locked twice).
    pub open spec fn insert_payment_post(
        pre: SmplDB,
        post: SmplDB,
        r: Result<Transaction, Error>,
        from_user_id: i32,
        to_username: Seq<char>,
        amount: Amount,
        now: Timestamp,
    ) -> bool {
        if !pre.has_wallet_for(from_user_id as int) {
            r == Err::<Transaction, Error>(Error::StoreFailure) && post == pre
        } else if !pre.has_user_named(to_username) {
            r == Err::<Transaction, Error>(Error::StoreFailure) && post == pre
        } else {
            let si = pre.wallet_for_idx(from_user_id as int);
            let sender = pre.wallets@[si];
            let to_uid = pre.users@[pre.user_named_idx(to_username)].id;
            if !pre.has_wallet_for(to_uid as int) {
                r == Err::<Transaction, Error>(Error::StoreFailure) && post == pre
            } else {
                let ri = pre.wallet_for_idx(to_uid as int);
                let recv = pre.wallets@[ri];
                if sender.balance < amount {
                    r == Err::<Transaction, Error>(Error::RollbackTransaction) && post == pre
                } else if si == ri {
                    if pre.transactions@.len() >= MAX_ROWS {
                        r == Err::<Transaction, Error>(Error::StoreFailure) && post == pre
                    } else {
                        &&& r == Ok::<Transaction, Error>(
                            new_entry(pre, sender, sender, amount, now),
                        )
                        &&& post.users@ == pre.users@
                        &&& post.wallets@ == pre.wallets@.update(si, touched_wallet(sender, now))
                        &&& post.transactions@ == pre.transactions@.push(
                            new_entry(pre, sender, sender, amount, now),
                        )
                    }
                } else if recv.balance + amount > Amount::MAX {
                    r == Err::<Transaction, Error>(Error::StoreFailure) && post == pre
                } else if pre.transactions@.len() >= MAX_ROWS {
                    r == Err::<Transaction, Error>(Error::StoreFailure) && post == pre
                } else {
                    &&& r == Ok::<Transaction, Error>(new_entry(pre, sender, recv, amount, now))
                    &&& post.users@ == pre.users@
                    &&& post.wallets@ == pre.wallets@.update(
                        si,
                        withdrawn_wallet(sender, amount, now),
                    ).update(ri, deposited_wallet(recv, amount, now))
                    &&& post.transactions@ == pre.transactions@.push(
                        new_entry(pre, sender, recv, amount, now),
                    )
                }
            }
        }
    }

    /// One atomic transfer: resolves the sender's wallet by user id and the
    /// receiver's wallet through the destination username, validates the
    /// sender's balance, applies the debit and the credit, and appends one
    /// immutable ledger entry — all in one transaction, so the three writes
    /// succeed or fail together and any error leaves the store untouched.
    ///
    /// The two exclusive row mutations are applied in the canonical order of
    /// [`lock_order`] — a property of the wallet pair, never of the transfer's
    /// direction — and the contract proves the committed state does not depend
    /// on that order; [`lemma_lock_order_symmetric`] is the deadlock-freedom
    /// argument for two opposing transfers racing on a concurrent store.
    pub fn insert_payment(
        &mut self,
        from_user_id: i32,
        to_username: &str,
        amount: Amount,
        now: Timestamp,
    ) -> (r: Result<Transaction, Error>)
        requires
            old(self).wf(),
            amount > 0,
        ensures
            final(self).wf(),
            Self::insert_payment_post(
                *old(self),
                *final(self),
                r,
                from_user_id,
                to_username@,
                amount,
                now,
            ),
            // Conservation: a completed transfer moves value, never creates
            // or destroys it.
            r is Ok ==> ({
                let pre = *old(self);
                let post = *final(self);
                let si = pre.wallet_for_idx(from_user_id as int);
                let to_uid = pre.users@[pre.user_named_idx(to_username@)].id;
                let ri = pre.wallet_for_idx(to_uid as int);
                post.wallets@[si].balance + post.wallets@[ri].balance == pre.wallets@[si].balance
                    + pre.wallets@[ri].balance
            }),
            // Atomicity: a failed transfer leaves no observable change.
            r is Err ==> *final(self) == *old(self),
    {
        let si = match self.find_wallet_for(from_user_id) {
            Some(i) => i,
            None => {
                return Err(Error::StoreFailure);
            },
        };
        let ui = match self.find_user_named(to_username) {
            Some(i) => i,
            None => {
                return Err(Error::StoreFailure);
            },
        };
        let to_uid = self.users[ui].id;
        let ri = match self.find_wallet_for(to_uid) {
            Some(i) => i,
            None => {
                return Err(Error::StoreFailure);
            },
        };
        let sender = self.wallets[si];
        if sender.balance < amount {
            return Err(Error::RollbackTransaction);
        }
        if si == ri {
            if self.transactions.len() >= MAX_ROWS {
                return Err(Error::StoreFailure);
            }
            let w = Wallet {
                id: sender.id,
                user_id: sender.user_id,
                balance: sender.balance,
                status: sender.status,
                created_at: sender.created_at,
                updated_at: Some(now),
            };
            self.wallets[si] = w;
            let t = Transaction {
                id: (self.transactions.len() + 1) as i32,
                from_wallet: sender.id,
                to_wallet: sender.id,
                amount: amount,
                created_at: Some(now),
            };
            self.transactions.push(t);
            return Ok(t);
        }
        let recv = self.wallets[ri];
        if amount > Amount::MAX - recv.balance {
            return Err(Error::StoreFailure);
        }
        if self.transactions.len() >= MAX_ROWS {
            return Err(Error::StoreFailure);
        }
        let debited = Wallet {
            id: sender.id,
            user_id: sender.user_id,
            balance: sender.balance - amount,
            status: sender.status,
            created_at: sender.created_at,
            updated_at: Some(now),
        };
        let credited = Wallet {
            id: recv.id,
            user_id: recv.user_id,
            balance: recv.balance + amount,
            status: recv.status,
            created_at: recv.created_at,
            updated_at: Some(now),
        };
        let (first_id, _) = lock_order(sender.id, recv.id);
        if first_id == sender.id {
            self.wallets[si] = debited;
            self.wallets[ri] = credited;
        } else {
            self.wallets[ri] = credited;
            self.wallets[si] = debited;
            proof {
                // the two rows are distinct, so the committed state does not
                // depend on the order the locks were taken in
                assert(self.wallets@ =~= old(self).wallets@.update(si as int, debited).update(
                    ri as int,
                    credited,
                ));
            }
        }
        let t = Transaction {
            id: (self.transactions.len() + 1) as i32,
            from_wallet: sender.id,
            to_wallet: recv.id,
            amount: amount,
            created_at: Some(now),
        };
        self.transactions.push(t);
        Ok(t)
    }
}

/// Conservation, stated on its own: for any completed transfer, the sum of
/// the sender's and receiver's balances after the commit equals the sum
/// before it, exactly.
pub proof fn lemma_transfer_conservation(
    pre: SmplDB,
    post: SmplDB,
    r: Result<Transaction, Error>,
    from_user_id: i32,
    to_username: Seq<char>,
    amount: Amount,
    now: Timestamp,
)
    requires
        SmplDB::insert_payment_post(pre, post, r, from_user_id, to_username, amount, now),
        r is Ok,
    ensures
        ({
            let si = pre.wallet_for_idx(from_user_id as int);
            let to_uid = pre.users@[pre.user_named_idx(to_username)].id;
            let ri = pre.wallet_for_idx(to_uid as int);
            post.wallets@[si].balance + post.wallets@[ri].balance == pre.wallets@[si].balance
                + pre.wallets@[ri].balance
        }),
{
}

/// Atomicity, stated on its own: a transfer that fails at any step — the
/// balance validation or the ledger-entry insert alike — leaves the store
/// exactly as it was; no balance change is ever visible from a failed
/// transfer.
pub proof fn lemma_transfer_atomicity(
    pre: SmplDB,
    post: SmplDB,
    r: Result<Transaction, Error>,
    from_user_id: i32,
    to_username: Seq<char>,
    amount: Amount,
    now: Timestamp,
)
    requires
        SmplDB::insert_payment_post(pre, post, r, from_user_id, to_username, amount, now),
        r is Err,
    ensures
        post == pre,
{
}

} // verus!
