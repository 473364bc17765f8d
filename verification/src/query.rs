use vstd::prelude::*;

use crate::errors::Error;
use crate::models::Transaction;
use crate::store::SmplDB;

verus! {

/// Whether a ledger entry touches this wallet as source or destination.
pub open spec fn involves(t: Transaction, wallet_id: i32) -> bool {
    t.from_wallet == wallet_id || t.to_wallet == wallet_id
}

/// The history of one wallet: the subsequence of the ledger whose entries
/// touch the wallet, newest first — descending entry id, the fixed,
/// deterministic order this crate guarantees.
pub open spec fn wallet_history(txs: Seq<Transaction>, wallet_id: i32) -> Seq<Transaction>
    decreases txs.len(),
{
    if txs.len() == 0 {
        Seq::empty()
    } else {
        let rest = wallet_history(txs.drop_last(), wallet_id);
        if involves(txs.last(), wallet_id) {
            seq![txs.last()] + rest
        } else {
            rest
        }
    }
}

impl SmplDB {
    /// Whether the ledger entry with this id exists and is visible to this
    /// user: one of its wallets belongs to `user_id`.
    pub open spec fn transaction_visible(self, user_id: i32, transaction_id: i32) -> bool {
        &&& 1 <= transaction_id <= self.transactions@.len()
        &&& {
            let t = self.transactions@[transaction_id - 1];
            self.wallets@[t.from_wallet - 1].user_id == user_id || self.wallets@[t.to_wallet
                - 1].user_id == user_id
        }
    }

    /// The result of a transaction lookup, as a function of the store state
    /// alone: the entry by id, with the usernames owning each side. An id
    /// with no entry and an entry whose wallets are both foreign to the
    /// requesting user yield one and the same empty result.
    pub open spec fn spec_get_transaction(self, user_id: i32, transaction_id: i32) -> Result<
        Option<(Transaction, String, String)>,
        Error,
    > {
        if !self.transaction_visible(user_id, transaction_id) {
            Ok(None)
        } else {
            let t = self.transactions@[transaction_id - 1];
            let from_uid = self.wallets@[t.from_wallet - 1].user_id;
            let to_uid = self.wallets@[t.to_wallet - 1].user_id;
            Ok(
                Some(
                    (t, self.users@[from_uid - 1].username, self.users@[to_uid - 1].username),
                ),
            )
        }
    }

    /// Loads the ledger entry with this id and resolves the username owning
    /// each side. Returns an empty result — not an error — both when no such
    /// entry exists and when neither side's wallet belongs to `user_id`: this
    /// is an authorization filter, and a transaction between two other users
    /// is indistinguishable from a nonexistent one to this caller.
    pub fn get_transaction(&self, user_id: i32, transaction_id: i32) -> (r: Result<
        Option<(Transaction, String, String)>,
        Error,
    >)
        requires
            self.wf(),
        ensures
            r == self.spec_get_transaction(user_id, transaction_id),
            // The authorization filter, spelled out: the result is empty for
            // exactly the ids that carry no entry visible to `user_id`, so a
            // foreign entry and a missing one cannot be told apart.
            (r == Ok::<Option<(Transaction, String, String)>, Error>(None))
                <==> !self.transaction_visible(user_id, transaction_id),
    {
        if !(transaction_id >= 1 && transaction_id as usize <= self.transactions.len()) {
            return Ok(None);
        }
        let t = self.transactions[(transaction_id as usize) - 1];
        let from_wallet = self.wallets[(t.from_wallet as usize) - 1];
        let to_wallet = self.wallets[(t.to_wallet as usize) - 1];
        if from_wallet.user_id != user_id && to_wallet.user_id != user_id {
            return Ok(None);
        }
        let from_name = self.users[(from_wallet.user_id as usize) - 1].username.clone();
        let to_name = self.users[(to_wallet.user_id as usize) - 1].username.clone();
        Ok(Some((t, from_name, to_name)))
    }

    /// Lists every ledger entry in which the caller's wallet appears as
    /// source or destination, newest first (descending entry id). A caller
    /// without a wallet is an internal-consistency failure.
    pub fn list_transactions(&self, user_id: i32) -> (r: Result<Vec<Transaction>, Error>)
        requires
            self.wf(),
        ensures
            match r {
                Ok(v) => {
                    &&& self.has_wallet_for(user_id as int)
                    &&& v@ == wallet_history(
                        self.transactions@,
                        self.wallets@[self.wallet_for_idx(user_id as int)].id,
                    )
                },
                Err(e) => e == Error::StoreFailure && !self.has_wallet_for(user_id as int),
            },
    {
        let w = match self.get_wallet(user_id) {
            Ok(w) => w,
            Err(e) => {
                return Err(e);
            },
        };
        let ghost s = self.transactions@;
        let mut out: Vec<Transaction> = Vec::new();
        let n = self.transactions.len();
        proof {
            assert(s.subrange(0, n as int) =~= s);
        }
        let mut i: usize = n;
        while i > 0
            invariant
                s == self.transactions@,
                n == s.len(),
                i <= n,
                out@ + wallet_history(s.subrange(0, i as int), w.id) == wallet_history(s, w.id),
            decreases i,
        {
            i -= 1;
            let t = self.transactions[i];
            proof {
                assert(s.subrange(0, i as int + 1).drop_last() =~= s.subrange(0, i as int));
                assert(s.subrange(0, i as int + 1).last() == s[i as int]);
            }
            if t.from_wallet == w.id || t.to_wallet == w.id {
                out.push(t);
                proof {
                    // appending the entry moves it out of the unprocessed
                    // prefix's history and onto the result
                    assert(out@ + wallet_history(s.subrange(0, i as int), w.id) =~= wallet_history(
                        s,
                        w.id,
                    ));
                }
            }
        }
        proof {
            assert(s.subrange(0, 0) =~= Seq::<Transaction>::empty());
            assert(out@ =~= wallet_history(s, w.id));
        }
        Ok(out)
    }
}

} // verus!
