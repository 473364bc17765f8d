use vstd::prelude::*;

verus! {

/// Timestamps are epoch seconds; the service shell converts them to and from
/// its calendar type at the boundary.
pub type Timestamp = i64;

/// Balances and transfer amounts are exact fixed-point decimals held as
/// `u128` minor units. A balance can never be negative by construction; the
/// arithmetic on amounts is exact, so repeated deposits and withdrawals
/// cannot drift.
pub type Amount = u128;

/// An identity record. `id`, `username` and `email` are each unique across
/// the store; the password credential is an opaque hash.
#[derive(Debug)]
pub struct User {
    pub id: i32,
    pub username: String,
    pub email: String,
    pub password: String,
    pub status: bool,
    pub created_at: Option<Timestamp>,
    pub updated_at: Option<Timestamp>,
}

impl Clone for User {
    fn clone(&self) -> (r: Self)
        ensures
            r == *self,
    {
        User {
            id: self.id,
            username: self.username.clone(),
            email: self.email.clone(),
            password: self.password.clone(),
            status: self.status,
            created_at: self.created_at,
            updated_at: self.updated_at,
        }
    }
}

/// The sole balance-holding account of one user: `user_id` is unique across
/// wallets (one wallet per user).
#[derive(Debug, Clone, Copy)]
pub struct Wallet {
    pub id: i32,
    pub user_id: i32,
    pub balance: Amount,
    pub status: bool,
    pub created_at: Option<Timestamp>,
    pub updated_at: Option<Timestamp>,
}

/// An immutable ledger entry recording one completed transfer of `amount`
/// from `from_wallet` to `to_wallet`. Entries are never updated or deleted:
/// the ledger is append-only.
#[derive(Debug, Clone, Copy)]
pub struct Transaction {
    pub id: i32,
    pub from_wallet: i32,
    pub to_wallet: i32,
    pub amount: Amount,
    pub created_at: Option<Timestamp>,
}

} // verus!
