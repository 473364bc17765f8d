use vstd::prelude::*;

use crate::errors::Error;
use crate::models::{User, Wallet, Amount, Timestamp};
use crate::store::{SmplDB, MAX_ROWS};

verus! {

/// A sign-up request: the plain validated scalars the boundary hands in.
pub struct CreateUser {
    pub username: String,
    pub email: String,
    pub password: String,
}

/// A sign-in request.
pub struct SignIn {
    pub email: String,
    pub password: String,
}

/// A profile-update request.
pub struct UpdateProfile {
    pub username: String,
}

/// A transfer request: the destination username and the amount in minor
/// units.
pub struct CreateTransaction {
    pub to_username: String,
    pub amount: Amount,
}

/// A ledger entry as presented to its participant: both sides resolved to
/// usernames.
pub struct FormattedTransaction {
    pub from_username: String,
    pub to_username: String,
    pub amount: Amount,
    pub created_at: Timestamp,
}

/// Which way a wallet update moves value.
#[derive(Debug, Clone, Copy, PartialEq, Eq, Structural)]
pub enum UpdateWalletType {
    Deposit,
    Withdraw,
}

/// A wallet-update request: the direction and the amount in minor units.
#[derive(Debug, Clone, Copy)]
pub struct UpdateWallet {
    pub action: UpdateWalletType,
    pub amount: Amount,
}

/// Why a request is rejected at the boundary, before any store work.
#[derive(Debug, Clone, Copy, PartialEq, Eq, Structural)]
pub enum BoundaryReject {
    InvalidEmail,
    EmptyUsername,
    EmptyPassword,
}

/// Why a wallet-update request fails: rejected at the boundary, or failed in
/// the store.
#[derive(Debug, Clone, Copy, PartialEq, Eq, Structural)]
pub enum UpdateWalletError {
    ZeroAmount,
    Store(Error),
}

/// What the mailbox validator says of a given character sequence.
pub uninterp spec fn email_ok(s: Seq<char>) -> bool;

/// Relies on `email_address::EmailAddress::is_valid`: whether the string
/// parses as an RFC 5321/5322 mailbox address, a pure function of the
/// characters alone.
#[verifier::external_body]
fn email_is_valid(email: &str) -> (r: bool)
    ensures
        r == email_ok(email@),
{
    email_address::EmailAddress::is_valid(email)
}

/// The boundary checks on a sign-up request, in the order the service shell
/// applies them: mailbox shape first, then nonempty username and password.
pub open spec fn spec_validate_new_user(
    username: Seq<char>,
    email: Seq<char>,
    password: Seq<char>,
) -> Option<BoundaryReject> {
    if !email_ok(email) {
        Some(BoundaryReject::InvalidEmail)
    } else if username.len() == 0 {
        Some(BoundaryReject::EmptyUsername)
    } else if password.len() == 0 {
        Some(BoundaryReject::EmptyPassword)
    } else {
        None
    }
}

/// The boundary checks on a sign-in request: mailbox shape, then a nonempty
/// password.
pub open spec fn spec_validate_sign_in(email: Seq<char>, password: Seq<char>) -> Option<
    BoundaryReject,
> {
    if !email_ok(email) {
        Some(BoundaryReject::InvalidEmail)
    } else if password.len() == 0 {
        Some(BoundaryReject::EmptyPassword)
    } else {
        None
    }
}

/// Validates a sign-in request at the boundary; `None` means the request may
/// proceed to the credential check.
pub fn validate_sign_in(req: &SignIn) -> (r: Option<BoundaryReject>)
    ensures
        r == spec_validate_sign_in(req.email@, req.password@),
{
    if !email_is_valid(req.email.as_str()) {
        return Some(BoundaryReject::InvalidEmail);
    }
    if req.password.as_str().is_empty() {
        return Some(BoundaryReject::EmptyPassword);
    }
    None
}

/// Validates a sign-up request at the boundary; `None` means the request may
/// proceed to credential hashing and the store.
pub fn validate_new_user(req: &CreateUser) -> (r: Option<BoundaryReject>)
    ensures
        r == spec_validate_new_user(req.username@, req.email@, req.password@),
{
    if !email_is_valid(req.email.as_str()) {
        return Some(BoundaryReject::InvalidEmail);
    }
    if req.username.as_str().is_empty() {
        return Some(BoundaryReject::EmptyUsername);
    }
    if req.password.as_str().is_empty() {
        return Some(BoundaryReject::EmptyPassword);
    }
    None
}

/// Validates a profile-update request at the boundary: the new username must
/// not be empty.
pub fn validate_profile_update(req: &UpdateProfile) -> (r: bool)
    ensures
        r == (req.username@.len() > 0),
{
    !req.username.as_str().is_empty()
}

/// Presents a ledger entry to a participant, with both sides resolved to
/// usernames; an entry whose creation time the store never recorded shows
/// the epoch.
pub fn format_transaction(
    t: &crate::models::Transaction,
    from_username: String,
    to_username: String,
) -> (r: FormattedTransaction)
    ensures
        r.from_username == from_username,
        r.to_username == to_username,
        r.amount == t.amount,
        r.created_at == (match t.created_at {
            Some(x) => x,
            None => 0,
        }),
{
    let created_at: Timestamp = match t.created_at {
        Some(x) => x,
        None => 0,
    };
    FormattedTransaction { from_username, to_username, amount: t.amount, created_at }
}

/// What `register` does: a duplicate username or email is rejected with
/// nothing created — in particular, no wallet; otherwise exactly one user row
/// and that user's one zero-balance wallet row come into being together.
pub open spec fn register_post(
    pre: SmplDB,
    post: SmplDB,
    r: Result<User, Error>,
    username: Seq<char>,
    email: Seq<char>,
    password: Seq<char>,
    now: Timestamp,
) -> bool {
    if pre.has_user_named(username) || pre.has_user_email(email) {
        r == Err::<User, Error>(Error::Duplicate) && post == pre
    } else if pre.users@.len() >= MAX_ROWS || pre.wallets@.len() >= MAX_ROWS {
        r == Err::<User, Error>(Error::StoreFailure) && post == pre
    } else {
        match r {
            Ok(u) => {
                &&& u.id == pre.users@.len() + 1
                &&& u.username@ == username
                &&& u.email@ == email
                &&& u.password@ == password
                &&& u.status == true
                &&& u.created_at == Some(now)
                &&& u.updated_at == Some(now)
                &&& post.users@ == pre.users@.push(u)
                &&& post.wallets@ == pre.wallets@.push(
                    Wallet {
                        id: (pre.wallets@.len() + 1) as i32,
                        user_id: u.id,
                        balance: 0,
                        status: true,
                        created_at: Some(now),
                        updated_at: Some(now),
                    },
                )
                &&& post.transactions@ == pre.transactions@
            },
            Err(_) => false,
        }
    }
}

/// Signs a user up: inserts the user row and then that user's wallet,
/// immediately after the user row exists. `password_hash` is the opaque
/// credential the boundary has already hashed.
pub fn register(
    store: &mut SmplDB,
    username: &str,
    email: &str,
    password_hash: &str,
    now: Timestamp,
) -> (r: Result<User, Error>)
    requires
        old(store).wf(),
    ensures
        final(store).wf(),
        register_post(*old(store), *final(store), r, username@, email@, password_hash@, now),
{
    let named = store.find_user_named(username);
    let mailed = store.find_user_email(email);
    if named.is_some() || mailed.is_some() {
        return Err(Error::Duplicate);
    }
    if store.users.len() >= MAX_ROWS || store.wallets.len() >= MAX_ROWS {
        return Err(Error::StoreFailure);
    }
    let user = match store.sign_up_user(username, email, password_hash, now) {
        Ok(u) => u,
        Err(e) => {
            proof {
                assert(false);
            }
            return Err(e);
        },
    };
    match store.create_wallet(user.id, now) {
        Ok(_) => Ok(user),
        Err(e) => {
            proof {
                assert(false);
            }
            Err(e)
        },
    }
}

/// What `update_wallet` does: a zero amount is rejected at the boundary with
/// nothing touched; otherwise the request is exactly one deposit or one
/// withdrawal.
pub open spec fn update_wallet_post(
    pre: SmplDB,
    post: SmplDB,
    r: Result<Wallet, UpdateWalletError>,
    user_id: i32,
    req: UpdateWallet,
    now: Timestamp,
) -> bool {
    if req.amount == 0 {
        r == Err::<Wallet, UpdateWalletError>(UpdateWalletError::ZeroAmount) && post == pre
    } else {
        match req.action {
            UpdateWalletType::Deposit => match r {
                Ok(w) => SmplDB::deposit_post(
                    pre,
                    post,
                    Ok(w),
                    user_id,
                    req.amount,
                    now,
                ),
                Err(UpdateWalletError::Store(e)) => SmplDB::deposit_post(
                    pre,
                    post,
                    Err(e),
                    user_id,
                    req.amount,
                    now,
                ),
                Err(UpdateWalletError::ZeroAmount) => false,
            },
            UpdateWalletType::Withdraw => match r {
                Ok(w) => SmplDB::withdraw_post(
                    pre,
                    post,
                    Ok(w),
                    user_id,
                    req.amount,
                    now,
                ),
                Err(UpdateWalletError::Store(e)) => SmplDB::withdraw_post(
                    pre,
                    post,
                    Err(e),
                    user_id,
                    req.amount,
                    now,
                ),
                Err(UpdateWalletError::ZeroAmount) => false,
            },
        }
    }
}

/// Applies a wallet-update request for the authenticated user: rejects a
/// zero amount at the boundary, then dispatches to deposit or withdraw.
pub fn update_wallet(store: &mut SmplDB, user_id: i32, req: UpdateWallet, now: Timestamp) -> (r:
    Result<Wallet, UpdateWalletError>)
    requires
        old(store).wf(),
    ensures
        final(store).wf(),
        update_wallet_post(*old(store), *final(store), r, user_id, req, now),
{
    if req.amount == 0 {
        return Err(UpdateWalletError::ZeroAmount);
    }
    match req.action {
        UpdateWalletType::Deposit => match store.deposit(user_id, req.amount, now) {
            Ok(w) => Ok(w),
            Err(e) => Err(UpdateWalletError::Store(e)),
        },
        UpdateWalletType::Withdraw => match store.withdraw(user_id, req.amount, now) {
            Ok(w) => Ok(w),
            Err(e) => Err(UpdateWalletError::Store(e)),
        },
    }
}

} // verus!
