use smpl_wallet::auth::{AuthToken, ValidateAuth, token_expired, MAX_TOKEN_AGE_SECONDS};
use smpl_wallet::errors::Error;
use smpl_wallet::models::Transaction;
use smpl_wallet::service::{
    format_transaction, validate_new_user, validate_profile_update, validate_sign_in, register,
    update_wallet, CreateUser, BoundaryReject, SignIn, UpdateProfile, UpdateWallet,
    UpdateWalletError, UpdateWalletType,
};
use smpl_wallet::store::SmplDB;
use smpl_wallet::transfer::lock_order;

fn request(username: &str, email: &str, password: &str) -> CreateUser {
    CreateUser {
        username: username.to_owned(),
        email: email.to_owned(),
        password: password.to_owned(),
    }
}

#[test]
fn validate_new_user_rejects_bad_email() {
    let r = validate_new_user(&request("alice", "not-an-email", "pw"));
    assert_eq!(r, Some(BoundaryReject::InvalidEmail));
    let r = validate_new_user(&request("alice", "", "pw"));
    assert_eq!(r, Some(BoundaryReject::InvalidEmail));
}

#[test]
fn validate_new_user_rejects_empty_fields() {
    let r = validate_new_user(&request("", "alice@example.com", "pw"));
    assert_eq!(r, Some(BoundaryReject::EmptyUsername));
    let r = validate_new_user(&request("alice", "alice@example.com", ""));
    assert_eq!(r, Some(BoundaryReject::EmptyPassword));
}

#[test]
fn validate_new_user_accepts_well_formed_request() {
    let r = validate_new_user(&request("alice", "alice@example.com", "pw"));
    assert_eq!(r, None);
}

#[test]
fn validate_sign_in_checks_email_then_password() {
    let bad = SignIn { email: "nope".to_owned(), password: "pw".to_owned() };
    assert_eq!(validate_sign_in(&bad), Some(BoundaryReject::InvalidEmail));
    let empty = SignIn { email: "alice@example.com".to_owned(), password: String::new() };
    assert_eq!(validate_sign_in(&empty), Some(BoundaryReject::EmptyPassword));
    let ok = SignIn { email: "alice@example.com".to_owned(), password: "pw".to_owned() };
    assert_eq!(validate_sign_in(&ok), None);
}

#[test]
fn register_creates_user_with_wallet() {
    let mut s = SmplDB::new();
    let u = register(&mut s, "alice", "alice@example.com", "hash1", 5).unwrap();
    assert_eq!(u.id, 1);
    assert_eq!(u.username, "alice");
    let w = s.get_wallet(u.id).unwrap();
    assert_eq!(w.balance, 0);
    assert_eq!(w.user_id, u.id);
}

#[test]
fn register_duplicate_username_creates_nothing() {
    let mut s = SmplDB::new();
    register(&mut s, "alice", "alice@example.com", "hash1", 5).unwrap();
    let users_before = s.users.len();
    let wallets_before = s.wallets.len();
    let r = register(&mut s, "alice", "second@example.com", "hash2", 6);
    assert_eq!(r.unwrap_err(), Error::Duplicate);
    assert_eq!(s.users.len(), users_before);
    assert_eq!(s.wallets.len(), wallets_before);
}

#[test]
fn update_wallet_rejects_zero_amount() {
    let mut s = SmplDB::new();
    register(&mut s, "alice", "alice@example.com", "hash1", 5).unwrap();
    let req = UpdateWallet { action: UpdateWalletType::Deposit, amount: 0 };
    let r = update_wallet(&mut s, 1, req, 6);
    assert_eq!(r.unwrap_err(), UpdateWalletError::ZeroAmount);
    assert_eq!(s.get_wallet(1).unwrap().balance, 0);
}

#[test]
fn update_wallet_dispatches_deposit_and_withdraw() {
    let mut s = SmplDB::new();
    register(&mut s, "alice", "alice@example.com", "hash1", 5).unwrap();
    let dep = UpdateWallet { action: UpdateWalletType::Deposit, amount: 70 };
    let w = update_wallet(&mut s, 1, dep, 6).unwrap();
    assert_eq!(w.balance, 70);
    let wd = UpdateWallet { action: UpdateWalletType::Withdraw, amount: 20 };
    let w = update_wallet(&mut s, 1, wd, 7).unwrap();
    assert_eq!(w.balance, 50);
}

#[test]
fn update_wallet_surfaces_insufficient_funds() {
    let mut s = SmplDB::new();
    register(&mut s, "alice", "alice@example.com", "hash1", 5).unwrap();
    let wd = UpdateWallet { action: UpdateWalletType::Withdraw, amount: 20 };
    let r = update_wallet(&mut s, 1, wd, 6);
    assert_eq!(r.unwrap_err(), UpdateWalletError::Store(Error::RollbackTransaction));
    assert_eq!(s.get_wallet(1).unwrap().balance, 0);
}

#[test]
fn validate_profile_update_requires_nonempty_username() {
    assert!(!validate_profile_update(&UpdateProfile { username: String::new() }));
    assert!(validate_profile_update(&UpdateProfile { username: "alicia".to_owned() }));
}

#[test]
fn format_transaction_resolves_fields() {
    let t = Transaction { id: 3, from_wallet: 1, to_wallet: 2, amount: 4000, created_at: Some(99) };
    let f = format_transaction(&t, "alice".to_owned(), "bob".to_owned());
    assert_eq!(f.from_username, "alice");
    assert_eq!(f.to_username, "bob");
    assert_eq!(f.amount, 4000);
    assert_eq!(f.created_at, 99);
    let t = Transaction { id: 3, from_wallet: 1, to_wallet: 2, amount: 1, created_at: None };
    assert_eq!(format_transaction(&t, String::new(), String::new()).created_at, 0);
}

#[test]
fn auth_token_holds_claims() {
    let t = AuthToken::new(42, 1000);
    assert_eq!(t.id, 42);
    assert_eq!(t.issued_at, 1000);
    let v = ValidateAuth(t.id);
    assert_eq!(v.0, 42);
}

#[test]
fn token_expiry_boundary() {
    let t = AuthToken::new(1, 10_000);
    assert!(!token_expired(&t, 10_000 + MAX_TOKEN_AGE_SECONDS - 1));
    assert!(token_expired(&t, 10_000 + MAX_TOKEN_AGE_SECONDS));
    // a token from the future has seen no full hour elapse
    assert!(!token_expired(&t, 9_000));
    // extreme clock values do not overflow the decision
    assert!(token_expired(&AuthToken::new(1, i64::MIN), i64::MAX));
    assert!(!token_expired(&AuthToken::new(1, i64::MAX), i64::MIN));
}

#[test]
fn lock_order_is_canonical_and_symmetric() {
    assert_eq!(lock_order(3, 5), (3, 5));
    assert_eq!(lock_order(5, 3), (3, 5));
    assert_eq!(lock_order(4, 4), (4, 4));
    let (first, second) = lock_order(-7, 2);
    assert!(first <= second);
    assert_eq!(lock_order(2, -7), (first, second));
}

#[test]
fn error_descriptions_are_distinct() {
    let all = [
        Error::ConnectionAcquisitionFailure,
        Error::StoreFailure,
        Error::Duplicate,
        Error::RollbackTransaction,
    ];
    for (i, a) in all.iter().enumerate() {
        assert!(!a.describe().is_empty());
        for b in all.iter().skip(i + 1) {
            assert_ne!(a.describe(), b.describe());
        }
    }
}
