use smpl_wallet::errors::Error;
use smpl_wallet::store::SmplDB;

fn store_with_two_users() -> SmplDB {
    let mut s = SmplDB::new();
    let u1 = s.sign_up_user("alice", "alice@example.com", "hash1", 10).unwrap();
    assert_eq!(u1.id, 1);
    s.create_wallet(1, 10).unwrap();
    let u2 = s.sign_up_user("bob", "bob@example.com", "hash2", 11).unwrap();
    assert_eq!(u2.id, 2);
    s.create_wallet(2, 11).unwrap();
    s
}

#[test]
fn signup_creates_user_and_wallet() {
    let mut s = SmplDB::new();
    let u = s.sign_up_user("alice", "alice@example.com", "hash1", 7).unwrap();
    assert_eq!(u.id, 1);
    assert_eq!(u.username, "alice");
    assert_eq!(u.email, "alice@example.com");
    assert_eq!(u.password, "hash1");
    assert!(u.status);
    assert_eq!(u.created_at, Some(7));
    let w = s.create_wallet(u.id, 8).unwrap();
    assert_eq!(w.id, 1);
    assert_eq!(w.user_id, 1);
    assert_eq!(w.balance, 0);
    assert!(w.status);
}

#[test]
fn signup_duplicate_username_rejected() {
    let mut s = SmplDB::new();
    s.sign_up_user("alice", "alice@example.com", "hash1", 1).unwrap();
    s.create_wallet(1, 1).unwrap();
    let wallets_before = s.wallets.len();
    let users_before = s.users.len();
    let r = s.sign_up_user("alice", "other@example.com", "hash2", 2);
    assert_eq!(r.unwrap_err(), Error::Duplicate);
    assert_eq!(s.users.len(), users_before);
    assert_eq!(s.wallets.len(), wallets_before);
}

#[test]
fn signup_duplicate_email_rejected() {
    let mut s = SmplDB::new();
    s.sign_up_user("alice", "alice@example.com", "hash1", 1).unwrap();
    let r = s.sign_up_user("carol", "alice@example.com", "hash2", 2);
    assert_eq!(r.unwrap_err(), Error::Duplicate);
    assert_eq!(s.users.len(), 1);
}

#[test]
fn second_wallet_for_one_user_rejected() {
    let mut s = SmplDB::new();
    s.sign_up_user("alice", "alice@example.com", "hash1", 1).unwrap();
    s.create_wallet(1, 1).unwrap();
    assert_eq!(s.create_wallet(1, 2).unwrap_err(), Error::Duplicate);
    assert_eq!(s.wallets.len(), 1);
}

#[test]
fn wallet_for_unknown_user_rejected() {
    let mut s = SmplDB::new();
    assert_eq!(s.create_wallet(5, 1).unwrap_err(), Error::StoreFailure);
    assert_eq!(s.wallets.len(), 0);
}

#[test]
fn get_wallet_unknown_user_is_store_failure() {
    let s = SmplDB::new();
    assert_eq!(s.get_wallet(1).unwrap_err(), Error::StoreFailure);
}

#[test]
fn get_wallet_idempotent() {
    let mut s = store_with_two_users();
    s.deposit(1, 250, 12).unwrap();
    let first = s.get_wallet(1).unwrap();
    let second = s.get_wallet(1).unwrap();
    assert_eq!(first.id, second.id);
    assert_eq!(first.user_id, second.user_id);
    assert_eq!(first.balance, second.balance);
    assert_eq!(first.updated_at, second.updated_at);
    assert_eq!(first.balance, 250);
}

#[test]
fn deposit_adds_exactly() {
    let mut s = store_with_two_users();
    let w = s.deposit(1, 100, 12).unwrap();
    assert_eq!(w.balance, 100);
    assert_eq!(w.updated_at, Some(12));
    let w = s.deposit(1, 23, 13).unwrap();
    assert_eq!(w.balance, 123);
    assert_eq!(s.get_wallet(2).unwrap().balance, 0);
}

#[test]
fn deposit_beyond_representable_range_rejected() {
    let mut s = store_with_two_users();
    s.deposit(1, u128::MAX, 12).unwrap();
    let r = s.deposit(1, 1, 13);
    assert_eq!(r.unwrap_err(), Error::StoreFailure);
    assert_eq!(s.get_wallet(1).unwrap().balance, u128::MAX);
    assert_eq!(s.get_wallet(1).unwrap().updated_at, Some(12));
}

#[test]
fn withdraw_subtracts_exactly() {
    let mut s = store_with_two_users();
    s.deposit(1, 100, 12).unwrap();
    let w = s.withdraw(1, 40, 13).unwrap();
    assert_eq!(w.balance, 60);
    assert_eq!(w.updated_at, Some(13));
}

#[test]
fn withdraw_insufficient_funds_rejected_without_mutation() {
    let mut s = store_with_two_users();
    s.deposit(1, 30, 12).unwrap();
    let r = s.withdraw(1, 50, 13);
    assert_eq!(r.unwrap_err(), Error::RollbackTransaction);
    let w = s.get_wallet(1).unwrap();
    assert_eq!(w.balance, 30);
    assert_eq!(w.updated_at, Some(12));
}

#[test]
fn transfer_moves_value_and_records_entry() {
    let mut s = store_with_two_users();
    s.deposit(1, 100, 12).unwrap();
    s.deposit(2, 10, 12).unwrap();
    let t = s.insert_payment(1, "bob", 40, 13).unwrap();
    assert_eq!(t.id, 1);
    assert_eq!(t.from_wallet, 1);
    assert_eq!(t.to_wallet, 2);
    assert_eq!(t.amount, 40);
    assert_eq!(t.created_at, Some(13));
    assert_eq!(s.get_wallet(1).unwrap().balance, 60);
    assert_eq!(s.get_wallet(2).unwrap().balance, 50);
    assert_eq!(s.transactions.len(), 1);
}

#[test]
fn transfer_conserves_balance_sum() {
    let mut s = store_with_two_users();
    s.deposit(1, 77, 12).unwrap();
    s.deposit(2, 23, 12).unwrap();
    let before = s.get_wallet(1).unwrap().balance + s.get_wallet(2).unwrap().balance;
    s.insert_payment(1, "bob", 19, 13).unwrap();
    let after = s.get_wallet(1).unwrap().balance + s.get_wallet(2).unwrap().balance;
    assert_eq!(before, after);
}

#[test]
fn transfer_insufficient_funds_rolls_back_everything() {
    let mut s = store_with_two_users();
    s.deposit(1, 30, 12).unwrap();
    s.deposit(2, 5, 12).unwrap();
    let r = s.insert_payment(1, "bob", 50, 13);
    assert_eq!(r.unwrap_err(), Error::RollbackTransaction);
    assert_eq!(s.get_wallet(1).unwrap().balance, 30);
    assert_eq!(s.get_wallet(2).unwrap().balance, 5);
    assert_eq!(s.transactions.len(), 0);
}

#[test]
fn transfer_failure_after_balance_staging_leaves_no_trace() {
    // The receiver's credit cannot be represented, so the transfer fails
    // after the debit and the credit were staged; nothing is visible.
    let mut s = store_with_two_users();
    s.deposit(1, 10, 12).unwrap();
    s.deposit(2, u128::MAX, 12).unwrap();
    let r = s.insert_payment(1, "bob", 5, 13);
    assert_eq!(r.unwrap_err(), Error::StoreFailure);
    assert_eq!(s.get_wallet(1).unwrap().balance, 10);
    assert_eq!(s.get_wallet(2).unwrap().balance, u128::MAX);
    assert_eq!(s.transactions.len(), 0);
}

#[test]
fn transfer_to_unknown_username_fails() {
    let mut s = store_with_two_users();
    s.deposit(1, 10, 12).unwrap();
    let r = s.insert_payment(1, "carol", 5, 13);
    assert_eq!(r.unwrap_err(), Error::StoreFailure);
    assert_eq!(s.get_wallet(1).unwrap().balance, 10);
}

#[test]
fn transfer_from_user_without_wallet_fails() {
    let mut s = SmplDB::new();
    s.sign_up_user("alice", "alice@example.com", "hash1", 1).unwrap();
    let r = s.insert_payment(1, "alice", 5, 2);
    assert_eq!(r.unwrap_err(), Error::StoreFailure);
}

#[test]
fn self_transfer_is_amount_neutral() {
    let mut s = store_with_two_users();
    s.deposit(1, 100, 12).unwrap();
    let t = s.insert_payment(1, "alice", 25, 13).unwrap();
    assert_eq!(t.from_wallet, 1);
    assert_eq!(t.to_wallet, 1);
    assert_eq!(t.amount, 25);
    let w = s.get_wallet(1).unwrap();
    assert_eq!(w.balance, 100);
    assert_eq!(w.updated_at, Some(13));
    assert_eq!(s.transactions.len(), 1);
}

#[test]
fn get_transaction_resolves_both_usernames() {
    let mut s = store_with_two_users();
    s.deposit(1, 100, 12).unwrap();
    let t = s.insert_payment(1, "bob", 40, 13).unwrap();
    let (entry, from_name, to_name) = s.get_transaction(1, t.id).unwrap().unwrap();
    assert_eq!(entry.id, t.id);
    assert_eq!(entry.amount, 40);
    assert_eq!(from_name, "alice");
    assert_eq!(to_name, "bob");
    // the receiver sees it too
    assert!(s.get_transaction(2, t.id).unwrap().is_some());
}

#[test]
fn get_transaction_foreign_to_caller_is_empty() {
    let mut s = store_with_two_users();
    let u3 = s.sign_up_user("carol", "carol@example.com", "hash3", 11).unwrap();
    s.create_wallet(u3.id, 11).unwrap();
    s.deposit(1, 100, 12).unwrap();
    let t = s.insert_payment(1, "bob", 40, 13).unwrap();
    assert!(s.get_transaction(u3.id, t.id).unwrap().is_none());
}

#[test]
fn get_transaction_unknown_id_is_empty_like_a_foreign_one() {
    let s = SmplDB::new();
    assert!(s.get_transaction(1, 1).unwrap().is_none());
    assert!(s.get_transaction(1, 0).unwrap().is_none());
}

#[test]
fn list_transactions_filters_and_orders_newest_first() {
    let mut s = store_with_two_users();
    let u3 = s.sign_up_user("carol", "carol@example.com", "hash3", 11).unwrap();
    s.create_wallet(u3.id, 11).unwrap();
    s.deposit(1, 100, 12).unwrap();
    s.deposit(2, 100, 12).unwrap();
    s.insert_payment(1, "bob", 10, 13).unwrap();
    s.insert_payment(2, "alice", 4, 14).unwrap();
    s.insert_payment(2, "carol", 6, 15).unwrap();
    let alice_history = s.list_transactions(1).unwrap();
    assert_eq!(alice_history.len(), 2);
    assert_eq!(alice_history[0].id, 2);
    assert_eq!(alice_history[1].id, 1);
    let carol_history = s.list_transactions(u3.id).unwrap();
    assert_eq!(carol_history.len(), 1);
    assert_eq!(carol_history[0].id, 3);
    assert_eq!(carol_history[0].amount, 6);
}

#[test]
fn list_transactions_without_wallet_is_store_failure() {
    let mut s = SmplDB::new();
    s.sign_up_user("alice", "alice@example.com", "hash1", 1).unwrap();
    assert_eq!(s.list_transactions(1).unwrap_err(), Error::StoreFailure);
}

#[test]
fn get_user_by_email_and_id() {
    let mut s = store_with_two_users();
    let u = s.get_user("bob@example.com").unwrap().unwrap();
    assert_eq!(u.id, 2);
    assert_eq!(u.username, "bob");
    assert!(s.get_user("nobody@example.com").unwrap().is_none());
    let u = s.get_user_by_id(1).unwrap().unwrap();
    assert_eq!(u.username, "alice");
    assert!(s.get_user_by_id(9).unwrap().is_none());
    assert!(s.get_user_by_id(0).unwrap().is_none());
}

#[test]
fn update_username_renames_one_row() {
    let mut s = store_with_two_users();
    let u = s.update_username(1, "alicia", 20).unwrap().unwrap();
    assert_eq!(u.id, 1);
    assert_eq!(u.username, "alicia");
    assert_eq!(u.email, "alice@example.com");
    assert_eq!(u.updated_at, Some(20));
    assert_eq!(s.get_user_by_id(1).unwrap().unwrap().username, "alicia");
    assert_eq!(s.get_user_by_id(2).unwrap().unwrap().username, "bob");
}

#[test]
fn update_username_taken_by_other_rejected() {
    let mut s = store_with_two_users();
    let r = s.update_username(1, "bob", 20);
    assert_eq!(r.unwrap_err(), Error::Duplicate);
    assert_eq!(s.get_user_by_id(1).unwrap().unwrap().username, "alice");
}

#[test]
fn update_username_to_own_name_succeeds() {
    let mut s = store_with_two_users();
    let u = s.update_username(1, "alice", 20).unwrap().unwrap();
    assert_eq!(u.username, "alice");
    assert_eq!(u.updated_at, Some(20));
}

#[test]
fn update_username_unknown_id_is_empty() {
    let mut s = store_with_two_users();
    assert!(s.update_username(9, "dora", 20).unwrap().is_none());
}
