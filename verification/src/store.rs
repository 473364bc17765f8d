use vstd::prelude::*;

use crate::errors::Error;
use crate::models::{User, Wallet, Transaction, Timestamp};

verus! {

/// Row ids are `i32` as in the relational schema; a table holds at most this
/// many rows so that every id `index + 1` fits in an `i32`.
pub const MAX_ROWS: usize = 0x7fff_0000;

/// The entity store: a relational model of the three tables, with the rows of
/// each table in insertion order and `row.id == index + 1`.
///
/// Every operation runs as one atomic unit against this store, mirroring a
/// database transaction: it either applies completely or returns an error and
/// leaves the store exactly as it was.
pub struct SmplDB {
    pub users: Vec<User>,
    pub wallets: Vec<Wallet>,
    pub transactions: Vec<Transaction>,
}

impl SmplDB {
    /// Well-formedness of the users table: ids are `index + 1`, usernames and
    /// emails are unique.
    pub open spec fn users_wf(self) -> bool {
        &&& self.users@.len() <= MAX_ROWS
        &&& forall|i: int| 0 <= i < self.users@.len() ==> (#[trigger] self.users@[i]).id == i + 1
        &&& forall|i: int, j: int|
            #![trigger self.users@[i].username, self.users@[j].username]
            0 <= i < self.users@.len() && 0 <= j < self.users@.len() && i != j
                ==> self.users@[i].username@ != self.users@[j].username@
        &&& forall|i: int, j: int|
            #![trigger self.users@[i].email, self.users@[j].email]
            0 <= i < self.users@.len() && 0 <= j < self.users@.len() && i != j
                ==> self.users@[i].email@ != self.users@[j].email@
    }

    /// Well-formedness of the wallet table: ids are `index + 1`, each wallet
    /// belongs to an existing user, and no user owns two wallets.
    pub open spec fn wallets_wf(self) -> bool {
        &&& self.wallets@.len() <= MAX_ROWS
        &&& forall|i: int| 0 <= i < self.wallets@.len() ==> (#[trigger] self.wallets@[i]).id == i + 1
        &&& forall|i: int|
            0 <= i < self.wallets@.len()
                ==> 1 <= (#[trigger] self.wallets@[i]).user_id <= self.users@.len()
        &&& forall|i: int, j: int|
            #![trigger self.wallets@[i].user_id, self.wallets@[j].user_id]
            0 <= i < self.wallets@.len() && 0 <= j < self.wallets@.len() && i != j
                ==> self.wallets@[i].user_id != self.wallets@[j].user_id
    }

    /// Well-formedness of the ledger: ids are `index + 1`, both sides of each
    /// entry are existing wallets, and every recorded amount is positive.
    pub open spec fn transactions_wf(self) -> bool {
        &&& self.transactions@.len() <= MAX_ROWS
        &&& forall|i: int|
            0 <= i < self.transactions@.len() ==> (#[trigger] self.transactions@[i]).id == i + 1
        &&& forall|i: int|
            0 <= i < self.transactions@.len()
                ==> 1 <= (#[trigger] self.transactions@[i]).from_wallet <= self.wallets@.len()
        &&& forall|i: int|
            0 <= i < self.transactions@.len()
                ==> 1 <= (#[trigger] self.transactions@[i]).to_wallet <= self.wallets@.len()
        &&& forall|i: int| 0 <= i < self.transactions@.len()
                ==> (#[trigger] self.transactions@[i]).amount > 0
    }

    /// The store invariant: all three tables are well formed. Every operation
    /// requires and preserves it.
    pub open spec fn wf(self) -> bool {
        self.users_wf() && self.wallets_wf() && self.transactions_wf()
    }

    /// Some user carries this username.
    pub open spec fn has_user_named(self, name: Seq<char>) -> bool {
        exists|i: int|
            0 <= i < self.users@.len() && (#[trigger] self.users@[i]).username@ == name
    }

    /// The index of the user carrying this username (unique when `users_wf`).
    pub open spec fn user_named_idx(self, name: Seq<char>) -> int {
        choose|i: int|
            0 <= i < self.users@.len() && (#[trigger] self.users@[i]).username@ == name
    }

    /// Some user carries this email.
    pub open spec fn has_user_email(self, email: Seq<char>) -> bool {
        exists|i: int| 0 <= i < self.users@.len() && (#[trigger] self.users@[i]).email@ == email
    }

    /// The index of the user carrying this email (unique when `users_wf`).
    pub open spec fn user_email_idx(self, email: Seq<char>) -> int {
        choose|i: int| 0 <= i < self.users@.len() && (#[trigger] self.users@[i]).email@ == email
    }

    /// This user owns a wallet.
    pub open spec fn has_wallet_for(self, user_id: int) -> bool {
        exists|i: int|
            0 <= i < self.wallets@.len() && (#[trigger] self.wallets@[i]).user_id == user_id
    }

    /// The index of this user's wallet (unique when `wallets_wf`).
    pub open spec fn wallet_for_idx(self, user_id: int) -> int {
        choose|i: int|
            0 <= i < self.wallets@.len() && (#[trigger] self.wallets@[i]).user_id == user_id
    }

    /// An empty store.
    pub fn new() -> (r: SmplDB)
        ensures
            r.wf(),
            r.users@.len() == 0,
            r.wallets@.len() == 0,
            r.transactions@.len() == 0,
    {
        SmplDB { users: Vec::new(), wallets: Vec::new(), transactions: Vec::new() }
    }

    /// Index of the user row carrying `username`, if any.
    pub(crate) fn find_user_named(&self, username: &str) -> (r: Option<usize>)
        requires
            self.wf(),
        ensures
            match r {
                Some(i) => {
                    &&& i < self.users@.len()
                    &&& self.users@[i as int].username@ == username@
                    &&& i as int == self.user_named_idx(username@)
                    &&& self.has_user_named(username@)
                },
                None => !self.has_user_named(username@),
            },
    {
        let uname = username.to_owned();
        let n = self.users.len();
        let mut i: usize = 0;
        while i < n
            invariant
                self.wf(),
                n == self.users@.len(),
                i <= n,
                uname@ == username@,
                forall|j: int| 0 <= j < i ==> (#[trigger] self.users@[j]).username@ != username@,
            decreases n - i,
        {
            if self.users[i].username == uname {
                proof {
                    assert(self.has_user_named(username@));
                    let k = self.user_named_idx(username@);
                    assert(self.users@[k].username@ == username@);
                    assert(k == i as int);
                }
                return Some(i);
            }
            i += 1;
        }
        None
    }

    /// Index of the user row carrying `email`, if any.
    pub(crate) fn find_user_email(&self, email: &str) -> (r: Option<usize>)
        requires
            self.wf(),
        ensures
            match r {
                Some(i) => {
                    &&& i < self.users@.len()
                    &&& self.users@[i as int].email@ == email@
                    &&& i as int == self.user_email_idx(email@)
                    &&& self.has_user_email(email@)
                },
                None => !self.has_user_email(email@),
            },
    {
        let em = email.to_owned();
        let n = self.users.len();
        let mut i: usize = 0;
        while i < n
            invariant
                self.wf(),
                n == self.users@.len(),
                i <= n,
                em@ == email@,
                forall|j: int| 0 <= j < i ==> (#[trigger] self.users@[j]).email@ != email@,
            decreases n - i,
        {
            if self.users[i].email == em {
                proof {
                    assert(self.has_user_email(email@));
                    let k = self.user_email_idx(email@);
                    assert(self.users@[k].email@ == email@);
                    assert(k == i as int);
                }
                return Some(i);
            }
            i += 1;
        }
        None
    }

    /// Index of the wallet row owned by `user_id`, if any.
    pub(crate) fn find_wallet_for(&self, user_id: i32) -> (r: Option<usize>)
        requires
            self.wf(),
        ensures
            match r {
                Some(i) => {
                    &&& i < self.wallets@.len()
                    &&& self.wallets@[i as int].user_id == user_id
                    &&& i as int == self.wallet_for_idx(user_id as int)
                    &&& self.has_wallet_for(user_id as int)
                },
                None => !self.has_wallet_for(user_id as int),
            },
    {
        let n = self.wallets.len();
        let mut i: usize = 0;
        while i < n
            invariant
                self.wf(),
                n == self.wallets@.len(),
                i <= n,
                forall|j: int| 0 <= j < i ==> (#[trigger] self.wallets@[j]).user_id != user_id,
            decreases n - i,
        {
            if self.wallets[i].user_id == user_id {
                proof {
                    assert(self.has_wallet_for(user_id as int));
                    let k = self.wallet_for_idx(user_id as int);
                    assert(self.wallets@[k].user_id == user_id);
                    assert(k == i as int);
                }
                return Some(i);
            }
            i += 1;
        }
        None
    }

    /// Some user other than the one at index `exclude` carries this username.
    pub open spec fn username_taken_excluding(self, exclude: int, name: Seq<char>) -> bool {
        exists|j: int|
            0 <= j < self.users@.len() && j != exclude && (#[trigger] self.users@[j]).username@
                == name
    }

    /// Whether a user row other than `exclude` carries `uname`.
    fn has_other_named(&self, exclude: usize, uname: &String) -> (r: bool)
        requires
            self.wf(),
        ensures
            r == self.username_taken_excluding(exclude as int, uname@),
    {
        let n = self.users.len();
        let mut j: usize = 0;
        while j < n
            invariant
                self.wf(),
                n == self.users@.len(),
                j <= n,
                forall|k: int|
                    0 <= k < j && k != exclude ==> (#[trigger] self.users@[k]).username@ != uname@,
            decreases n - j,
        {
            if j != exclude && self.users[j].username == *uname {
                proof {
                    assert(self.username_taken_excluding(exclude as int, uname@));
                }
                return true;
            }
            j += 1;
        }
        false
    }

    /// What `sign_up_user` does: a username or email already present is a
    /// unique violation that inserts nothing; otherwise exactly one active
    /// user row is appended and returned.
    pub open spec fn sign_up_post(
        pre: SmplDB,
        post: SmplDB,
        r: Result<User, Error>,
        username: Seq<char>,
        email: Seq<char>,
        password: Seq<char>,
        now: Timestamp,
    ) -> bool {
        if pre.has_user_named(username) || pre.has_user_email(email) {
            r == Err::<User, Error>(Error::Duplicate) && post == pre
        } else if pre.users@.len() >= MAX_ROWS {
            r == Err::<User, Error>(Error::StoreFailure) && post == pre
        } else {
            match r {
                Ok(u) => {
                    &&& u.id == pre.users@.len() + 1
                    &&& u.username@ == username
                    &&& u.email@ == email
                    &&& u.password@ == password
                    &&& u.status == true
                    &&& u.created_at == Some(now)
                    &&& u.updated_at == Some(now)
                    &&& post.users@ == pre.users@.push(u)
                    &&& post.wallets@ == pre.wallets@
                    &&& post.transactions@ == pre.transactions@
                },
                Err(_) => false,
            }
        }
    }

    /// Inserts a new active user row. `password` is the opaque credential
    /// hash computed at the boundary; the store never inspects it.
    pub fn sign_up_user(
        &mut self,
        username: &str,
        email: &str,
        password: &str,
        now: Timestamp,
    ) -> (r: Result<User, Error>)
        requires
            old(self).wf(),
        ensures
            final(self).wf(),
            Self::sign_up_post(*old(self), *final(self), r, username@, email@, password@, now),
    {
        let named = self.find_user_named(username);
        let mailed = self.find_user_email(email);
        if named.is_some() || mailed.is_some() {
            return Err(Error::Duplicate);
        }
        if self.users.len() >= MAX_ROWS {
            return Err(Error::StoreFailure);
        }
        let u = User {
            id: (self.users.len() + 1) as i32,
            username: username.to_owned(),
            email: email.to_owned(),
            password: password.to_owned(),
            status: true,
            created_at: Some(now),
            updated_at: Some(now),
        };
        let ret = u.clone();
        self.users.push(u);
        Ok(ret)
    }

    /// The user returned by an email lookup, as a function of the store state
    /// alone; an unknown email is an empty result, not an error.
    pub open spec fn spec_get_user(self, email: Seq<char>) -> Result<Option<User>, Error> {
        if self.has_user_email(email) {
            Ok(Some(self.users@[self.user_email_idx(email)]))
        } else {
            Ok(None)
        }
    }

    /// Looks a user up by email.
    pub fn get_user(&self, email: &str) -> (r: Result<Option<User>, Error>)
        requires
            self.wf(),
        ensures
            r == self.spec_get_user(email@),
    {
        match self.find_user_email(email) {
            Some(i) => Ok(Some(self.users[i].clone())),
            None => Ok(None),
        }
    }

    /// The user returned by an id lookup, as a function of the store state
    /// alone.
    pub open spec fn spec_get_user_by_id(self, id: i32) -> Result<Option<User>, Error> {
        if 1 <= id <= self.users@.len() {
            Ok(Some(self.users@[id - 1]))
        } else {
            Ok(None)
        }
    }

    /// Looks a user up by id.
    pub fn get_user_by_id(&self, id: i32) -> (r: Result<Option<User>, Error>)
        requires
            self.wf(),
        ensures
            r == self.spec_get_user_by_id(id),
    {
        if id >= 1 && id as usize <= self.users.len() {
            let idx = (id as usize) - 1;
            Ok(Some(self.users[idx].clone()))
        } else {
            Ok(None)
        }
    }

    /// What `update_username` does: an unknown id updates nothing and returns
    /// an empty result; a username carried by another user is a unique
    /// violation that updates nothing; otherwise exactly the one user row is
    /// rewritten with the new name and timestamp.
    pub open spec fn update_username_post(
        pre: SmplDB,
        post: SmplDB,
        r: Result<Option<User>, Error>,
        id: i32,
        name: Seq<char>,
        now: Timestamp,
    ) -> bool {
        if !(1 <= id <= pre.users@.len()) {
            r == Ok::<Option<User>, Error>(None) && post == pre
        } else if pre.username_taken_excluding(id - 1, name) {
            r == Err::<Option<User>, Error>(Error::Duplicate) && post == pre
        } else {
            match r {
                Ok(Some(u)) => {
                    let prior = pre.users@[id - 1];
                    &&& u.id == prior.id
                    &&& u.username@ == name
                    &&& u.email == prior.email
                    &&& u.password == prior.password
                    &&& u.status == prior.status
                    &&& u.created_at == prior.created_at
                    &&& u.updated_at == Some(now)
                    &&& post.users@ == pre.users@.update(id - 1, u)
                    &&& post.wallets@ == pre.wallets@
                    &&& post.transactions@ == pre.transactions@
                },
                _ => false,
            }
        }
    }

    /// Renames the user with this id, keeping usernames unique.
    pub fn update_username(&mut self, id: i32, username: &str, now: Timestamp) -> (r: Result<
        Option<User>,
        Error,
    >)
        requires
            old(self).wf(),
        ensures
            final(self).wf(),
            Self::update_username_post(*old(self), *final(self), r, id, username@, now),
    {
        if !(id >= 1 && id as usize <= self.users.len()) {
            return Ok(None);
        }
        let idx = (id as usize) - 1;
        let uname = username.to_owned();
        if self.has_other_named(idx, &uname) {
            return Err(Error::Duplicate);
        }
        let prior = self.users[idx].clone();
        let u = User {
            id: prior.id,
            username: uname,
            email: prior.email,
            password: prior.password,
            status: prior.status,
            created_at: prior.created_at,
            updated_at: Some(now),
        };
        let ret = u.clone();
        self.users[idx] = u;
        Ok(Some(ret))
    }
}

} // verus!
