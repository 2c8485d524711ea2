use vstd::prelude::*;

use crate::account::{
    finish_registration, prepare_registration, registration_gate, Account, Credential, InsertOutcome,
    is_v4_text,
};
use crate::error::AuthError;
use crate::password::{bcrypt_header, password_matches, PasswordHasher};

verus! {

/// One stored account row together with its credential row: (id, username, password hash).
pub type RowView = (Seq<char>, Seq<char>, Seq<char>);

/// Whether some row holds the username.
pub open spec fn has_username(rows: Seq<RowView>, username: Seq<char>) -> bool {
    exists|i: int| 0 <= i < rows.len() && (#[trigger] rows[i]).1 == username
}

/// Whether some row holds the id.
pub open spec fn has_id(rows: Seq<RowView>, id: Seq<char>) -> bool {
    exists|i: int| 0 <= i < rows.len() && (#[trigger] rows[i]).0 == id
}

/// No two rows share a username or an id.
pub open spec fn rows_unique(rows: Seq<RowView>) -> bool {
    forall|i: int, j: int|
        0 <= i < rows.len() && 0 <= j < rows.len() && i != j ==> (#[trigger] rows[i]).1 != (#[trigger] rows[j]).1
            && rows[i].0 != rows[j].0
}

/// The rows of `before` are kept, in order, at the front of `after`.
pub open spec fn extends(before: Seq<RowView>, after: Seq<RowView>) -> bool {
    before.len() <= after.len() && after.subrange(0, before.len() as int) == before
}

struct Row {
    id: String,
    username: String,
    password_hash: String,
}

/// An in-process credential store: accounts and their credentials, created together and
/// never changed afterwards, with unique usernames and unique ids. Exclusive access (`&mut`)
/// serialises its operations.
pub struct AccountTable {
    rows: Vec<Row>,
}

impl View for AccountTable {
    type V = Seq<RowView>;

    closed spec fn view(&self) -> Seq<RowView> {
        self.rows@.map_values(|r: Row| (r.id@, r.username@, r.password_hash@))
    }
}

impl AccountTable {
    pub open spec fn wf(&self) -> bool {
        rows_unique(self@)
    }

    /// An empty store.
    pub fn new() -> (r: AccountTable)
        ensures
            r.wf(),
            r@ == Seq::<RowView>::empty(),
    {
        let r = AccountTable { rows: Vec::new() };
        assert(r@ =~= Seq::<RowView>::empty());
        r
    }

    /// Number of registered accounts.
    pub fn len(&self) -> (r: usize)
        ensures
            r == self@.len(),
    {
        self.rows.len()
    }

    /// Index of the row with the username, if any.
    fn find_username(&self, username: &str) -> (r: Option<usize>)
        ensures
            r matches Some(i) ==> i < self@.len() && self@[i as int].1 == username@,
            r is None ==> !has_username(self@, username@),
    {
        let target = username.to_owned();
        let mut i: usize = 0;
        while i < self.rows.len()
            invariant
                i <= self.rows.len(),
                target@ == username@,
                forall|j: int| 0 <= j < i ==> (#[trigger] self@[j]).1 != username@,
            decreases self.rows.len() - i,
        {
            if self.rows[i].username == target {
                return Some(i);
            }
            i = i + 1;
        }
        None
    }

    /// Whether the id is already taken.
    fn id_exists(&self, id: &String) -> (r: bool)
        ensures
            r == has_id(self@, id@),
    {
        let mut i: usize = 0;
        while i < self.rows.len()
            invariant
                i <= self.rows.len(),
                forall|j: int| 0 <= j < i ==> (#[trigger] self@[j]).0 != id@,
            decreases self.rows.len() - i,
        {
            if self.rows[i].id == *id {
                assert(self@[i as int].0 == id@);
                return true;
            }
            i = i + 1;
        }
        false
    }

    /// Read-only existence check.
    pub fn username_exists(&self, username: &str) -> (r: bool)
        ensures
            r == has_username(self@, username@),
    {
        match self.find_username(username) {
            Some(i) => {
                assert(self@[i as int].1 == username@);
                true
            },
            None => false,
        }
    }

    /// The stored password hash of the account with the username, if any.
    pub fn password_hash_of(&self, username: &str) -> (r: Option<String>)
        ensures
            r is Some <==> has_username(self@, username@),
            r matches Some(h) ==> exists|i: int| 0 <= i < self@.len() && (#[trigger] self@[i]).1 == username@ && self@[i].2 == h@,
    {
        match self.find_username(username) {
            Some(i) => {
                let h = self.rows[i].password_hash.clone();
                assert(self@[i as int].2 == h@);
                Some(h)
            },
            None => None,
        }
    }

    /// Inserts an account and its credential as one unit: both rows or neither. Where the
    /// username or the id is already present nothing is written and the violation is reported.
    pub fn insert_account_and_credential(&mut self, account: Account, credential: Credential) -> (r: InsertOutcome)
        requires
            old(self).wf(),
            account.id@ == credential.account_id@,
        ensures
            final(self).wf(),
            r == InsertOutcome::Inserted || r == InsertOutcome::UniqueViolation,
            r == InsertOutcome::UniqueViolation <==> (has_username(old(self)@, account.username@) || has_id(old(self)@, account.id@)),
            r == InsertOutcome::UniqueViolation ==> final(self)@ == old(self)@,
            r == InsertOutcome::Inserted ==> final(self)@ == old(self)@.push((account.id@, account.username@, credential.password_hash@)),
    {
        if self.username_exists(account.username.as_str()) || self.id_exists(&account.id) {
            return InsertOutcome::UniqueViolation;
        }
        let ghost before = self@;
        let row = Row { id: account.id, username: account.username, password_hash: credential.password_hash };
        self.rows.push(row);
        assert(self@ =~= before.push((account.id@, account.username@, credential.password_hash@)));
        assert forall|i: int, j: int|
            0 <= i < self@.len() && 0 <= j < self@.len() && i != j implies (#[trigger] self@[i]).1 != (#[trigger] self@[j]).1
                && self@[i].0 != self@[j].0 by {
            if i < before.len() && j < before.len() {
            } else if i == before.len() {
                assert(self@[j] == before[j]);
            } else {
                assert(self@[i] == before[i]);
            }
        }
        InsertOutcome::Inserted
    }

    /// Registers an account: empty fields are `InvalidInput`, a taken username is `Conflict`,
    /// otherwise the password is hashed, a fresh id drawn, and both rows inserted together.
    /// Past those checks the only errors are an internal `HashingFailure` and a `Conflict` from
    /// a drawn id that is already taken.
    /// On success the new row is appended and the returned account carries its id and
    /// username; on any failure nothing is written.
    pub fn register(&mut self, hasher: &PasswordHasher, username: &str, password: &str) -> (r: Result<Account, AuthError>)
        requires
            old(self).wf(),
            hasher.wf(),
        ensures
            final(self).wf(),
            registration_gate(username@, password@, has_username(old(self)@, username@)) matches Some(e)
                ==> r == Err::<Account, AuthError>(e),
            r is Err ==> final(self)@ == old(self)@,
            r matches Err(e) ==> e == AuthError::InvalidInput || e == AuthError::Conflict || e == AuthError::HashingFailure,
            registration_gate(username@, password@, has_username(old(self)@, username@)) is None
                ==> (r matches Err(e) ==> e == AuthError::HashingFailure || e == AuthError::Conflict),
            r matches Ok(a) ==> registration_gate(username@, password@, has_username(old(self)@, username@)) is None
                && a.username@ == username@
                && is_v4_text(a.id@)
                && !has_id(old(self)@, a.id@)
                && final(self)@.len() == old(self)@.len() + 1
                && final(self)@.drop_last() == old(self)@
                && final(self)@.last().0 == a.id@
                && final(self)@.last().1 == username@
                && final(self)@.last().2.subrange(0, 7) == bcrypt_header(hasher.cost_spec())
                && password_matches(password@, final(self)@.last().2) == Ok::<bool, AuthError>(true),
    {
        let taken = self.username_exists(username);
        let (account, credential) = prepare_registration(hasher, username, password, taken)?;
        let returned = Account { id: account.id.clone(), username: account.username.clone() };
        let outcome = self.insert_account_and_credential(account, credential);
        proof {
            if outcome == InsertOutcome::Inserted {
                assert(self@.drop_last() =~= old(self)@);
            }
        }
        finish_registration(returned, outcome)
    }
}

/// A username registered once stays taken: in every later state of the store (which only
/// ever gains rows) another registration under it, with any non-empty password, fails with
/// `Conflict`.
pub proof fn lemma_register_once(earlier: Seq<RowView>, later: Seq<RowView>, username: Seq<char>, password: Seq<char>)
    requires
        has_username(earlier, username),
        extends(earlier, later),
        username.len() > 0,
        password.len() > 0,
    ensures
        registration_gate(username, password, has_username(later, username)) == Some(AuthError::Conflict),
{
    let i = choose|i: int| 0 <= i < earlier.len() && (#[trigger] earlier[i]).1 == username;
    assert(later.subrange(0, earlier.len() as int)[i] == later[i]);
    assert(later[i].1 == username);
}

/// After a successful registration the store extends the one before it and holds the username.
pub proof fn lemma_registered_is_taken(before: Seq<RowView>, after: Seq<RowView>, username: Seq<char>)
    requires
        after.len() == before.len() + 1,
        after.drop_last() == before,
        after.last().1 == username,
    ensures
        extends(before, after),
        has_username(after, username),
{
    assert(after.subrange(0, before.len() as int) =~= after.drop_last());
    assert(after[after.len() - 1].1 == username);
}

} // verus!
