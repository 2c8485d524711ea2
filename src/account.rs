use vstd::prelude::*;

use crate::error::AuthError;
use crate::keys::random_bytes;
use crate::password::{bcrypt_header, password_matches, PasswordHasher};

verus! {

/// Length of an account id: a version 4 UUID in its hyphenated text form.
pub const ACCOUNT_ID_LEN: usize = 36;

/// Number of random bytes a version 4 UUID is built from.
pub const UUID_BYTES: usize = 16;

/// A lowercase hexadecimal digit.
pub open spec fn is_lower_hex(c: char) -> bool {
    ('0' <= c && c <= '9') || ('a' <= c && c <= 'f')
}

/// The hyphenated lowercase text of a version 4 (random), RFC 4122 variant UUID: 36 characters,
/// hyphens at 8, 13, 18 and 23, hex digits elsewhere, version digit `4`, variant digit 8 to b.
pub open spec fn is_v4_text(s: Seq<char>) -> bool {
    &&& s.len() == ACCOUNT_ID_LEN
    &&& forall|i: int| 0 <= i < ACCOUNT_ID_LEN ==> if i == 8 || i == 13 || i == 18 || i == 23 {
        #[trigger] s[i] == '-'
    } else {
        is_lower_hex(s[i])
    }
    &&& s[14] == '4'
    &&& s[19] == '8' || s[19] == '9' || s[19] == 'a' || s[19] == 'b'
}

/// Relies on `uuid::Builder::from_random_bytes` and the `Display` of `Uuid`: the 16 bytes get
/// the version 4 and RFC 4122 variant bits set, and are rendered in the hyphenated lowercase form.
#[verifier::external_body]
fn uuid_v4_text(random: &Vec<u8>) -> (r: String)
    requires
        random@.len() == UUID_BYTES,
    ensures
        is_v4_text(r@),
{
    let mut bytes = [0u8; 16];
    bytes.copy_from_slice(random.as_slice());
    uuid::Builder::from_random_bytes(bytes).into_uuid().to_string()
}

/// A fresh random account id, or `None` where the random source fails.
fn random_account_id() -> (r: Option<String>)
    ensures
        r matches Some(s) ==> is_v4_text(s@),
{
    match random_bytes(UUID_BYTES) {
        Some(b) => Some(uuid_v4_text(&b)),
        None => None,
    }
}

/// A registered identity, as returned to callers: never carries password material.
#[derive(Clone, Debug)]
pub struct Account {
    pub id: String,
    pub username: String,
}

/// The stored password-verification material of one account.
#[derive(Clone, Debug)]
pub struct Credential {
    pub account_id: String,
    pub password_hash: String,
}

/// What a store reports for an attempt to insert an account and its credential together.
#[derive(PartialEq, Eq, Structural, Clone, Copy, Debug)]
pub enum InsertOutcome {
    /// Both rows were written.
    Inserted,
    /// The username or the id is already present; nothing was written.
    UniqueViolation,
    /// Storage could not be reached; nothing was written.
    Unavailable,
}

/// The failure that a registration meets before any hashing or writing, if any: empty
/// fields are invalid input, and a username already taken is a conflict.
pub open spec fn registration_gate(username: Seq<char>, password: Seq<char>, taken: bool) -> Option<AuthError> {
    if username.len() == 0 || password.len() == 0 {
        Some(AuthError::InvalidInput)
    } else if taken {
        Some(AuthError::Conflict)
    } else {
        None
    }
}

/// Rejects empty fields before storage is touched.
pub fn check_registration_input(username: &str, password: &str) -> (r: Result<(), AuthError>)
    ensures
        r is Err <==> (username@.len() == 0 || password@.len() == 0),
        r matches Err(e) ==> e == AuthError::InvalidInput,
{
    if username.is_empty() || password.is_empty() {
        Err(AuthError::InvalidInput)
    } else {
        Ok(())
    }
}

/// Builds the account and credential rows of a registration, given whether the advisory
/// existence check found the username: hashes the password and draws a fresh random id.
/// A failure of the hashing or of the random source is a `HashingFailure`.
pub fn prepare_registration(hasher: &PasswordHasher, username: &str, password: &str, taken: bool) -> (r: Result<(Account, Credential), AuthError>)
    requires
        hasher.wf(),
    ensures
        registration_gate(username@, password@, taken) matches Some(e) ==> r == Err::<(Account, Credential), AuthError>(e),
        registration_gate(username@, password@, taken) is None ==> match r {
            Ok((a, c)) => a.username@ == username@ && a.id@ == c.account_id@ && is_v4_text(a.id@)
                && c.password_hash@.subrange(0, 7) == bcrypt_header(hasher.cost_spec())
                && password_matches(password@, c.password_hash@) == Ok::<bool, AuthError>(true),
            Err(e) => e == AuthError::HashingFailure,
        },
{
    check_registration_input(username, password)?;
    if taken {
        return Err(AuthError::Conflict);
    }
    let password_hash = hasher.hash(password)?;
    let id = match random_account_id() {
        Some(id) => id,
        None => return Err(AuthError::HashingFailure),
    };
    let account_id = id.clone();
    Ok((Account { id, username: username.to_owned() }, Credential { account_id, password_hash }))
}

/// Maps what the store reported for the insert into the registration's result: the
/// insert is authoritative, so a uniqueness violation there is a conflict.
pub fn finish_registration(account: Account, outcome: InsertOutcome) -> (r: Result<Account, AuthError>)
    ensures
        outcome == InsertOutcome::Inserted ==> (r matches Ok(a) && a.id@ == account.id@ && a.username@ == account.username@),
        outcome == InsertOutcome::UniqueViolation ==> r == Err::<Account, AuthError>(AuthError::Conflict),
        outcome == InsertOutcome::Unavailable ==> r == Err::<Account, AuthError>(AuthError::StorageUnavailable),
{
    match outcome {
        InsertOutcome::Inserted => Ok(account),
        InsertOutcome::UniqueViolation => Err(AuthError::Conflict),
        InsertOutcome::Unavailable => Err(AuthError::StorageUnavailable),
    }
}

} // verus!
