use vstd::prelude::*;

use crate::error::AuthError;

verus! {

/// Smallest work factor that bcrypt accepts.
pub const MIN_COST: u32 = 4;

/// Largest work factor that bcrypt accepts.
pub const MAX_COST: u32 = 31;

/// Work factor used by the service unless configured otherwise.
pub const DEFAULT_COST: u32 = 12;

/// Length of a bcrypt hash in its textual `$2b$` form.
pub const HASH_TEXT_LEN: usize = 60;

/// Length of a SHA-256 digest in bytes.
pub const DIGEST_LEN: usize = 32;

/// The SHA-256 digest of a password's UTF-8 bytes.
pub uninterp spec fn sha256_of(password: Seq<char>) -> Seq<u8>;

/// What `bcrypt::verify` answers for the bytes given as password and a stored hash text:
/// `Some(matches)`, or `None` where the stored text is malformed.
pub uninterp spec fn bcrypt_verdict(secret: Seq<u8>, stored: Seq<char>) -> Option<bool>;

/// The decimal digit characters, by value.
pub open spec fn digit_char(d: u32) -> char {
    seq!['0', '1', '2', '3', '4', '5', '6', '7', '8', '9'][(d % 10) as int]
}

/// The start of a bcrypt hash text in the `$2b$` form: scheme, then the cost in two digits.
pub open spec fn bcrypt_header(cost: u32) -> Seq<char> {
    seq!['$', '2', 'b', '$', digit_char(cost / 10), digit_char(cost % 10), '$']
}

/// Relies on `sha2::Sha256::digest`: the 32-byte SHA-256 digest of the password's UTF-8 bytes.
#[verifier::external_body]
fn sha256_digest(password: &str) -> (r: Vec<u8>)
    ensures
        r@ == sha256_of(password@),
        r@.len() == DIGEST_LEN,
{
    <sha2::Sha256 as sha2::Digest>::digest(password.as_bytes()).to_vec()
}

/// Relies on `bcrypt::hash_with_result` and `HashParts::format_for_version`: the bytes are hashed
/// under a fresh random salt and rendered as the 60-character text `$2b$`, two-digit cost, `$`,
/// salt and hash, which `bcrypt::verify` recomputes from the embedded cost and salt and so accepts
/// for the same bytes. The only error is a failure of the random source.
#[verifier::external_body]
fn bcrypt_hash(secret: &Vec<u8>, cost: u32) -> (r: Option<String>)
    requires
        MIN_COST <= cost <= MAX_COST,
    ensures
        r matches Some(h) ==> h@.len() == HASH_TEXT_LEN && h@.subrange(0, 7) == bcrypt_header(cost)
            && bcrypt_verdict(secret@, h@) == Some(true),
{
    match bcrypt::hash_with_result(secret.as_slice(), cost) {
        Ok(parts) => Some(parts.format_for_version(bcrypt::Version::TwoB)),
        Err(_) => None,
    }
}

/// Relies on `bcrypt::verify`: recomputes the hash of the bytes under the stored cost and salt
/// and compares in constant time; an error where the stored text is malformed.
#[verifier::external_body]
fn bcrypt_verify(secret: &Vec<u8>, stored: &str) -> (r: Option<bool>)
    ensures
        r == bcrypt_verdict(secret@, stored@),
{
    match bcrypt::verify(secret.as_slice(), stored) {
        Ok(b) => Some(b),
        Err(_) => None,
    }
}

/// Hashes and verifies passwords with bcrypt under one fixed work factor. The password is
/// first reduced to its SHA-256 digest, so that every byte of it counts: bcrypt alone reads
/// no more than 72 bytes.
pub struct PasswordHasher {
    cost: u32,
}

impl PasswordHasher {
    /// The hasher is usable only with a work factor that bcrypt accepts.
    pub open spec fn wf(&self) -> bool {
        MIN_COST <= self.cost_spec() <= MAX_COST
    }

    pub closed spec fn cost_spec(&self) -> u32 {
        self.cost
    }

    /// A hasher with the default work factor.
    pub fn new() -> (r: PasswordHasher)
        ensures
            r.wf(),
            r.cost_spec() == DEFAULT_COST,
    {
        PasswordHasher { cost: DEFAULT_COST }
    }

    /// A hasher with the given work factor, or `None` where bcrypt does not accept it.
    pub fn with_cost(cost: u32) -> (r: Option<PasswordHasher>)
        ensures
            r is Some <==> MIN_COST <= cost <= MAX_COST,
            r matches Some(h) ==> h.wf() && h.cost_spec() == cost,
    {
        if MIN_COST <= cost && cost <= MAX_COST {
            Some(PasswordHasher { cost })
        } else {
            None
        }
    }

    pub fn cost(&self) -> (r: u32)
        ensures
            r == self.cost_spec(),
    {
        self.cost
    }

    /// Hashes a password of any length under a fresh salt. The stored text names the scheme
    /// and this hasher's cost, and always verifies against the password it was made from; the
    /// only failure is an internal one.
    pub fn hash(&self, password: &str) -> (r: Result<String, AuthError>)
        requires
            self.wf(),
        ensures
            r matches Ok(h) ==> h@.len() == HASH_TEXT_LEN && h@.subrange(0, 7) == bcrypt_header(self.cost_spec())
                && password_matches(password@, h@) == Ok::<bool, AuthError>(true),
            r matches Err(e) ==> e == AuthError::HashingFailure,
    {
        let digest = sha256_digest(password);
        match bcrypt_hash(&digest, self.cost) {
            Some(h) => Ok(h),
            None => Err(AuthError::HashingFailure),
        }
    }

    /// Checks a password against a stored hash text: `Ok(false)` on a mismatch, and
    /// `HashingFailure` only where the stored text is malformed.
    pub fn verify(&self, password: &str, stored: &str) -> (r: Result<bool, AuthError>)
        ensures
            r == password_matches(password@, stored@),
    {
        let digest = sha256_digest(password);
        match bcrypt_verify(&digest, stored) {
            Some(b) => Ok(b),
            None => Err(AuthError::HashingFailure),
        }
    }
}

/// The outcome of checking a password against a stored hash text: bcrypt's verdict on the
/// password's SHA-256 digest.
pub open spec fn password_matches(password: Seq<char>, stored: Seq<char>) -> Result<bool, AuthError> {
    match bcrypt_verdict(sha256_of(password), stored) {
        Some(b) => Ok(b),
        None => Err(AuthError::HashingFailure),
    }
}

} // verus!
