use vstd::prelude::*;

use crate::error::AuthError;
use crate::keys::KeyManager;

verus! {

/// Lifetime of an issued token, in seconds, unless configured otherwise.
pub const DEFAULT_TOKEN_LIFETIME: u64 = 3600;

/// The compact JWT text that jwt's HMAC-SHA256 signing makes of the claims
/// (account id, issued-at, expires-at) under a secret.
pub uninterp spec fn jwt_signed(secret: Seq<u8>, account_id: Seq<char>, issued_at: u64, expires_at: u64) -> Seq<char>;

/// What jwt's HMAC-SHA256 verification yields for a token text under a secret: the claims
/// (account id, issued-at, expires-at) where the token is well formed and its signature
/// verifies, `None` otherwise.
pub uninterp spec fn jwt_claims(secret: Seq<u8>, token: Seq<char>) -> Option<(Seq<char>, u64, u64)>;

/// Relies on `jwt::SignWithKey::sign_with_key` for serialisable claims with an
/// `hmac::Hmac<sha2::Sha256>` key: the claims tuple is JSON-encoded and signed as a whole into a
/// three-part token, which `verify_with_key` under the same key decodes back to the same tuple.
/// None of the steps can fail: `Hmac::new_from_slice` takes a key of any length, the tuple
/// always serialises, and HMAC signing always returns `Ok`.
#[verifier::external_body]
fn jwt_sign(secret: &Vec<u8>, account_id: &str, issued_at: u64, expires_at: u64) -> (r: String)
    ensures
        r@ == jwt_signed(secret@, account_id@, issued_at, expires_at),
        jwt_claims(secret@, r@) == Some((account_id@, issued_at, expires_at)),
{
    let key: hmac::Hmac<sha2::Sha256> = hmac::Mac::new_from_slice(secret).unwrap();
    let claims = (account_id.to_string(), issued_at, expires_at);
    jwt::SignWithKey::sign_with_key(claims, &key).unwrap()
}

/// Relies on `jwt::VerifyWithKey::verify_with_key` with an `hmac::Hmac<sha2::Sha256>` key:
/// parses the three parts, checks the algorithm and the signature over header and claims, and
/// decodes the claims tuple; an error on any failure.
#[verifier::external_body]
fn jwt_verify(secret: &Vec<u8>, token: &str) -> (r: Option<(String, u64, u64)>)
    ensures
        claims_view(r) == jwt_claims(secret@, token@),
{
    let key: hmac::Hmac<sha2::Sha256> = match hmac::Mac::new_from_slice(secret) {
        Ok(k) => k,
        Err(_) => return None,
    };
    jwt::VerifyWithKey::<(String, u64, u64)>::verify_with_key(token, &key).ok()
}

pub open spec fn claims_view(c: Option<(String, u64, u64)>) -> Option<(Seq<char>, u64, u64)> {
    match c {
        Some((id, iat, exp)) => Some((id@, iat, exp)),
        None => None,
    }
}

pub open spec fn result_view(r: Result<String, AuthError>) -> Result<Seq<char>, AuthError> {
    match r {
        Ok(s) => Ok(s@),
        Err(e) => Err(e),
    }
}

/// The moment a token issued at `now` stops being valid (saturating at the largest time).
pub open spec fn expiry(now: u64, lifetime: u64) -> u64 {
    if now + lifetime > u64::MAX {
        u64::MAX
    } else {
        (now + lifetime) as u64
    }
}

/// The verdict on verified claims at time `now`: the account id while `now <= expires_at`,
/// `Expired` after, and `InvalidToken` where nothing verified.
pub open spec fn verdict(claims: Option<(Seq<char>, u64, u64)>, now: u64) -> Result<Seq<char>, AuthError> {
    match claims {
        Some((id, _iat, exp)) => if now <= exp {
            Ok(id)
        } else {
            Err(AuthError::Expired)
        },
        None => Err(AuthError::InvalidToken),
    }
}

/// The outcome of validating a token text at time `now` under a secret.
pub open spec fn validation(secret: Seq<u8>, token: Seq<char>, now: u64) -> Result<Seq<char>, AuthError> {
    verdict(jwt_claims(secret, token), now)
}

/// Decides a token from the claims that signature verification produced, if any.
pub fn judge_claims(claims: Option<(String, u64, u64)>, now: u64) -> (r: Result<String, AuthError>)
    ensures
        result_view(r) == verdict(claims_view(claims), now),
{
    match claims {
        Some((id, _iat, exp)) => {
            if now <= exp {
                Ok(id)
            } else {
                Err(AuthError::Expired)
            }
        },
        None => Err(AuthError::InvalidToken),
    }
}

/// A token whose signature verified is never reported as invalid: once past its expiry it
/// is reported as expired, and before that it yields its account id.
pub proof fn lemma_expired_not_invalid(id: Seq<char>, issued_at: u64, expires_at: u64, now: u64)
    ensures
        now > expires_at ==> verdict(Some((id, issued_at, expires_at)), now) == Err::<Seq<char>, AuthError>(AuthError::Expired),
        now <= expires_at ==> verdict(Some((id, issued_at, expires_at)), now) == Ok::<Seq<char>, AuthError>(id),
        verdict(Some((id, issued_at, expires_at)), now) != Err::<Seq<char>, AuthError>(AuthError::InvalidToken),
{
}

/// Signs a token for the account under the key manager's secret, over the account id, the
/// issue time and the expiry as a whole. The token carries exactly those three claims, and
/// validating it under that secret yields the account id up to and including `expires_at` and
/// `Expired` afterwards.
pub fn generate_auth_token(keys: &KeyManager, account_id: &str, issued_at: u64, expires_at: u64) -> (t: String)
    ensures
        t@ == jwt_signed(keys.secret_spec(), account_id@, issued_at, expires_at),
        jwt_claims(keys.secret_spec(), t@) == Some((account_id@, issued_at, expires_at)),
        forall|later: u64| #[trigger] validation(keys.secret_spec(), t@, later)
            == (if later <= expires_at {
                Ok::<Seq<char>, AuthError>(account_id@)
            } else {
                Err::<Seq<char>, AuthError>(AuthError::Expired)
            }),
{
    jwt_sign(keys.secret(), account_id, issued_at, expires_at)
}

/// Issues and validates signed tokens with the key that the key manager holds.
pub struct TokenService {
    keys: KeyManager,
    lifetime: u64,
}

impl TokenService {
    pub closed spec fn secret_spec(&self) -> Seq<u8> {
        self.keys.secret_spec()
    }

    pub closed spec fn lifetime_spec(&self) -> u64 {
        self.lifetime
    }

    /// A token lifetime of zero would make every token expire as it is issued.
    pub open spec fn wf(&self) -> bool {
        self.lifetime_spec() > 0
    }

    /// A service with the key manager's secret and the given token lifetime in seconds, or
    /// `None` where the lifetime is zero.
    pub fn new(keys: KeyManager, lifetime: u64) -> (r: Option<TokenService>)
        ensures
            r is Some <==> lifetime > 0,
            r matches Some(s) ==> s.wf() && s.secret_spec() == keys.secret_spec() && s.lifetime_spec() == lifetime,
    {
        if lifetime == 0 {
            None
        } else {
            Some(TokenService { keys, lifetime })
        }
    }

    pub fn lifetime(&self) -> (r: u64)
        ensures
            r == self.lifetime_spec(),
    {
        self.lifetime
    }

    /// The moment a token issued at `now` expires.
    pub fn expiry_for(&self, now: u64) -> (r: u64)
        ensures
            r == expiry(now, self.lifetime_spec()),
    {
        if now > u64::MAX - self.lifetime {
            u64::MAX
        } else {
            now + self.lifetime
        }
    }

    /// Issues a token for the account at time `now`, signed over the account id, `now` and the
    /// expiry (a lifetime later, saturating) as a whole. Validating it yields the account id up
    /// to and including the expiry and `Expired` afterwards.
    pub fn issue(&self, account_id: &str, now: u64) -> (t: String)
        ensures
            t@ == jwt_signed(self.secret_spec(), account_id@, now, expiry(now, self.lifetime_spec())),
            jwt_claims(self.secret_spec(), t@) == Some((account_id@, now, expiry(now, self.lifetime_spec()))),
            validation(self.secret_spec(), t@, now) == Ok::<Seq<char>, AuthError>(account_id@),
            forall|later: u64| #[trigger] validation(self.secret_spec(), t@, later)
                == (if later <= expiry(now, self.lifetime_spec()) {
                    Ok::<Seq<char>, AuthError>(account_id@)
                } else {
                    Err::<Seq<char>, AuthError>(AuthError::Expired)
                }),
    {
        generate_auth_token(&self.keys, account_id, now, self.expiry_for(now))
    }

    /// Validates a token at time `now`: the embedded account id where the signature verifies
    /// and `now` is not past the expiry, `Expired` where it verifies but is past it, and
    /// `InvalidToken` where it is malformed or its signature does not verify.
    pub fn validate(&self, token: &str, now: u64) -> (r: Result<String, AuthError>)
        ensures
            result_view(r) == validation(self.secret_spec(), token@, now),
    {
        let claims = jwt_verify(self.keys.secret(), token);
        judge_claims(claims, now)
    }
}

} // verus!
