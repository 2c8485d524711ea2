use vstd::prelude::*;

use crate::error::AuthError;

verus! {

/// Length in bytes of a freshly generated signing secret.
pub const SECRET_LEN: usize = 32;

/// Relies on `getrandom::fill`: the buffer is filled entirely from the operating system's
/// random source, or an error is returned.
#[verifier::external_body]
pub(crate) fn random_bytes(len: usize) -> (r: Option<Vec<u8>>)
    ensures
        r matches Some(v) ==> v@.len() == len,
{
    let mut buf = vec![0u8; len];
    match getrandom::fill(&mut buf) {
        Ok(()) => Some(buf),
        Err(_) => None,
    }
}

/// The bytes held in an optional key row.
pub open spec fn key_row_view(row: Option<Vec<u8>>) -> Option<Seq<u8>> {
    match row {
        Some(k) => Some(k@),
        None => None,
    }
}

/// What startup may end in: given the key row found in storage, the key held in memory and
/// the row to persist. A stored key is taken unchanged and nothing is written; otherwise a new
/// key of `SECRET_LEN` bytes is held and exactly that key is to be persisted.
pub open spec fn startup_outcome(loaded: Option<Seq<u8>>, held: Seq<u8>, to_store: Option<Seq<u8>>) -> bool {
    match loaded {
        Some(k) => held == k && to_store is None,
        None => to_store == Some(held) && held.len() == SECRET_LEN,
    }
}

/// The key row that storage holds once startup's write, if any, has been made.
pub open spec fn persisted_after(loaded: Option<Seq<u8>>, to_store: Option<Seq<u8>>) -> Option<Seq<u8>> {
    match to_store {
        Some(k) => Some(k),
        None => loaded,
    }
}

/// Holds the service's signing secret; the secret itself never leaves this type
/// except as the row to persist at first startup. Tokens are signed with HMAC-SHA256 under
/// this secret, so there is no public half to hand out: jwt's asymmetric algorithms need
/// OpenSSL, which this build does not link.
pub struct KeyManager {
    secret: Vec<u8>,
}

impl KeyManager {
    pub closed spec fn secret_spec(&self) -> Seq<u8> {
        self.secret@
    }

    /// Startup: takes the key row loaded from storage. Where there is one it is held unchanged
    /// and nothing is to be written; where there is none a fresh random secret is generated,
    /// held, and returned as the row to persist. Generation failing is the only error.
    pub fn initialize(loaded: Option<Vec<u8>>) -> (r: Result<(KeyManager, Option<Vec<u8>>), AuthError>)
        ensures
            loaded is Some ==> r is Ok,
            r matches Ok((m, s)) ==> startup_outcome(key_row_view(loaded), m.secret_spec(), key_row_view(s)),
            r matches Err(e) ==> loaded is None && e == AuthError::HashingFailure,
    {
        match loaded {
            Some(k) => Ok((KeyManager { secret: k }, None)),
            None => {
                match random_bytes(SECRET_LEN) {
                    Some(k) => {
                        let row = k.clone();
                        Ok((KeyManager { secret: k }, Some(row)))
                    },
                    None => Err(AuthError::HashingFailure),
                }
            },
        }
    }

    pub(crate) fn secret(&self) -> (r: &Vec<u8>)
        ensures
            r@ == self.secret_spec(),
    {
        &self.secret
    }
}

/// Startup is idempotent: once a first startup has persisted what it was asked to, a second
/// startup loads that row, holds the very key the first one held, and writes nothing.
pub proof fn lemma_initialize_idempotent(
    loaded: Option<Seq<u8>>,
    held1: Seq<u8>,
    to_store1: Option<Seq<u8>>,
    held2: Seq<u8>,
    to_store2: Option<Seq<u8>>,
)
    requires
        startup_outcome(loaded, held1, to_store1),
        startup_outcome(persisted_after(loaded, to_store1), held2, to_store2),
    ensures
        held2 == held1,
        to_store2 is None,
        persisted_after(persisted_after(loaded, to_store1), to_store2) == persisted_after(loaded, to_store1),
{
}

} // verus!
