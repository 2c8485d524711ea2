use vstd::prelude::*;

pub mod error;
pub mod password;
pub mod keys;
pub mod token;
pub mod account;
pub mod store;

verus! {

} // verus!
