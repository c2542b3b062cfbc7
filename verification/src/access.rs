//! Who is calling: every operation that changes state is made on behalf of
//! an account, and a call that carries none is turned away.
use vstd::prelude::*;
use crate::account::{AccountId, Key};
use crate::campaign::Error;

verus! {

/// The types that a deployment settles on.
pub trait Config {
    /// How accounts are identified.
    type AccountId: Key;
}

/// Where a call comes from.
#[derive(Debug, PartialEq, Eq)]
pub enum Origin<A> {
    /// The call was made by the holder of this account.
    Signed(A),
    /// The call carries no identity.
    Anonymous,
}

/// The refusal of a call that carries no identity.
#[derive(Clone, Copy, Debug, PartialEq, Eq, Structural)]
pub struct Unauthorized;

/// The account on whose behalf a call is made, if it carries one.
pub fn ensure_signed<A>(origin: Origin<A>) -> (r: Result<A, Unauthorized>)
    ensures
        r == match origin {
            Origin::Signed(who) => Ok::<A, Unauthorized>(who),
            Origin::Anonymous => Err::<A, Unauthorized>(Unauthorized),
        },
{
    match origin {
        Origin::Signed(who) => Ok(who),
        Origin::Anonymous => Err(Unauthorized),
    }
}

/// The account that calls the campaign ledger, or the ledger's error for a
/// call without identity.
pub fn resolve_caller(origin: Origin<AccountId>) -> (r: Result<AccountId, Error>)
    ensures
        r == match origin {
            Origin::Signed(who) => Ok::<AccountId, Error>(who),
            Origin::Anonymous => Err::<AccountId, Error>(Error::Unauthorized),
        },
{
    match ensure_signed(origin) {
        Ok(who) => Ok(who),
        Err(_) => Err(Error::Unauthorized),
    }
}

} // verus!
