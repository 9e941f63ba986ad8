use vstd::prelude::*;

verus! {

/// Identifier of an account.
#[derive(Debug, Clone, Copy, PartialEq, Eq, Hash, Structural)]
pub struct AccountId(pub i32);

/// A login session: valid from `nbf` until `exp`, both in seconds since the
/// Unix epoch (UTC).
#[derive(Debug, Clone, Copy)]
pub struct Session {
    pub exp: i64,
    pub account_id: AccountId,
    pub nbf: i64,
}

/// A registered account.
#[derive(Debug, Clone)]
pub struct Account {
    pub id: Option<AccountId>,
    pub email: String,
    pub password: String,
}

} // verus!
