//! The account that the API key belongs to.
use vstd::prelude::*;

verus! {

/// The path of the account's details.
pub const ACCOUNT_PATH: &'static str = "/user/account";

/// The path of the account's credit balance.
pub const BALANCE_PATH: &'static str = "/user/balance";

/// The account's details.
#[derive(Debug)]
pub struct User {
    pub email: String,
    pub id: String,
    pub organizations: Vec<Organization>,
    pub profile_picture: String,
}

/// An organization that the account belongs to.
#[derive(Debug)]
pub struct Organization {
    pub id: String,
    pub is_default: bool,
    pub name: String,
    pub role: String,
}

} // verus!
