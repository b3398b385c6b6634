//! The account resource: read-only attributes reported by the provider.

use vstd::prelude::*;

verus! {

/// Provider-reported account attributes.
#[derive(Clone, Debug)]
pub struct Account {
    pub droplet_limit: u32,
    pub floating_ip_limit: u32,
    pub volume_limit: u32,
    pub email: String,
    pub uuid: String,
    pub email_verified: bool,
    pub status: String,
    pub status_message: String,
    pub team: Option<Team>,
}

/// The team an account may belong to.
#[derive(Clone, Debug)]
pub struct Team {
    pub uuid: String,
    pub name: String,
}

/// The envelope of the account-info response.
#[derive(Clone, Debug)]
pub struct AccountResponse {
    pub account: Account,
}

} // verus!
