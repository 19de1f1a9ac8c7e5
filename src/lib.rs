//! Client for the EVE Online single sign-on login flow: building the login
//! redirect URL, preparing the authorization-code exchange, and turning the
//! provider's answer into a validated token.

use vstd::prelude::*;

pub mod auth;
pub mod search;

verus! {

/// Base path of the ESI API.
pub const URL: &'static str = "https://esi.evetech.net/latest/";

} // verus!
