//! The authentication response the server answers an `AUTH` request with.

use vstd::prelude::*;

verus! {

/// What the server grants after a successful authentication.
pub struct AuthResponse {
    /// The authenticated identity.
    pub identity: String,
    /// An optional URL describing that identity.
    pub identity_url: Option<String>,
    /// How many permissions were granted.
    pub permission_count: i32,
}

} // verus!
