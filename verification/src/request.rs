//! The already-decoded request bodies the core consumes. The transport
//! layer decodes JSON into these shapes before a flow runs; decoding
//! failures never reach the core.

use vstd::prelude::*;

verus! {

/// Input of the registration flow.
#[derive(Debug)]
pub struct CreateUserRequest {
    pub email: String,
    pub password: String,
    pub first_name: String,
    pub last_name: String,
}

/// Input of the authentication flow.
#[derive(Debug)]
pub struct LoginUserRequest {
    pub email: String,
    pub password: String,
}

} // verus!
