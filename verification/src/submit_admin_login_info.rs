//! Administrator sign-in.
use vstd::prelude::*;

verus! {

/// Raised when the administrator lookup fails.
#[derive(Debug)]
pub struct FailedToSubmitAdminLoginInfo(pub String);

/// Raised when no token can be made for an administrator.
#[derive(Debug)]
pub struct FailedToGenerateToken(pub String);

} // verus!
