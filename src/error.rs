use vstd::prelude::*;

verus! {

/// Failures of the login flow.
#[derive(Debug)]
pub enum Error {
    LoginFail,
    UserNotFound { username: String },
}

} // verus!
