use vstd::prelude::*;

verus! {

/// Error returned on failure to authorize with pixiv, with the reason given.
#[derive(Debug)]
pub struct AuthError {
    reason: String,
}

impl AuthError {
    pub closed spec fn reason_view(&self) -> Seq<char> {
        self.reason@
    }

    /// An authentication error for `reason`.
    pub fn new(reason: String) -> (r: AuthError)
        ensures
            r.reason_view() == reason@,
    {
        AuthError { reason }
    }

    /// Why authentication failed.
    pub fn reason(&self) -> (r: &str)
        ensures
            r@ == self.reason_view(),
    {
        self.reason.as_str()
    }

    /// The fixed summary of this kind of error.
    pub fn description(&self) -> (r: &'static str)
        ensures
            r@ == "An error occurred while trying to authenticate."@,
    {
        "An error occurred while trying to authenticate."
    }
}

} // verus!
