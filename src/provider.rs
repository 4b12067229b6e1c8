use vstd::prelude::*;

verus! {

/// The identity provider's record of the subject a credential belongs to.
/// Only `local_id` matters to authentication; the rest is informational.
#[derive(Clone, Debug)]
pub struct FirebaseUserResponse {
    pub local_id: String,
    pub email: String,
    pub email_verified: bool,
    pub valid_since: String,
    pub disabled: bool,
    pub last_login_at: String,
}

/// The identity provider's answer to a credential lookup.
#[derive(Clone, Debug)]
pub struct FirebaseUserResult {
    pub kind: String,
    pub users: Vec<FirebaseUserResponse>,
}

impl FirebaseUserResponse {
    /// Every text field is empty and every flag is false.
    pub open spec fn is_blank(&self) -> bool {
        &&& self.local_id@.len() == 0
        &&& self.email@.len() == 0
        &&& !self.email_verified
        &&& self.valid_since@.len() == 0
        &&& !self.disabled
        &&& self.last_login_at@.len() == 0
    }

    pub fn blank() -> (r: FirebaseUserResponse)
        ensures
            r.is_blank(),
    {
        FirebaseUserResponse {
            local_id: String::new(),
            email: String::new(),
            email_verified: false,
            valid_since: String::new(),
            disabled: false,
            last_login_at: String::new(),
        }
    }
}

impl Default for FirebaseUserResponse {
    fn default() -> (r: FirebaseUserResponse)
        ensures
            r.is_blank(),
    {
        FirebaseUserResponse::blank()
    }
}

/// What came back from asking the identity provider about a credential.
#[derive(Clone, Debug)]
pub enum ProviderReply {
    /// The request did not complete.
    Unreachable,
    /// The provider answered with `status`; `body` is its decoded answer, or
    /// `None` when the body could not be read or decoded.
    Answered { status: u16, body: Option<FirebaseUserResult> },
}

} // verus!
