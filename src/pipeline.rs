use vstd::prelude::*;
use crate::identity::{OrganizerEntity, RequestIdentity, UserEntity};
use crate::provider::{FirebaseUserResult, ProviderReply};

verus! {

/// Why a request could not be authenticated.
#[derive(Clone, Copy, Debug, PartialEq, Eq, Structural)]
pub enum AuthError {
    /// No `Authorization` header, or one without a credential in it.
    MissingCredential,
    /// The identity provider could not be reached.
    ProviderUnavailable,
    /// The identity provider answered with a status other than 200.
    ProviderRejected,
    /// The identity provider's answer could not be decoded.
    MalformedProviderResponse,
    /// The identity provider knows no subject for the credential.
    NoSubject,
    /// No local record of either kind belongs to the subject.
    UnknownSubject,
}

/// The outcome of looking a subject up among the records of one kind.
#[derive(Clone, Debug)]
pub enum Lookup<T> {
    Found(T),
    Missing,
    Failed,
}

impl AuthError {
    /// The failure says that the caller could not be checked, not that the
    /// caller is not who it claims to be.
    pub open spec fn spec_is_service_failure(self) -> bool {
        self is ProviderUnavailable || self is MalformedProviderResponse
    }

    #[verifier::when_used_as_spec(spec_is_service_failure)]
    pub fn is_service_failure(self) -> (r: bool)
        ensures
            r == self.spec_is_service_failure(),
    {
        match self {
            AuthError::ProviderUnavailable | AuthError::MalformedProviderResponse => true,
            _ => false,
        }
    }

    /// The HTTP status a rejected request receives: 401 when the caller is not
    /// authenticated, 500 when the check itself could not be made.
    pub fn status_code(self) -> (r: u16)
        ensures
            self.spec_is_service_failure() ==> r == 500,
            !self.spec_is_service_failure() ==> r == 401,
    {
        if self.is_service_failure() {
            500
        } else {
            401
        }
    }
}

/// The subject the provider's answer names: the `local_id` of the first user listed.
pub open spec fn first_subject(reply: ProviderReply) -> Result<Seq<char>, AuthError> {
    match reply {
        ProviderReply::Unreachable => Err(AuthError::ProviderUnavailable),
        ProviderReply::Answered { status, body } => if status != 200 {
            Err(AuthError::ProviderRejected)
        } else {
            match body {
                None => Err(AuthError::MalformedProviderResponse),
                Some(result) => if result.users@.len() == 0 {
                    Err(AuthError::NoSubject)
                } else {
                    Ok(result.users@[0].local_id@)
                },
            }
        },
    }
}

/// Reads the provider's answer to a credential lookup and picks the subject.
pub fn select_subject(reply: ProviderReply) -> (r: Result<String, AuthError>)
    ensures
        match first_subject(reply) {
            Ok(s) => r matches Ok(t) && t@ == s,
            Err(e) => r == Err::<String, AuthError>(e),
        },
{
    match reply {
        ProviderReply::Unreachable => Err(AuthError::ProviderUnavailable),
        ProviderReply::Answered { status, body } => {
            if status != 200 {
                return Err(AuthError::ProviderRejected);
            }
            match body {
                None => Err(AuthError::MalformedProviderResponse),
                Some(result) => {
                    if result.users.len() == 0 {
                        Err(AuthError::NoSubject)
                    } else {
                        Ok(result.users[0].local_id.clone())
                    }
                },
            }
        },
    }
}

pub open spec fn found<T>(l: Lookup<T>) -> Option<T> {
    match l {
        Lookup::Found(t) => Some(t),
        _ => None,
    }
}

/// Joins the two lookups of a subject, one per kind of record. A failed lookup
/// counts as a missing record; the subject is unknown only when neither kind
/// has a record.
pub fn resolve_identity(organizer: Lookup<OrganizerEntity>, user: Lookup<UserEntity>) -> (r: Result<
    RequestIdentity,
    AuthError,
>)
    ensures
        found(organizer) is None && found(user) is None ==> r == Err::<RequestIdentity, AuthError>(
            AuthError::UnknownSubject,
        ),
        found(organizer) is Some || found(user) is Some ==> (r matches Ok(id) && id.organizer
            == found(organizer) && id.user == found(user) && id.wf()),
{
    let organizer = match organizer {
        Lookup::Found(o) => Some(o),
        _ => None,
    };
    let user = match user {
        Lookup::Found(u) => Some(u),
        _ => None,
    };
    if organizer.is_none() && user.is_none() {
        Err(AuthError::UnknownSubject)
    } else {
        Ok(RequestIdentity { organizer, user })
    }
}

} // verus!
