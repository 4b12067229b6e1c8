use vstd::prelude::*;
use crate::roles::Role;

verus! {

/// A record of the plain user kind (a participant). It carries no role.
#[derive(Clone, Debug)]
pub struct UserEntity {
    pub id: String,
    pub first_name: String,
    pub last_name: String,
    pub email: String,
    pub gcp_id: String,
}

/// A record of the organizer kind (staff), with its access level.
#[derive(Clone, Debug)]
pub struct OrganizerEntity {
    pub id: String,
    pub first_name: String,
    pub last_name: String,
    pub email: String,
    pub privilege: Role,
    pub gcp_id: String,
}

/// The identity bound to a request once authentication succeeds: the records
/// of each kind that the subject has.
#[derive(Clone, Debug)]
pub struct RequestIdentity {
    pub organizer: Option<OrganizerEntity>,
    pub user: Option<UserEntity>,
}

impl RequestIdentity {
    /// At least one kind of record is present.
    pub open spec fn wf(&self) -> bool {
        self.organizer is Some || self.user is Some
    }

    /// The role that policies are evaluated against: the organizer's privilege
    /// when there is an organizer record, and `Unprivileged` otherwise.
    pub open spec fn effective_role(&self) -> Role {
        match self.organizer {
            Some(o) => o.privilege,
            None => Role::Unprivileged,
        }
    }

    pub fn role(&self) -> (r: Role)
        ensures
            r == self.effective_role(),
    {
        match &self.organizer {
            Some(o) => o.privilege,
            None => Role::Unprivileged,
        }
    }
}

} // verus!
