use vstd::prelude::*;
use crate::roles::Role;
use crate::text::same_text;

verus! {

/// The realtime channel's rooms.
pub struct Rooms {}

impl Rooms {
    pub const MOBILE: &'static str = "mobile";
    pub const ADMIN: &'static str = "admin";
    pub const EXEC: &'static str = "exec";
}

/// A request, sent over the realtime channel, to join the rooms one is allowed in.
#[derive(Clone, Copy, Debug, PartialEq, Eq, Structural)]
pub enum Ping {
    Mobile,
    Admin,
}

impl Ping {
    pub open spec fn spec_from_event(event: Seq<char>) -> Option<Ping> {
        if event == "ping:mobile"@ {
            Some(Ping::Mobile)
        } else if event == "ping:admin"@ {
            Some(Ping::Admin)
        } else {
            None
        }
    }

    /// The ping that an event name stands for, if any.
    pub fn from_event(event: &str) -> (r: Option<Ping>)
        ensures
            r == Ping::spec_from_event(event@),
    {
        if same_text(event, "ping:mobile") {
            Some(Ping::Mobile)
        } else if same_text(event, "ping:admin") {
            Some(Ping::Admin)
        } else {
            None
        }
    }
}

pub open spec fn admitted_on_socket(privilege: Option<Role>, minimum: Role) -> bool {
    privilege matches Some(p) && p.at_least(minimum)
}

/// The realtime gate: a caller passes when its credential resolved to a record
/// whose role is at least `minimum`. `privilege` is that record's role, or
/// `None` when any step of the resolution failed.
pub fn socket_admits(privilege: Option<Role>, minimum: Role) -> (r: bool)
    ensures
        r == admitted_on_socket(privilege, minimum),
{
    match privilege {
        Some(p) => p >= minimum,
        None => false,
    }
}

/// The rooms a caller joins on a ping: `mobile` for any resolved caller on a
/// mobile ping; on an admin ping, `exec` from `Exec` up and `admin` from `Team` up.
pub fn rooms_to_join(ping: Ping, privilege: Option<Role>) -> (r: Vec<&'static str>)
    ensures
        ping == Ping::Mobile ==> r@ == (if admitted_on_socket(privilege, Role::Unprivileged) {
            seq![Rooms::MOBILE]
        } else {
            seq![]
        }),
        ping == Ping::Admin ==> r@ == (if admitted_on_socket(privilege, Role::Exec) {
            seq![Rooms::EXEC]
        } else {
            seq![]
        }) + (if admitted_on_socket(privilege, Role::Team) {
            seq![Rooms::ADMIN]
        } else {
            seq![]
        }),
{
    let mut r: Vec<&'static str> = Vec::new();
    match ping {
        Ping::Mobile => {
            if socket_admits(privilege, Role::Unprivileged) {
                r.push(Rooms::MOBILE);
            }
        },
        Ping::Admin => {
            if socket_admits(privilege, Role::Exec) {
                r.push(Rooms::EXEC);
            }
            if socket_admits(privilege, Role::Team) {
                r.push(Rooms::ADMIN);
            }
        },
    }
    r
}

} // verus!
