use vstd::prelude::*;
use crate::text::same_text;
use vstd::std_specs::cmp::PartialOrdSpec;

verus! {

/// An access level. Levels form a total order fixed by `rank`:
/// `Unprivileged < Volunteer < Team < Tech < Exec < Finance`.
#[derive(Clone, Copy, Debug, PartialEq, Eq, Structural)]
pub enum Role {
    Unprivileged,
    Volunteer,
    Team,
    Tech,
    Exec,
    Finance,
}

impl Role {
    /// The fixed rank table; the order between roles is the order between their ranks.
    pub open spec fn rank(self) -> int {
        match self {
            Role::Unprivileged => 0,
            Role::Volunteer => 1,
            Role::Team => 2,
            Role::Tech => 3,
            Role::Exec => 4,
            Role::Finance => 5,
        }
    }

    /// `self` grants at least the privileges of `other`.
    pub open spec fn at_least(self, other: Role) -> bool {
        self.rank() >= other.rank()
    }

    /// The rank of this role as an integer.
    pub fn value(self) -> (r: i32)
        ensures
            r == self.rank(),
    {
        match self {
            Role::Unprivileged => 0,
            Role::Volunteer => 1,
            Role::Team => 2,
            Role::Tech => 3,
            Role::Exec => 4,
            Role::Finance => 5,
        }
    }
}

pub open spec fn rank_ordering(a: Role, b: Role) -> std::cmp::Ordering {
    if a.rank() < b.rank() {
        std::cmp::Ordering::Less
    } else if a.rank() == b.rank() {
        std::cmp::Ordering::Equal
    } else {
        std::cmp::Ordering::Greater
    }
}

impl PartialOrd for Role {
    fn partial_cmp(&self, other: &Role) -> (r: Option<std::cmp::Ordering>)
        ensures
            r == Some(rank_ordering(*self, *other)),
    {
        let a = self.value();
        let b = other.value();
        if a < b {
            Some(std::cmp::Ordering::Less)
        } else if a == b {
            Some(std::cmp::Ordering::Equal)
        } else {
            Some(std::cmp::Ordering::Greater)
        }
    }
}

impl vstd::std_specs::cmp::PartialOrdSpecImpl for Role {
    open spec fn obeys_partial_cmp_spec() -> bool {
        true
    }

    open spec fn partial_cmp_spec(&self, other: &Role) -> Option<std::cmp::Ordering> {
        Some(rank_ordering(*self, *other))
    }
}

impl Role {
    /// The name under which a role is stored and exchanged.
    pub open spec fn spec_name(self) -> Seq<char> {
        match self {
            Role::Unprivileged => "None"@,
            Role::Volunteer => "Volunteer"@,
            Role::Team => "Team"@,
            Role::Tech => "Tech"@,
            Role::Exec => "Exec"@,
            Role::Finance => "Finance"@,
        }
    }

    /// The role with the given name, if any.
    pub open spec fn named(name: Seq<char>) -> Option<Role> {
        if name == "None"@ {
            Some(Role::Unprivileged)
        } else if name == "Volunteer"@ {
            Some(Role::Volunteer)
        } else if name == "Team"@ {
            Some(Role::Team)
        } else if name == "Tech"@ {
            Some(Role::Tech)
        } else if name == "Exec"@ {
            Some(Role::Exec)
        } else if name == "Finance"@ {
            Some(Role::Finance)
        } else {
            None
        }
    }

    pub fn name(self) -> (r: &'static str)
        ensures
            r@ == self.spec_name(),
    {
        match self {
            Role::Unprivileged => "None",
            Role::Volunteer => "Volunteer",
            Role::Team => "Team",
            Role::Tech => "Tech",
            Role::Exec => "Exec",
            Role::Finance => "Finance",
        }
    }

    /// Parses a role name; an unknown name gives `None`, which callers treat
    /// as the weakest role or as a decoding error.
    pub fn from_name(name: &str) -> (r: Option<Role>)
        ensures
            r == Role::named(name@),
    {
        if same_text(name, "None") {
            Some(Role::Unprivileged)
        } else if same_text(name, "Volunteer") {
            Some(Role::Volunteer)
        } else if same_text(name, "Team") {
            Some(Role::Team)
        } else if same_text(name, "Tech") {
            Some(Role::Tech)
        } else if same_text(name, "Exec") {
            Some(Role::Exec)
        } else if same_text(name, "Finance") {
            Some(Role::Finance)
        } else {
            None
        }
    }
}

/// Comparing two roles compares their ranks, under the table
/// `None = 0, Volunteer = 1, Team = 2, Tech = 3, Exec = 4, Finance = 5`.
pub proof fn lemma_order_is_rank_order(a: Role, b: Role)
    ensures
        (a.partial_cmp_spec(&b) matches Some(
            std::cmp::Ordering::Greater
            | std::cmp::Ordering::Equal,
        )) <==> a.rank() >= b.rank(),
        (a.partial_cmp_spec(&b) == Some(std::cmp::Ordering::Less)) <==> a.rank() < b.rank(),
        a == b <==> a.rank() == b.rank(),
        Role::Unprivileged.rank() == 0,
        Role::Volunteer.rank() == 1,
        Role::Team.rank() == 2,
        Role::Tech.rank() == 3,
        Role::Exec.rank() == 4,
        Role::Finance.rank() == 5,
{
}

/// Every role's name parses back to that role.
pub proof fn lemma_name_round_trip(r: Role)
    ensures
        Role::named(r.spec_name()) == Some(r),
{
    reveal_strlit("None");
    reveal_strlit("Volunteer");
    reveal_strlit("Team");
    reveal_strlit("Tech");
    reveal_strlit("Exec");
    reveal_strlit("Finance");
    assert("None"@[0] == 'N');
    assert("Volunteer"@[0] == 'V');
    assert("Team"@[0] == 'T' && "Team"@[2] == 'a');
    assert("Tech"@[0] == 'T' && "Tech"@[2] == 'c');
    assert("Exec"@[0] == 'E');
    assert("Finance"@[0] == 'F');
}

} // verus!
