use vstd::prelude::*;
use crate::identity::RequestIdentity;
use crate::provider::FirebaseUserResponse;
use crate::roles::Role;

verus! {

/// Escape hatch `i` applies to the identity: its role is the identity's role
/// and its predicate holds of the identity.
pub open spec fn hatch_fires<F: Fn(&RequestIdentity) -> bool>(
    hatches: Seq<(Role, F)>,
    i: int,
    identity: &RequestIdentity,
) -> bool {
    &&& hatches[i].0 == identity.effective_role()
    &&& hatches[i].1.ensures((identity,), true)
}

/// The policy admits the identity.
pub open spec fn admits<F: Fn(&RequestIdentity) -> bool>(
    identity: &RequestIdentity,
    minimum: Role,
    hatches: Seq<(Role, F)>,
) -> bool {
    ||| identity.effective_role().at_least(minimum)
    ||| exists|i: int| 0 <= i < hatches.len() && #[trigger] hatch_fires(hatches, i, identity)
}

/// Each predicate accepts the identity and answers with a single value for it.
pub open spec fn predicates_are_functions<F: Fn(&RequestIdentity) -> bool>(
    hatches: Seq<(Role, F)>,
    identity: &RequestIdentity,
) -> bool {
    forall|i: int| 0 <= i < hatches.len() ==> {
        &&& #[trigger] hatches[i].1.requires((identity,))
        &&& forall|a: bool, b: bool|
            hatches[i].1.ensures((identity,), a) && hatches[i].1.ensures((identity,), b) ==> a == b
    }
}

/// Decides whether `user` may proceed under a policy: admitted at once when
/// its role is at least `unrestricted_role`, without running any predicate;
/// otherwise by the first escape hatch, in the order given, whose role equals
/// the user's role and whose predicate holds; refused when none does.
pub fn permission_check<F: Fn(&RequestIdentity) -> bool>(
    user: RequestIdentity,
    unrestricted_role: Role,
    additional_check: Vec<(Role, F)>,
) -> (r: bool)
    requires
        predicates_are_functions(additional_check@, &user),
    ensures
        r == admits(&user, unrestricted_role, additional_check@),
{
    let role = user.role();
    if role >= unrestricted_role {
        return true;
    }
    let mut i: usize = 0;
    while i < additional_check.len()
        invariant
            0 <= i <= additional_check.len(),
            predicates_are_functions(additional_check@, &user),
            role == user.effective_role(),
            forall|j: int| 0 <= j < i ==> !#[trigger] hatch_fires(additional_check@, j, &user),
        decreases additional_check.len() - i,
    {
        let hatch = &additional_check[i];
        if hatch.0 == role {
            let passed = (hatch.1)(&user);
            if passed {
                assert(hatch_fires(additional_check@, i as int, &user));
                return true;
            }
            assert(additional_check@[i as int].1.requires((&user,)));
        }
        i = i + 1;
    }
    false
}

/// For a fixed policy, raising an identity's role never turns an admitted
/// identity away, unless what admitted it was an escape hatch whose role lies
/// below the threshold (such a hatch names one role only).
pub proof fn lemma_raising_role_keeps_access<F: Fn(&RequestIdentity) -> bool>(
    low: &RequestIdentity,
    high: &RequestIdentity,
    minimum: Role,
    hatches: Seq<(Role, F)>,
)
    requires
        admits(low, minimum, hatches),
        high.effective_role().at_least(low.effective_role()),
        forall|i: int|
            0 <= i < hatches.len() && #[trigger] hatch_fires(hatches, i, low) ==> hatches[i].0.at_least(
                minimum,
            ),
    ensures
        admits(high, minimum, hatches),
{
    if !low.effective_role().at_least(minimum) {
        let i = choose|i: int| 0 <= i < hatches.len() && #[trigger] hatch_fires(hatches, i, low);
        assert(hatches[i].0.at_least(minimum));
    }
}

/// Applies `restrictions` to a blank provider identity and reports its verdict.
/// The token and the roles are not consulted.
pub fn auth_user_from_header_with_restrictions<F: Fn(FirebaseUserResponse) -> bool>(
    id_token: String,
    roles: Vec<Role>,
    restrictions: F,
) -> (r: bool)
    requires
        forall|u: FirebaseUserResponse| u.is_blank() ==> #[trigger] restrictions.requires((u,)),
    ensures
        exists|u: FirebaseUserResponse| u.is_blank() && #[trigger] restrictions.ensures((u,), r),
{
    let user = FirebaseUserResponse::blank();
    if !restrictions(user) {
        return false;
    }
    true
}

} // verus!
