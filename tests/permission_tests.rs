use api_rust::identity::{OrganizerEntity, RequestIdentity, UserEntity};
use api_rust::permission::{auth_user_from_header_with_restrictions, permission_check};
use api_rust::pipeline::{resolve_identity, Lookup};
use api_rust::roles::Role;
use std::cell::Cell;

type Hatch = (Role, Box<dyn Fn(&RequestIdentity) -> bool>);

fn user(id: &str) -> UserEntity {
    UserEntity {
        id: id.to_string(),
        first_name: "Ada".to_string(),
        last_name: "Lovelace".to_string(),
        email: "ada@example.com".to_string(),
        gcp_id: format!("gcp-{id}"),
    }
}

fn organizer(id: &str, privilege: Role) -> OrganizerEntity {
    OrganizerEntity {
        id: id.to_string(),
        first_name: "Grace".to_string(),
        last_name: "Hopper".to_string(),
        email: "grace@example.com".to_string(),
        privilege,
        gcp_id: format!("gcp-{id}"),
    }
}

fn staff(privilege: Role) -> RequestIdentity {
    RequestIdentity { organizer: Some(organizer("7", privilege)), user: None }
}

fn participant(id: &str) -> RequestIdentity {
    RequestIdentity { organizer: None, user: Some(user(id)) }
}

fn no_hatches() -> Vec<Hatch> {
    Vec::new()
}

#[test]
fn threshold_met_skips_escape_hatches() {
    let fired = std::rc::Rc::new(Cell::new(0u32));
    let seen = fired.clone();
    let hatches: Vec<Hatch> = vec![(
        Role::Exec,
        Box::new(move |_id: &RequestIdentity| {
            seen.set(seen.get() + 1);
            true
        }),
    )];
    assert!(permission_check(staff(Role::Exec), Role::Team, hatches));
    assert_eq!(fired.get(), 0);
}

#[test]
fn escape_hatch_admits_matching_id_only() {
    let same_user = |id: &RequestIdentity| id.user.as_ref().map_or(false, |u| u.id == "42");
    let hatches: Vec<Hatch> = vec![(Role::Unprivileged, Box::new(same_user))];
    assert!(permission_check(participant("42"), Role::Team, hatches));
    let hatches: Vec<Hatch> = vec![(Role::Unprivileged, Box::new(same_user))];
    assert!(!permission_check(participant("43"), Role::Team, hatches));
}

#[test]
fn escape_hatch_needs_equal_role() {
    let always = |_id: &RequestIdentity| true;
    let hatches: Vec<Hatch> = vec![(Role::Unprivileged, Box::new(always))];
    assert!(!permission_check(staff(Role::Volunteer), Role::Team, hatches));
    let hatches: Vec<Hatch> = vec![(Role::Volunteer, Box::new(always))];
    assert!(permission_check(staff(Role::Volunteer), Role::Team, hatches));
}

#[test]
fn first_matching_hatch_wins_and_later_ones_do_not_run() {
    let later = std::rc::Rc::new(Cell::new(0u32));
    let seen = later.clone();
    let hatches: Vec<Hatch> = vec![
        (Role::Unprivileged, Box::new(|_id: &RequestIdentity| false)),
        (Role::Unprivileged, Box::new(|_id: &RequestIdentity| true)),
        (
            Role::Unprivileged,
            Box::new(move |_id: &RequestIdentity| {
                seen.set(seen.get() + 1);
                true
            }),
        ),
    ];
    assert!(permission_check(participant("1"), Role::Exec, hatches));
    assert_eq!(later.get(), 0);
}

#[test]
fn no_match_fails_closed() {
    let hatches: Vec<Hatch> = vec![(Role::Team, Box::new(|_id: &RequestIdentity| false))];
    assert!(!permission_check(staff(Role::Team), Role::Exec, hatches));
    assert!(!permission_check(participant("5"), Role::Volunteer, no_hatches()));
    assert!(permission_check(participant("5"), Role::Unprivileged, no_hatches()));
}

#[test]
fn raising_role_keeps_threshold_access() {
    let ladder = [
        Role::Unprivileged,
        Role::Volunteer,
        Role::Team,
        Role::Tech,
        Role::Exec,
        Role::Finance,
    ];
    for minimum in ladder {
        for (i, low) in ladder.iter().enumerate() {
            for high in &ladder[i..] {
                if permission_check(staff(*low), minimum, no_hatches()) {
                    assert!(permission_check(staff(*high), minimum, no_hatches()));
                }
            }
        }
    }
}

#[test]
fn dual_identity_is_judged_by_organizer_role() {
    let identity = resolve_identity(
        Lookup::Found(organizer("9", Role::Tech)),
        Lookup::Found(user("9")),
    )
    .unwrap();
    assert!(identity.organizer.is_some());
    assert!(identity.user.is_some());
    assert_eq!(identity.role(), Role::Tech);
    assert!(permission_check(identity, Role::Team, no_hatches()));
    assert!(!permission_check(participant("9"), Role::Team, no_hatches()));
}

#[test]
fn restrictions_see_a_blank_provider_identity() {
    let blank = |u: api_rust::provider::FirebaseUserResponse| {
        u.local_id.is_empty() && u.email.is_empty() && !u.disabled
    };
    assert!(auth_user_from_header_with_restrictions(
        "token".to_string(),
        vec![Role::Exec],
        blank
    ));
    assert!(!auth_user_from_header_with_restrictions(
        "token".to_string(),
        vec![],
        |u: api_rust::provider::FirebaseUserResponse| u.email_verified
    ));
}
