use api_rust::roles::Role;

const LADDER: [Role; 6] = [
    Role::Unprivileged,
    Role::Volunteer,
    Role::Team,
    Role::Tech,
    Role::Exec,
    Role::Finance,
];

#[test]
fn rank_table_is_pinned() {
    let ranks: Vec<i32> = LADDER.iter().map(|r| r.value()).collect();
    assert_eq!(ranks, vec![0, 1, 2, 3, 4, 5]);
}

#[test]
fn order_follows_rank() {
    for a in LADDER {
        for b in LADDER {
            assert_eq!(a >= b, a.value() >= b.value());
            assert_eq!(a < b, a.value() < b.value());
            assert_eq!(a == b, a.value() == b.value());
        }
    }
    assert!(Role::Exec > Role::Tech);
    assert!(Role::Finance > Role::Exec);
    assert!(Role::Unprivileged < Role::Volunteer);
}

#[test]
fn names_round_trip() {
    for r in LADDER {
        assert_eq!(Role::from_name(r.name()), Some(r));
    }
    assert_eq!(Role::from_name("None"), Some(Role::Unprivileged));
    assert_eq!(Role::from_name("Exec"), Some(Role::Exec));
}

#[test]
fn unknown_names_do_not_parse() {
    assert_eq!(Role::from_name("exec"), None);
    assert_eq!(Role::from_name(""), None);
    assert_eq!(Role::from_name("Admin"), None);
    assert_eq!(Role::from_name("Team "), None);
}
