use hive_gateway::user_auth::{device_ownership, LookupAction, LookupEvent, LookupPhase, UserLookup};

fn is_random_uuid(id: u128) -> bool {
    (id >> 76) & 0xf == 4 && (id >> 62) & 0x3 == 2
}

#[test]
fn existing_user_is_returned() {
    let (mut lookup, first) = UserLookup::start("a@b.c".to_string());
    match first {
        LookupAction::FindUser { email } => assert_eq!(email, "a@b.c"),
        _ => panic!("expected the lookup"),
    }
    assert!(matches!(lookup.step(LookupEvent::UserFound(Some(42))), LookupAction::ReturnUser(42)));
    assert_eq!(lookup.phase(), LookupPhase::Resolved);
}

#[test]
fn missing_user_is_created_with_a_random_id() {
    let (mut lookup, _) = UserLookup::start("new@b.c".to_string());
    let id = match lookup.step(LookupEvent::UserFound(None)) {
        LookupAction::InsertUser { id, email } => {
            assert_eq!(email, "new@b.c");
            id
        }
        _ => panic!("expected an insert"),
    };
    assert!(is_random_uuid(id));
    match lookup.step(LookupEvent::Inserted) {
        LookupAction::ReturnUser(returned) => assert_eq!(returned, id),
        _ => panic!("expected the new id"),
    }
}

#[test]
fn new_ids_differ() {
    let (mut a, _) = UserLookup::start("x@y".to_string());
    let (mut b, _) = UserLookup::start("x@y".to_string());
    let ia = match a.step(LookupEvent::UserFound(None)) {
        LookupAction::InsertUser { id, .. } => id,
        _ => panic!(),
    };
    let ib = match b.step(LookupEvent::UserFound(None)) {
        LookupAction::InsertUser { id, .. } => id,
        _ => panic!(),
    };
    assert_ne!(ia, ib);
}

#[test]
fn failed_queries_are_reported() {
    let (mut lookup, _) = UserLookup::start("a@b.c".to_string());
    assert!(matches!(lookup.step(LookupEvent::Failed), LookupAction::ReturnError));
    assert_eq!(lookup.phase(), LookupPhase::Failed);
    assert!(matches!(lookup.step(LookupEvent::Inserted), LookupAction::Ignore));
}

#[test]
fn ownership_needs_a_yes() {
    assert!(device_ownership(Some(true)));
    assert!(!device_ownership(Some(false)));
    assert!(!device_ownership(None));
}

/// Runs a lookup against a users table; gives the id handed back and whether a row was inserted.
fn lookup_in(table: &mut std::collections::HashMap<String, u128>, email: &str) -> (u128, bool) {
    let (mut lookup, mut action) = UserLookup::start(email.to_string());
    let mut inserted = false;
    loop {
        let event = match &action {
            LookupAction::FindUser { email } => LookupEvent::UserFound(table.get(email).copied()),
            LookupAction::InsertUser { id, email } => {
                table.insert(email.clone(), *id);
                inserted = true;
                LookupEvent::Inserted
            }
            LookupAction::ReturnUser(id) => return (*id, inserted),
            _ => panic!("unexpected action"),
        };
        action = lookup.step(event);
    }
}

#[test]
fn repeated_lookup_returns_the_same_user() {
    let mut table = std::collections::HashMap::new();
    let (first, inserted_first) = lookup_in(&mut table, "bee@hive.io");
    assert!(inserted_first);
    let (second, inserted_second) = lookup_in(&mut table, "bee@hive.io");
    assert_eq!(first, second);
    assert!(!inserted_second);
    assert_eq!(table.len(), 1);
}
