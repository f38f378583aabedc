use gomoku::GameError;
use gomoku::PlayerRole;
use gomoku::UserManager;

/// A created user carries a 36-character identifier and session
/// identifier, as a rendered UUID does.
#[test]
fn create_user_yields_uuid_shaped_ids() {
    let mut manager = UserManager::new();
    let user = manager.create_user(String::from("alice"));
    assert_eq!(user.name, "alice");
    assert_eq!(user.id.len(), 36);
    assert_eq!(user.session_id.len(), 36);
    assert_eq!(user.player, None);
}

/// Two created users get distinct identifiers in practice.
#[test]
fn created_users_are_distinct() {
    let mut manager = UserManager::new();
    let a = manager.create_user(String::from("alice"));
    let b = manager.create_user(String::from("bob"));
    assert_ne!(a.id, b.id);
    assert_ne!(a.session_id, b.session_id);
}

#[test]
fn lookup_by_session() {
    let mut manager = UserManager::new();
    let user = manager.create_user(String::from("alice"));
    let found = manager.get_user_by_session(&user.session_id).unwrap();
    assert_eq!(found.id, user.id);
    assert_eq!(found.name, "alice");
    assert!(manager.get_user_by_session("no-such-session").is_none());
}

#[test]
fn assign_and_lookup_by_player() {
    let mut manager = UserManager::new();
    let user = manager.create_user(String::from("alice"));
    assert!(manager.assign_player(&user.id, PlayerRole::Black).is_ok());

    let found = manager.get_user_by_player(&PlayerRole::Black).unwrap();
    assert_eq!(found.id, user.id);
    assert_eq!(found.player, Some(PlayerRole::Black));
    assert!(manager.get_user_by_player(&PlayerRole::White).is_none());

    // The role is taken now.
    let other = manager.create_user(String::from("bob"));
    assert_eq!(
        manager.assign_player(&other.id, PlayerRole::Black),
        Err(GameError::TableFull)
    );
}

#[test]
fn remove_user_clears_session_and_assignment() {
    let mut manager = UserManager::new();
    let user = manager.create_user(String::from("alice"));
    manager.assign_player(&user.id, PlayerRole::Black).unwrap();

    manager.remove_user(&user.id);
    assert!(manager.get_user_by_session(&user.session_id).is_none());
    assert!(manager.get_user_by_player(&PlayerRole::Black).is_none());
    // The role is free again.
    let other = manager.create_user(String::from("bob"));
    assert!(manager.assign_player(&other.id, PlayerRole::Black).is_ok());
}

#[test]
fn remove_unknown_user_changes_nothing() {
    let mut manager = UserManager::new();
    let user = manager.create_user(String::from("alice"));
    manager.remove_user("no-such-user");
    assert!(manager.get_user_by_session(&user.session_id).is_some());
}
