use nexus_common::cache::{make_cache_stats, ImageCacheIndex};
use nexus_common::presence::{
    set_status, update_user_color, ConnectionRegistry, OutboundQueue, PresenceError, ProfileError,
};
use nexus_common::schema::{User, UserRole, UserStatus};
use nexus_common::UserColor;

fn make_user(id: u128, name: &str) -> User {
    User {
        id,
        username: name.to_string(),
        color: UserColor::new("Cyan".to_string()),
        role: UserRole::User,
        profile_pic: None,
        cover_banner: None,
        status: UserStatus::Connected,
    }
}

#[test]
fn registry_rejects_duplicate_connections() {
    let mut reg = ConnectionRegistry::new();
    assert!(reg.register(100, 1).is_ok());
    assert_eq!(reg.register(100, 2).unwrap_err(), PresenceError::DuplicateConnection);
    assert!(reg.register(101, 2).is_ok());
    assert_eq!(reg.entries.len(), 2);
}

#[test]
fn unregister_removes_exactly_the_connection() {
    let mut reg = ConnectionRegistry::new();
    reg.register(100, 1).unwrap();
    reg.register(101, 2).unwrap();
    assert!(reg.unregister(100).is_ok());
    assert_eq!(reg.entries.len(), 1);
    assert_eq!(reg.entries[0].conn_id, 101);
    assert_eq!(reg.unregister(100).unwrap_err(), PresenceError::NotFound);
}

#[test]
fn broadcasts_reach_the_connections_of_the_members() {
    let mut reg = ConnectionRegistry::new();
    reg.register(100, 1).unwrap();
    reg.register(101, 2).unwrap();
    reg.register(102, 3).unwrap();
    reg.register(103, 1).unwrap();
    let members = vec![1u128, 3];
    let conns = reg.broadcast_recipients(&members);
    assert_eq!(conns, vec![100, 102, 103]);
}

#[test]
fn a_full_queue_drops_events_and_keeps_order() {
    let mut q: OutboundQueue<&str> = OutboundQueue::new(2);
    assert!(q.enqueue("first"));
    assert!(q.enqueue("second"));
    assert!(!q.enqueue("third"));
    assert_eq!(q.events.len(), 2);
    assert_eq!(q.dequeue(), Some("first"));
    assert_eq!(q.dequeue(), Some("second"));
    assert_eq!(q.dequeue(), None);
}

#[test]
fn setting_status_touches_only_the_named_user() {
    let mut users = vec![make_user(1, "a"), make_user(2, "b")];
    assert!(set_status(&mut users, 2, UserStatus::Offline));
    assert_eq!(users[0].status, UserStatus::Connected);
    assert_eq!(users[1].status, UserStatus::Offline);
    assert_eq!(users[1].username, "b");
    assert!(!set_status(&mut users, 9, UserStatus::Away));
}

#[test]
fn disconnect_drops_the_connection_and_sets_offline() {
    let mut reg = ConnectionRegistry::new();
    let mut users = vec![make_user(1, "a"), make_user(2, "b")];
    reg.register(100, 1).unwrap();
    reg.register(101, 2).unwrap();
    let user_id = reg.disconnect(101, &mut users).unwrap();
    assert_eq!(user_id, 2);
    assert_eq!(reg.entries.len(), 1);
    assert_eq!(users[1].status, UserStatus::Offline);
    assert_eq!(users[0].status, UserStatus::Connected);
    assert_eq!(reg.disconnect(101, &mut users).unwrap_err(), PresenceError::NotFound);
}

#[test]
fn color_changes_follow_the_mutation_policy() {
    let mut users = vec![make_user(1, "a"), make_user(2, "b")];
    users[0].role = nexus_common::schema::UserRole::Admin;

    // The owner may change their own color.
    assert!(update_user_color(&mut users, 2, 2, UserColor::new("Red".to_string())).is_ok());
    assert_eq!(users[1].color.as_str(), "Red");

    // An Admin may change anyone's color.
    assert!(update_user_color(&mut users, 1, 2, UserColor::new("Blue".to_string())).is_ok());
    assert_eq!(users[1].color.as_str(), "Blue");

    // Anyone else may not, and nothing changes.
    assert_eq!(
        update_user_color(&mut users, 2, 1, UserColor::new("Black".to_string())).unwrap_err(),
        ProfileError::Forbidden
    );
    assert_eq!(users[0].color.as_str(), "Cyan");

    assert_eq!(
        update_user_color(&mut users, 9, 1, UserColor::new("Black".to_string())).unwrap_err(),
        ProfileError::UnknownActor
    );
    assert_eq!(
        update_user_color(&mut users, 1, 9, UserColor::new("Black".to_string())).unwrap_err(),
        ProfileError::UnknownTarget
    );
}

#[test]
fn invalidation_acknowledges_only_recognized_keys() {
    let mut cache = ImageCacheIndex::new();
    cache.keys.push("avatar:1".to_string());
    cache.keys.push("avatar:2".to_string());
    let request = vec!["avatar:2".to_string(), "banner:9".to_string()];
    let acked = cache.invalidate_image_cache(&request);
    assert_eq!(acked, vec!["avatar:2"]);
    assert_eq!(cache.keys, vec!["avatar:1"]);
}

#[test]
fn repeating_an_invalidation_is_idempotent() {
    let mut cache = ImageCacheIndex::new();
    cache.keys.push("avatar:1".to_string());
    cache.keys.push("avatar:2".to_string());
    let request = vec!["avatar:1".to_string(), "avatar:2".to_string()];
    let first = cache.invalidate_image_cache(&request);
    assert_eq!(first.len(), 2);
    let second = cache.invalidate_image_cache(&request);
    assert!(second.is_empty());
    assert!(cache.keys.is_empty());
}

#[test]
fn cache_stats_keep_the_ratio_inside_bounds() {
    let s = make_cache_stats(42, 1536, 940, 3);
    assert_eq!(s.total_entries, 42);
    assert_eq!(s.total_size_kb, 1536);
    assert_eq!(s.hit_ratio_permille, 940);
    assert_eq!(s.expired_entries, 3);
    let clamped = make_cache_stats(1, 1, 5000, 0);
    assert_eq!(clamped.hit_ratio_permille, 1000);
}
