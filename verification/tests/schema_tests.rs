use nexus_common::schema::{Post, Thread, User, UserRole, UserStatus};
use nexus_common::{create_initial_forums, UserColor};

fn author() -> User {
    User {
        id: 11,
        username: "case".to_string(),
        color: UserColor::new("#00FF00".to_string()),
        role: UserRole::Moderator,
        profile_pic: Some("pic.png".to_string()),
        cover_banner: None,
        status: UserStatus::Away,
    }
}

#[test]
fn user_info_is_the_pure_projection_of_user() {
    let u = author();
    let info = u.to_info();
    assert_eq!(info.id, u.id);
    assert_eq!(info.username, u.username);
    assert_eq!(info.color.as_str(), u.color.as_str());
    assert_eq!(info.role, u.role);
    assert_eq!(info.status, u.status);
}

#[test]
fn lightweight_forms_drop_only_the_images() {
    let p = Post {
        id: 21,
        author: author(),
        content: "hello".to_string(),
        timestamp: 500,
        reply_to: Some(20),
    };
    let t = Thread {
        id: 31,
        title: "topic".to_string(),
        author: author(),
        posts: vec![p],
        timestamp: 499,
    };
    let light = t.to_lightweight();
    assert_eq!(light.id, 31);
    assert_eq!(light.title, "topic");
    assert_eq!(light.timestamp, 499);
    assert_eq!(light.author.id, 11);
    assert_eq!(light.posts.len(), 1);
    assert_eq!(light.posts[0].id, 21);
    assert_eq!(light.posts[0].content, "hello");
    assert_eq!(light.posts[0].reply_to, Some(20));
    assert_eq!(light.posts[0].author.username, "case");
}

#[test]
fn roles_order_from_user_to_admin() {
    assert!(UserRole::Admin.at_least(UserRole::Moderator));
    assert!(UserRole::Moderator.at_least(UserRole::User));
    assert!(UserRole::User.at_least(UserRole::User));
    assert!(!UserRole::User.at_least(UserRole::Moderator));
    assert!(!UserRole::Moderator.at_least(UserRole::Admin));
}

#[test]
fn initial_forums_hold_the_seed_thread() {
    let forums = create_initial_forums();
    assert_eq!(forums.len(), 1);
    let forum = &forums[0];
    assert_eq!(forum.name, "Decompiling Corporate ICE");
    assert_eq!(forum.threads.len(), 1);
    let thread = &forum.threads[0];
    assert_eq!(thread.title, "Militech's 'Aegis' Firewall - Any exploits?");
    assert_eq!(thread.timestamp, 1633072800);
    assert_eq!(thread.author.username, "system");
    assert_eq!(thread.author.role, UserRole::Admin);
    assert_eq!(thread.posts.len(), 1);
    assert_eq!(thread.posts[0].content, "I've been probing their new Aegis system. It's tough.");
    assert_eq!(thread.posts[0].author.id, thread.author.id);
}

#[test]
fn fresh_identifiers_differ_between_runs() {
    let a = create_initial_forums();
    let b = create_initial_forums();
    assert_ne!(a[0].id, b[0].id);
}
