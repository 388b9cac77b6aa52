//! Seed content materialized on a fresh deployment.
use vstd::prelude::*;

use crate::color::UserColor;
use crate::schema::{Forum, Post, Thread, User, UserRole, UserStatus};

verus! {

/// Relies on uuid::Uuid::new_v4 and Uuid::as_u128: a freshly drawn
/// random version-4 identifier, carried as its 128-bit value. Randomness
/// admits no promise about the value.
#[verifier::external_body]
pub fn fresh_id() -> (r: u128) {
    uuid::Uuid::new_v4().as_u128()
}

/// The forums of a fresh deployment: one forum holding one thread with
/// one post, authored by the system user. Identifiers are drawn fresh.
pub fn create_initial_forums() -> (r: Vec<Forum>)
    ensures
        r@.len() == 1,
        r@[0].name@ == "Decompiling Corporate ICE"@,
        r@[0].description@ == "Tips and tricks for getting past the big boys' security."@,
        r@[0].threads@.len() == 1,
        r@[0].threads@[0].title@ == "Militech's 'Aegis' Firewall - Any exploits?"@,
        r@[0].threads@[0].timestamp == 1633072800,
        r@[0].threads@[0].author.username@ == "system"@,
        r@[0].threads@[0].author.color.0@ == "Red"@,
        r@[0].threads@[0].author.profile_pic matches Some(p) && p@ == "system.png"@,
        r@[0].threads@[0].author.cover_banner matches Some(b) && b@ == "system_banner.png"@,
        r@[0].threads@[0].author.role == UserRole::Admin,
        r@[0].threads@[0].author.status == UserStatus::Connected,
        r@[0].threads@[0].posts@.len() == 1,
        r@[0].threads@[0].posts@[0].content@
            == "I've been probing their new Aegis system. It's tough."@,
        r@[0].threads@[0].posts@[0].timestamp == 1633072800,
        r@[0].threads@[0].posts@[0].reply_to is None,
        r@[0].threads@[0].posts@[0].author == r@[0].threads@[0].author,
{
    let system_user = User {
        id: fresh_id(),
        username: "system".to_owned(),
        color: UserColor::new("Red".to_owned()),
        role: UserRole::Admin,
        profile_pic: Some("system.png".to_owned()),
        cover_banner: Some("system_banner.png".to_owned()),
        status: UserStatus::Connected,
    };
    let post = Post {
        id: fresh_id(),
        author: system_user.duplicate(),
        content: "I've been probing their new Aegis system. It's tough.".to_owned(),
        timestamp: 1633072800,
        reply_to: None,
    };
    let mut posts: Vec<Post> = Vec::new();
    posts.push(post);
    let thread = Thread {
        id: fresh_id(),
        title: "Militech's 'Aegis' Firewall - Any exploits?".to_owned(),
        author: system_user,
        posts,
        timestamp: 1633072800,
    };
    let mut threads: Vec<Thread> = Vec::new();
    threads.push(thread);
    let forum = Forum {
        id: fresh_id(),
        name: "Decompiling Corporate ICE".to_owned(),
        description: "Tips and tricks for getting past the big boys' security.".to_owned(),
        threads,
    };
    let mut forums: Vec<Forum> = Vec::new();
    forums.push(forum);
    forums
}

} // verus!
