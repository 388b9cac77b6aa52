//! Wire vocabulary of the synchronization core: entities, the client-request
//! and server-event tagged unions, and the pagination cursor forms.
//!
//! Identifiers are opaque 128-bit values carried as `u128`; timestamps are
//! `i64` seconds. Entities cross-reference one another by identifier only.
use vstd::prelude::*;
use crate::color::UserColor;

verus! {

/// Opaque 128-bit entity identifier.
pub type Id = u128;

/// Role of a user; the total order is User < Moderator < Admin.
#[derive(Clone, Copy, Debug, PartialEq, Eq, Structural)]
pub enum UserRole {
    User,
    Moderator,
    Admin,
}

impl UserRole {
    /// Numeric rank realising the total order on roles.
    pub open spec fn rank(self) -> int {
        match self {
            UserRole::User => 0,
            UserRole::Moderator => 1,
            UserRole::Admin => 2,
        }
    }

    /// True when `self` has at least the privileges of `other`.
    pub fn at_least(self, other: UserRole) -> (r: bool)
        ensures
            r == (self.rank() >= other.rank()),
    {
        let a: u8 = match self {
            UserRole::User => 0,
            UserRole::Moderator => 1,
            UserRole::Admin => 2,
        };
        let b: u8 = match other {
            UserRole::User => 0,
            UserRole::Moderator => 1,
            UserRole::Admin => 2,
        };
        a >= b
    }
}

/// Live connection status of a user.
#[derive(Clone, Copy, Debug, PartialEq, Eq, Structural)]
pub enum UserStatus {
    Connected,
    Away,
    Busy,
    Offline,
}

/// A user record: identity, display color, role, optional image references
/// and live status.
#[derive(Clone, Debug)]
pub struct User {
    pub id: Id,
    pub username: String,
    pub color: UserColor,
    pub role: UserRole,
    pub profile_pic: Option<String>,
    pub cover_banner: Option<String>,
    pub status: UserStatus,
}

/// Complete user profile including the credential hash and bio fields.
/// The hash is server-internal and must never appear in a broadcast event.
#[derive(Clone, Debug)]
pub struct UserProfile {
    pub id: Id,
    pub username: String,
    pub hash: String,
    pub color: UserColor,
    pub role: UserRole,
    pub bio: Option<String>,
    pub url1: Option<String>,
    pub url2: Option<String>,
    pub url3: Option<String>,
    pub location: Option<String>,
    pub profile_pic: Option<String>,
    pub cover_banner: Option<String>,
}

/// Read-projection of [`User`] without the image references, for lists and
/// mentions. Always derived from a `User` by [`User::to_info`]; never stored
/// independently.
#[derive(Clone, Debug)]
pub struct UserInfo {
    pub id: Id,
    pub username: String,
    pub color: UserColor,
    pub role: UserRole,
    pub status: UserStatus,
}

/// The pure projection that defines [`UserInfo`]: every shared field
/// unchanged, the image references dropped.
pub open spec fn spec_user_info(u: User) -> UserInfo {
    UserInfo { id: u.id, username: u.username, color: u.color, role: u.role, status: u.status }
}

impl User {
    /// Projects this user to its [`UserInfo`] read-form.
    pub fn to_info(&self) -> (r: UserInfo)
        ensures
            r == spec_user_info(*self),
    {
        UserInfo {
            id: self.id,
            username: self.username.clone(),
            color: self.color.duplicate(),
            role: self.role,
            status: self.status,
        }
    }

    /// An exact copy; unlike a derived clone, its contract says so.
    pub fn duplicate(&self) -> (r: User)
        ensures
            r == *self,
    {
        User {
            id: self.id,
            username: self.username.clone(),
            color: self.color.duplicate(),
            role: self.role,
            profile_pic: clone_opt_string(&self.profile_pic),
            cover_banner: clone_opt_string(&self.cover_banner),
            status: self.status,
        }
    }
}

/// An exact copy of an optional string, with a contract saying so.
pub fn clone_opt_string(s: &Option<String>) -> (r: Option<String>)
    ensures
        r == *s,
{
    match s {
        Some(v) => Some(v.clone()),
        None => None,
    }
}

impl From<User> for UserInfo {
    /// The same projection, through the std conversion trait.
    fn from(u: User) -> (r: UserInfo) {
        u.to_info()
    }
}

impl vstd::std_specs::convert::FromSpecImpl<User> for UserInfo {
    open spec fn obeys_from_spec() -> bool {
        true
    }

    open spec fn from_spec(u: User) -> UserInfo {
        spec_user_info(u)
    }
}

/// The lightweight projection of a post: author reduced to its info.
pub open spec fn spec_post_light(p: Post) -> PostLightweight {
    PostLightweight {
        id: p.id,
        author: spec_user_info(p.author),
        content: p.content,
        timestamp: p.timestamp,
        reply_to: p.reply_to,
    }
}

/// The lightweight projection of a thread: author reduced, every post
/// projected, everything else unchanged.
pub open spec fn is_thread_light(t: Thread, l: ThreadLightweight) -> bool {
    &&& l.id == t.id
    &&& l.title == t.title
    &&& l.author == spec_user_info(t.author)
    &&& l.timestamp == t.timestamp
    &&& l.posts@ == t.posts@.map_values(|p: Post| spec_post_light(p))
}

/// The lightweight projection of a forum: every thread projected,
/// everything else unchanged.
pub open spec fn is_forum_light(f: Forum, l: ForumLightweight) -> bool {
    &&& l.id == f.id
    &&& l.name == f.name
    &&& l.description == f.description
    &&& l.threads@.len() == f.threads@.len()
    &&& forall|i: int|
        0 <= i < f.threads@.len() ==> is_thread_light(f.threads@[i], #[trigger] l.threads@[i])
}

impl Post {
    /// Projects this post to its lightweight form.
    pub fn to_lightweight(&self) -> (r: PostLightweight)
        ensures
            r == spec_post_light(*self),
    {
        PostLightweight {
            id: self.id,
            author: self.author.to_info(),
            content: self.content.clone(),
            timestamp: self.timestamp,
            reply_to: self.reply_to,
        }
    }
}

impl Thread {
    /// Projects this thread to its lightweight form.
    pub fn to_lightweight(&self) -> (r: ThreadLightweight)
        ensures
            is_thread_light(*self, r),
    {
        let n = self.posts.len();
        let mut posts: Vec<PostLightweight> = Vec::new();
        let mut i: usize = 0;
        while i < n
            invariant
                i <= n,
                n == self.posts@.len(),
                posts@.len() == i,
                forall|j: int| 0 <= j < i ==> posts@[j] == spec_post_light(self.posts@[j]),
            decreases n - i,
        {
            posts.push(self.posts[i].to_lightweight());
            i = i + 1;
        }
        proof {
            assert(posts@ =~= self.posts@.map_values(|p: Post| spec_post_light(p)));
        }
        ThreadLightweight {
            id: self.id,
            title: self.title.clone(),
            author: self.author.to_info(),
            posts,
            timestamp: self.timestamp,
        }
    }
}

impl Forum {
    /// Projects this forum to its lightweight form, for bulk initial
    /// load without image payloads.
    pub fn to_lightweight(&self) -> (r: ForumLightweight)
        ensures
            is_forum_light(*self, r),
    {
        let n = self.threads.len();
        let mut threads: Vec<ThreadLightweight> = Vec::new();
        let mut i: usize = 0;
        while i < n
            invariant
                i <= n,
                n == self.threads@.len(),
                threads@.len() == i,
                forall|j: int|
                    0 <= j < i ==> is_thread_light(self.threads@[j], #[trigger] threads@[j]),
            decreases n - i,
        {
            threads.push(self.threads[i].to_lightweight());
            i = i + 1;
        }
        ForumLightweight {
            id: self.id,
            name: self.name.clone(),
            description: self.description.clone(),
            threads,
        }
    }
}

/// Whether an id list contains `x`.
pub fn contains_id(v: &Vec<Id>, x: Id) -> (r: bool)
    ensures
        r == v@.contains(x),
{
    let n = v.len();
    let mut i: usize = 0;
    while i < n
        invariant
            i <= n,
            n == v@.len(),
            forall|j: int| 0 <= j < i ==> v@[j] != x,
        decreases n - i,
    {
        if v[i] == x {
            return true;
        }
        i = i + 1;
    }
    false
}

/// A top-level discussion forum holding threads.
#[derive(Clone, Debug)]
pub struct Forum {
    pub id: Id,
    pub name: String,
    pub description: String,
    pub threads: Vec<Thread>,
}

/// Forum projection carrying lightweight threads, for bulk initial load.
#[derive(Clone, Debug)]
pub struct ForumLightweight {
    pub id: Id,
    pub name: String,
    pub description: String,
    pub threads: Vec<ThreadLightweight>,
}

/// A thread of posts inside a forum.
#[derive(Clone, Debug)]
pub struct Thread {
    pub id: Id,
    pub title: String,
    pub author: User,
    pub posts: Vec<Post>,
    pub timestamp: i64,
}

/// Thread projection substituting [`UserInfo`] for [`User`].
#[derive(Clone, Debug)]
pub struct ThreadLightweight {
    pub id: Id,
    pub title: String,
    pub author: UserInfo,
    pub posts: Vec<PostLightweight>,
    pub timestamp: i64,
}

/// A post inside a thread; `reply_to` may reference a sibling post of the
/// same thread, forming a reply DAG.
#[derive(Clone, Debug)]
pub struct Post {
    pub id: Id,
    pub author: User,
    pub content: String,
    pub timestamp: i64,
    pub reply_to: Option<Id>,
}

/// Post projection substituting [`UserInfo`] for [`User`].
#[derive(Clone, Debug)]
pub struct PostLightweight {
    pub id: Id,
    pub author: UserInfo,
    pub content: String,
    pub timestamp: i64,
    pub reply_to: Option<Id>,
}

/// A rendered chat line: author name, content and display color.
#[derive(Clone, Debug)]
pub struct ChatMessage {
    pub author: String,
    pub content: String,
    pub color: UserColor,
}

/// A server owning channels, with an owner, moderators and a member list.
#[derive(Clone, Debug)]
pub struct Server {
    pub id: Id,
    pub name: String,
    pub description: String,
    pub public: bool,
    pub invite_code: Option<String>,
    pub icon: Option<String>,
    pub banner: Option<String>,
    pub owner: Id,
    pub mods: Vec<Id>,
    pub userlist: Vec<Id>,
    pub channels: Vec<Channel>,
}

/// A channel of a server, with its own permission lists and member list,
/// both subsets of the server's member list.
#[derive(Clone, Debug)]
pub struct Channel {
    pub id: Id,
    pub server_id: Id,
    pub name: String,
    pub description: String,
    pub permissions: ChannelPermissions,
    pub userlist: Vec<Id>,
    pub messages: Vec<ChannelMessage>,
}

/// Per-channel read and write permission lists, by user id.
#[derive(Clone, Debug)]
pub struct ChannelPermissions {
    pub can_read: Vec<Id>,
    pub can_write: Vec<Id>,
}

/// A message in a channel, immutable once created.
#[derive(Clone, Debug)]
pub struct ChannelMessage {
    pub id: Id,
    pub channel_id: Id,
    pub sent_by: Id,
    pub timestamp: i64,
    pub content: String,
}

/// A direct message between two users, immutable once created.
#[derive(Clone, Debug)]
pub struct DirectMessage {
    pub id: Id,
    pub from: Id,
    pub to: Id,
    pub timestamp: i64,
    pub content: String,
}

/// Kind of a user-facing notification.
#[derive(Clone, Debug)]
pub enum NotificationType {
    ThreadReply,
    DM,
    Announcement,
    Mention,
    Other(String),
}

impl NotificationType {
    /// An exact copy; unlike a derived clone, its contract says so.
    pub fn duplicate(&self) -> (r: Self)
        ensures
            r == *self,
    {
        match self {
            NotificationType::ThreadReply => NotificationType::ThreadReply,
            NotificationType::DM => NotificationType::DM,
            NotificationType::Announcement => NotificationType::Announcement,
            NotificationType::Mention => NotificationType::Mention,
            NotificationType::Other(tag) => NotificationType::Other(tag.clone()),
        }
    }
}

/// A user-facing notification; mutated only to flip `read`.
#[derive(Clone, Debug)]
pub struct Notification {
    pub id: Id,
    pub user_id: Id,
    pub notif_type: NotificationType,
    pub related_id: Id,
    pub created_at: i64,
    pub read: bool,
    pub extra: Option<String>,
}

/// Lifecycle state of a server invite; every state but `Pending` is terminal.
#[derive(Clone, Copy, Debug, PartialEq, Eq, Structural)]
pub enum ServerInviteStatus {
    Pending,
    Accepted,
    Declined,
    Expired,
}

/// A cross-server invitation from `from_user` to the user `to_user_id`,
/// carrying a snapshot of the target server.
#[derive(Clone, Debug)]
pub struct ServerInvite {
    pub id: Id,
    pub from_user: User,
    pub to_user_id: Id,
    pub server: Server,
    pub timestamp: i64,
    pub status: ServerInviteStatus,
}

/// Position marker inside an ordered history collection. The server is the
/// sole authority on how a cursor maps to a position.
#[derive(Clone, Copy, Debug, PartialEq, Eq, Structural)]
pub enum PaginationCursor {
    /// Position by timestamp: the page boundary lies where timestamps reach
    /// the given value.
    Timestamp(i64),
    /// Position by index from the oldest end of the collection.
    Offset(usize),
    /// The newest end for Backward scans, the oldest end for Forward scans.
    Start,
}

/// Scan direction of a pagination request.
#[derive(Clone, Copy, Debug, PartialEq, Eq, Structural)]
pub enum PaginationDirection {
    Forward,
    Backward,
}

/// Aggregate counters describing a derived-asset cache. Sizes are in
/// kilobytes; the hit ratio is given in thousandths and lies in [0, 1000].
#[derive(Clone, Copy, Debug)]
pub struct CacheStats {
    pub total_entries: usize,
    pub total_size_kb: u64,
    pub hit_ratio_permille: u32,
    pub expired_entries: usize,
}

impl CacheStats {
    /// A well-formed ratio never exceeds one, i.e. a thousand thousandths.
    pub open spec fn wf(self) -> bool {
        self.hit_ratio_permille <= 1000
    }
}

/// Client-to-server requests: one closed tagged union, kept additive so that
/// legacy pagination variants coexist with the cursor-based ones.
#[derive(Clone, Debug)]
pub enum ClientMessage {
    Register { username: String, password: String },
    Login { username: String, password: String },
    Logout,
    UpdatePassword(String),
    UpdateColor(UserColor),
    UpdateProfile {
        bio: Option<String>,
        url1: Option<String>,
        url2: Option<String>,
        url3: Option<String>,
        location: Option<String>,
        profile_pic: Option<String>,
        cover_banner: Option<String>,
    },
    GetForums,
    CreateForum { name: String, description: String },
    DeleteForum { forum_id: Id },
    CreateThread { forum_id: Id, title: String, content: String },
    CreatePost { thread_id: Id, content: String },
    CreatePostReply { thread_id: Id, content: String, reply_to: Id },
    SendDirectMessage { to: Id, content: String },
    SendChannelMessage { channel_id: Id, content: String },
    SendServerInvite { to_user_id: Id, server_id: Id },
    RespondToServerInvite { invite_id: Id, accept: bool },
    AcceptServerInviteFromUser { from_user_id: Id },
    DeclineServerInviteFromUser { from_user_id: Id },
    DeletePost(Id),
    DeleteThread(Id),
    GetUserList,
    GetProfile { user_id: Id },
    GetServers,
    GetChannelMessagesPaginated {
        channel_id: Id,
        cursor: PaginationCursor,
        limit: Option<usize>,
        direction: PaginationDirection,
    },
    GetDirectMessagesPaginated {
        user_id: Id,
        cursor: PaginationCursor,
        limit: Option<usize>,
        direction: PaginationDirection,
    },
    GetChannelMessages { channel_id: Id, before: Option<i64> },
    GetChannelUserList { channel_id: Id },
    GetDMUserList,
    GetDirectMessages { user_id: Id, before: Option<i64> },
    GetNotifications { before: Option<i64> },
    MarkNotificationRead { notification_id: Id },
    InvalidateImageCache { keys: Vec<String> },
    GetCacheStats,
    GetUserAvatars { user_ids: Vec<Id> },
}

/// Server-to-client events: the second closed tagged union.
#[derive(Clone, Debug)]
pub enum ServerMessage {
    AuthSuccess(User),
    AuthFailure(String),
    Forums(Vec<Forum>),
    ForumsLightweight(Vec<ForumLightweight>),
    NewChatMessage(ChatMessage),
    DirectMessage(DirectMessage),
    MentionNotification { from: User, content: String },
    ForumReplyNotification {
        thread_id: Id,
        from_username: String,
        message: String,
        from_user_profile_pic: Option<String>,
    },
    Notification(String, bool),
    ServerInviteReceived(ServerInvite),
    ServerInviteResponse { invite_id: Id, accepted: bool, user: User },
    UserList(Vec<User>),
    UserJoined(User),
    UserLeft(Id),
    Profile(UserProfile),
    UserUpdated(User),
    Servers(Vec<Server>),
    NewChannelMessage(ChannelMessage),
    ChannelMessagesPaginated {
        channel_id: Id,
        messages: Vec<ChannelMessage>,
        has_more: bool,
        next_cursor: Option<PaginationCursor>,
        prev_cursor: Option<PaginationCursor>,
        total_count: Option<usize>,
    },
    DirectMessagesPaginated {
        user_id: Id,
        messages: Vec<DirectMessage>,
        has_more: bool,
        next_cursor: Option<PaginationCursor>,
        prev_cursor: Option<PaginationCursor>,
        total_count: Option<usize>,
    },
    ChannelMessages { channel_id: Id, messages: Vec<ChannelMessage>, history_complete: bool },
    ChannelUserList { channel_id: Id, users: Vec<User> },
    DMUserList(Vec<User>),
    DirectMessages { user_id: Id, messages: Vec<DirectMessage>, history_complete: bool },
    Notifications { notifications: Vec<Notification>, history_complete: bool },
    CacheStats(CacheStats),
    ImageCacheInvalidated { keys: Vec<String> },
    UserAvatars { avatars: Vec<(Id, Option<String>)> },
    PerformanceMetrics {
        query_time_ms: u64,
        cache_hit_rate_permille: u32,
        message_count: usize,
    },
}

} // verus!
