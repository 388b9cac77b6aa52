//! Synchronization core of a real-time multi-channel chat service: the wire
//! schema shared by client and server, cursor-based history pagination, the
//! server-invite lifecycle, notification read-state tracking, presence
//! fan-out and cache invalidation, with machine-checked contracts.
//!
//! - [`schema`]: the entities and the two wire tagged unions.
//! - [`color`]: the two wire forms of a color and their round trip.
//! - [`pagination`]: the cursor engine, its completeness and the legacy
//!   dialect's equivalence.
//! - [`invites`]: the invite state machine and its uniqueness invariant.
//! - [`notifications`]: ordered notification tracking, idempotent
//!   read-state.
//! - [`presence`]: connection registry, fan-out lists, bounded outbound
//!   queues, user status and the profile mutation policy.
//! - [`cache`]: idempotent invalidation of derived-asset keys.
//! - [`service`]: history requests answered as response events.
//! - [`config`]: configuration defaults and validation.
//! - [`seed`]: first-run content.
pub mod cache;
pub mod color;
pub mod config;
pub mod invites;
pub mod notifications;
pub mod pagination;
pub mod presence;
pub mod schema;
pub mod seed;
pub mod service;

pub use color::{PaletteColor, UserColor};
pub use config::{
    ConnectionConfig, DatabaseConfig, FileUploadConfig, ModerationConfig, NetworkConfig,
    NotificationConfig, PerformanceConfig, RateLimitConfig, SecurityConfig, ServerConfig,
    UiConfig,
};
pub use seed::create_initial_forums;
pub use schema::{
    ChannelMessage, ChannelPermissions, Channel, ChatMessage, ClientMessage, DirectMessage,
    Forum, ForumLightweight, Id, Notification, NotificationType, PaginationCursor,
    PaginationDirection, Post, PostLightweight, Server, ServerInvite, ServerInviteStatus,
    ServerMessage, Thread, ThreadLightweight, User, UserInfo, UserProfile, UserRole, UserStatus,
    CacheStats,
};
