//! Configuration surfaces consumed by the synchronization core: network
//! limits, rate limits, moderation thresholds, file-upload policy,
//! database pool sizing and security policy, plus the client's UI,
//! connection, notification and performance preferences.
//!
//! The core materializes full defaults and validates a configuration
//! best-effort before use; reading and writing config files is the
//! surrounding plumbing's business.
use vstd::prelude::*;

verus! {

/// Server configuration: everything externally-enforced policy needs.
#[derive(Clone, Debug)]
pub struct ServerConfig {
    pub network: NetworkConfig,
    pub rate_limits: RateLimitConfig,
    pub file_upload: FileUploadConfig,
    pub moderation: ModerationConfig,
    pub database: DatabaseConfig,
    pub security: SecurityConfig,
}

/// Listen address and connection limits.
#[derive(Clone, Debug)]
pub struct NetworkConfig {
    pub bind_address: String,
    pub port: u16,
    pub max_connections: usize,
    pub connection_timeout_seconds: u64,
    pub keepalive_interval_seconds: u64,
}

/// Per-action rate limits.
#[derive(Clone, Copy, Debug, PartialEq, Eq, Structural)]
pub struct RateLimitConfig {
    pub messages_per_minute: usize,
    pub requests_per_second: usize,
    pub file_uploads_per_hour: usize,
    pub registration_attempts_per_hour: usize,
    pub login_attempts_per_minute: usize,
    pub channel_joins_per_minute: usize,
}

/// File-upload policy.
#[derive(Clone, Debug)]
pub struct FileUploadConfig {
    pub enabled: bool,
    pub max_file_size_mb: usize,
    pub allowed_types: Vec<String>,
    pub max_files_per_user: usize,
    pub storage_path: String,
    pub cleanup_interval_hours: u64,
}

/// Moderation thresholds and filters.
#[derive(Clone, Debug)]
pub struct ModerationConfig {
    pub auto_moderation_enabled: bool,
    pub blocked_words: Vec<String>,
    pub blocked_patterns: Vec<String>,
    pub auto_ban_threshold: usize,
    pub warning_threshold: usize,
    pub message_length_limit: usize,
    pub channel_creation_role: String,
}

/// Database location, backups and pooling.
#[derive(Clone, Debug)]
pub struct DatabaseConfig {
    pub path: String,
    pub backup_interval_hours: u64,
    pub backup_retention_days: u32,
    pub connection_pool_size: usize,
    pub query_timeout_seconds: u64,
}

/// Security policy: passwords, sessions, address lists.
#[derive(Clone, Debug)]
pub struct SecurityConfig {
    pub require_secure_passwords: bool,
    pub min_password_length: usize,
    pub session_timeout_hours: u64,
    pub audit_logging_enabled: bool,
    pub ip_whitelist: Vec<String>,
    pub ip_blacklist: Vec<String>,
}

impl Default for ServerConfig {
    /// The fully materialized default configuration, written on first run.
    fn default() -> (c: Self)
        ensures
            c.network.bind_address@ == "127.0.0.1"@,
            c.network.port == 8080,
            c.network.max_connections == 1000,
            c.network.connection_timeout_seconds == 30,
            c.network.keepalive_interval_seconds == 60,
            c.rate_limits == (RateLimitConfig {
                messages_per_minute: 60,
                requests_per_second: 10,
                file_uploads_per_hour: 10,
                registration_attempts_per_hour: 5,
                login_attempts_per_minute: 5,
                channel_joins_per_minute: 20,
            }),
            c.file_upload.enabled == true,
            c.file_upload.max_file_size_mb == 10,
            c.file_upload.allowed_types@.len() == 5,
            c.file_upload.allowed_types@[0]@ == "image/png"@,
            c.file_upload.allowed_types@[1]@ == "image/jpeg"@,
            c.file_upload.allowed_types@[2]@ == "image/gif"@,
            c.file_upload.allowed_types@[3]@ == "image/webp"@,
            c.file_upload.allowed_types@[4]@ == "text/plain"@,
            c.file_upload.max_files_per_user == 100,
            c.file_upload.storage_path@ == "./uploads"@,
            c.file_upload.cleanup_interval_hours == 24,
            c.moderation.auto_moderation_enabled == true,
            c.moderation.blocked_words@.len() == 0,
            c.moderation.blocked_patterns@.len() == 0,
            c.moderation.auto_ban_threshold == 5,
            c.moderation.warning_threshold == 3,
            c.moderation.message_length_limit == 2000,
            c.moderation.channel_creation_role@ == "Moderator"@,
            c.database.path@ == "nexus.db"@,
            c.database.backup_interval_hours == 6,
            c.database.backup_retention_days == 30,
            c.database.connection_pool_size == 10,
            c.database.query_timeout_seconds == 30,
            c.security.require_secure_passwords == true,
            c.security.min_password_length == 8,
            c.security.session_timeout_hours == 24,
            c.security.audit_logging_enabled == true,
            c.security.ip_whitelist@.len() == 0,
            c.security.ip_blacklist@.len() == 0,
    {
        let mut allowed_types: Vec<String> = Vec::new();
        allowed_types.push("image/png".to_owned());
        allowed_types.push("image/jpeg".to_owned());
        allowed_types.push("image/gif".to_owned());
        allowed_types.push("image/webp".to_owned());
        allowed_types.push("text/plain".to_owned());
        ServerConfig {
            network: NetworkConfig {
                bind_address: "127.0.0.1".to_owned(),
                port: 8080,
                max_connections: 1000,
                connection_timeout_seconds: 30,
                keepalive_interval_seconds: 60,
            },
            rate_limits: RateLimitConfig {
                messages_per_minute: 60,
                requests_per_second: 10,
                file_uploads_per_hour: 10,
                registration_attempts_per_hour: 5,
                login_attempts_per_minute: 5,
                channel_joins_per_minute: 20,
            },
            file_upload: FileUploadConfig {
                enabled: true,
                max_file_size_mb: 10,
                allowed_types,
                max_files_per_user: 100,
                storage_path: "./uploads".to_owned(),
                cleanup_interval_hours: 24,
            },
            moderation: ModerationConfig {
                auto_moderation_enabled: true,
                blocked_words: Vec::new(),
                blocked_patterns: Vec::new(),
                auto_ban_threshold: 5,
                warning_threshold: 3,
                message_length_limit: 2000,
                channel_creation_role: "Moderator".to_owned(),
            },
            database: DatabaseConfig {
                path: "nexus.db".to_owned(),
                backup_interval_hours: 6,
                backup_retention_days: 30,
                connection_pool_size: 10,
                query_timeout_seconds: 30,
            },
            security: SecurityConfig {
                require_secure_passwords: true,
                min_password_length: 8,
                session_timeout_hours: 24,
                audit_logging_enabled: true,
                ip_whitelist: Vec::new(),
                ip_blacklist: Vec::new(),
            },
        }
    }
}

impl ServerConfig {
    /// What validation accepts: no zero port, no zero connection or
    /// message limits, and a password floor of at least four.
    pub open spec fn valid(self) -> bool {
        &&& self.network.port != 0
        &&& self.network.max_connections != 0
        &&& self.rate_limits.messages_per_minute != 0
        &&& self.moderation.message_length_limit != 0
        &&& self.security.min_password_length >= 4
    }

    /// Best-effort validation before use: accepts exactly the
    /// configurations `valid` describes, and names the first rule a
    /// rejected configuration breaks.
    pub fn validate(&self) -> (r: Result<(), String>)
        ensures
            r is Ok <==> self.valid(),
            self.network.port == 0 ==> (r matches Err(m) && m@ == "Network port cannot be 0"@),
            self.network.port != 0 && self.network.max_connections == 0 ==> (r matches Err(m)
                && m@ == "Max connections must be greater than 0"@),
            self.network.port != 0 && self.network.max_connections != 0
                && self.rate_limits.messages_per_minute == 0 ==> (r matches Err(m) && m@
                == "Messages per minute must be greater than 0"@),
            self.network.port != 0 && self.network.max_connections != 0
                && self.rate_limits.messages_per_minute != 0
                && self.moderation.message_length_limit == 0 ==> (r matches Err(m) && m@
                == "Message length limit must be greater than 0"@),
            self.network.port != 0 && self.network.max_connections != 0
                && self.rate_limits.messages_per_minute != 0
                && self.moderation.message_length_limit != 0
                && self.security.min_password_length < 4 ==> (r matches Err(m) && m@
                == "Minimum password length must be at least 4"@),
    {
        if self.network.port == 0 {
            return Err("Network port cannot be 0".to_owned());
        }
        if self.network.max_connections == 0 {
            return Err("Max connections must be greater than 0".to_owned());
        }
        if self.rate_limits.messages_per_minute == 0 {
            return Err("Messages per minute must be greater than 0".to_owned());
        }
        if self.moderation.message_length_limit == 0 {
            return Err("Message length limit must be greater than 0".to_owned());
        }
        if self.security.min_password_length < 4 {
            return Err("Minimum password length must be at least 4".to_owned());
        }
        Ok(())
    }
}

/// Client connection behavior.
#[derive(Clone, Debug)]
pub struct ConnectionConfig {
    pub auto_connect: bool,
    pub default_server: Option<String>,
    pub reconnect_attempts: usize,
    pub reconnect_delay_seconds: u64,
    pub connection_timeout_seconds: u64,
}

impl Default for ConnectionConfig {
    /// Default connection behavior.
    fn default() -> (c: Self)
        ensures
            c.auto_connect == false,
            c.default_server is None,
            c.reconnect_attempts == 3,
            c.reconnect_delay_seconds == 5,
            c.connection_timeout_seconds == 10,
    {
        ConnectionConfig {
            auto_connect: false,
            default_server: None,
            reconnect_attempts: 3,
            reconnect_delay_seconds: 5,
            connection_timeout_seconds: 10,
        }
    }
}

/// Client UI preferences.
#[derive(Clone, Debug)]
pub struct UiConfig {
    pub theme: String,
    pub font_size: u16,
    pub show_timestamps: bool,
    pub show_avatars: bool,
    pub show_user_list: bool,
    pub message_grouping: bool,
    pub compact_mode: bool,
    pub sidebar_width: u16,
    pub max_message_history: usize,
}

impl Default for UiConfig {
    /// Default UI preferences.
    fn default() -> (c: Self)
        ensures
            c.theme@ == "cyberpunk"@,
            c.font_size == 14,
            c.show_timestamps == true,
            c.show_avatars == true,
            c.show_user_list == true,
            c.message_grouping == true,
            c.compact_mode == false,
            c.sidebar_width == 30,
            c.max_message_history == 1000,
    {
        UiConfig {
            theme: "cyberpunk".to_owned(),
            font_size: 14,
            show_timestamps: true,
            show_avatars: true,
            show_user_list: true,
            message_grouping: true,
            compact_mode: false,
            sidebar_width: 30,
            max_message_history: 1000,
        }
    }
}

/// Client notification preferences.
#[derive(Clone, Debug)]
pub struct NotificationConfig {
    pub enabled: bool,
    pub show_mentions: bool,
    pub show_direct_messages: bool,
    pub show_server_invites: bool,
    pub notification_timeout_ms: u64,
    pub quiet_hours_start: Option<String>,
    pub quiet_hours_end: Option<String>,
}

impl Default for NotificationConfig {
    /// Default notification preferences.
    fn default() -> (c: Self)
        ensures
            c.enabled == true,
            c.show_mentions == true,
            c.show_direct_messages == true,
            c.show_server_invites == true,
            c.notification_timeout_ms == 4000,
            c.quiet_hours_start is None,
            c.quiet_hours_end is None,
    {
        NotificationConfig {
            enabled: true,
            show_mentions: true,
            show_direct_messages: true,
            show_server_invites: true,
            notification_timeout_ms: 4000,
            quiet_hours_start: None,
            quiet_hours_end: None,
        }
    }
}

/// Client performance preferences.
#[derive(Clone, Copy, Debug, PartialEq, Eq, Structural)]
pub struct PerformanceConfig {
    pub image_cache_size_mb: usize,
    pub max_cached_images: usize,
    pub lazy_load_images: bool,
    pub message_render_limit: usize,
    pub scroll_buffer_size: usize,
}

impl Default for PerformanceConfig {
    /// Default performance preferences.
    fn default() -> (c: Self)
        ensures
            c == (PerformanceConfig {
                image_cache_size_mb: 50,
                max_cached_images: 200,
                lazy_load_images: true,
                message_render_limit: 100,
                scroll_buffer_size: 500,
            }),
    {
        PerformanceConfig {
            image_cache_size_mb: 50,
            max_cached_images: 200,
            lazy_load_images: true,
            message_render_limit: 100,
            scroll_buffer_size: 500,
        }
    }
}

} // verus!
