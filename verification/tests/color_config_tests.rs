use nexus_common::{PaletteColor, ServerConfig, UserColor};

#[test]
fn hex_strings_parse_to_rgb() {
    let c = UserColor::new("#FF0080".to_string());
    assert_eq!(c.to_palette(), PaletteColor::Rgb(255, 0, 128));
    let lower = UserColor::new("#ff0080".to_string());
    assert_eq!(lower.to_palette(), PaletteColor::Rgb(255, 0, 128));
}

#[test]
fn named_colors_parse_to_their_palette_entry() {
    assert_eq!(UserColor::new("Red".to_string()).to_palette(), PaletteColor::Red);
    assert_eq!(UserColor::new("Green".to_string()).to_palette(), PaletteColor::Green);
    assert_eq!(UserColor::new("Blue".to_string()).to_palette(), PaletteColor::Blue);
    assert_eq!(UserColor::new("Yellow".to_string()).to_palette(), PaletteColor::Yellow);
    assert_eq!(UserColor::new("Cyan".to_string()).to_palette(), PaletteColor::Cyan);
    assert_eq!(UserColor::new("Magenta".to_string()).to_palette(), PaletteColor::Magenta);
    assert_eq!(UserColor::new("White".to_string()).to_palette(), PaletteColor::White);
    assert_eq!(UserColor::new("Black".to_string()).to_palette(), PaletteColor::Black);
}

#[test]
fn unknown_colors_fall_back_to_cyan() {
    assert_eq!(UserColor::new("puce".to_string()).to_palette(), PaletteColor::Cyan);
    assert_eq!(UserColor::new("#GG0000".to_string()).to_palette(), PaletteColor::Cyan);
    assert_eq!(UserColor::new("#FFF".to_string()).to_palette(), PaletteColor::Cyan);
    assert_eq!(UserColor::new(String::new()).to_palette(), PaletteColor::Cyan);
}

#[test]
fn canonical_rendering_round_trips() {
    let cases = [
        PaletteColor::Rgb(0, 17, 255),
        PaletteColor::Rgb(171, 205, 239),
        PaletteColor::Red,
        PaletteColor::Magenta,
        PaletteColor::Black,
    ];
    for c in cases {
        let rendered = c.to_canonical();
        assert_eq!(rendered.to_palette(), c);
    }
    assert_eq!(PaletteColor::Rgb(171, 205, 239).to_canonical().as_str(), "#ABCDEF");
    assert_eq!(PaletteColor::Red.to_canonical().as_str(), "Red");
}

#[test]
fn user_color_wraps_its_string() {
    let c = UserColor::new("Teal".to_string());
    assert_eq!(c.as_str(), "Teal");
    let from_string: UserColor = String::from("Mauve").into();
    assert_eq!(from_string.as_str(), "Mauve");
}

#[test]
fn default_server_config_is_materialized_in_full() {
    let c = ServerConfig::default();
    assert_eq!(c.network.bind_address, "127.0.0.1");
    assert_eq!(c.network.port, 8080);
    assert_eq!(c.network.max_connections, 1000);
    assert_eq!(c.network.connection_timeout_seconds, 30);
    assert_eq!(c.network.keepalive_interval_seconds, 60);
    assert_eq!(c.rate_limits.messages_per_minute, 60);
    assert_eq!(c.rate_limits.requests_per_second, 10);
    assert_eq!(c.rate_limits.file_uploads_per_hour, 10);
    assert_eq!(c.rate_limits.registration_attempts_per_hour, 5);
    assert_eq!(c.rate_limits.login_attempts_per_minute, 5);
    assert_eq!(c.rate_limits.channel_joins_per_minute, 20);
    assert!(c.file_upload.enabled);
    assert_eq!(c.file_upload.max_file_size_mb, 10);
    assert_eq!(
        c.file_upload.allowed_types,
        vec!["image/png", "image/jpeg", "image/gif", "image/webp", "text/plain"]
    );
    assert_eq!(c.file_upload.max_files_per_user, 100);
    assert_eq!(c.file_upload.storage_path, "./uploads");
    assert_eq!(c.file_upload.cleanup_interval_hours, 24);
    assert!(c.moderation.auto_moderation_enabled);
    assert!(c.moderation.blocked_words.is_empty());
    assert!(c.moderation.blocked_patterns.is_empty());
    assert_eq!(c.moderation.auto_ban_threshold, 5);
    assert_eq!(c.moderation.warning_threshold, 3);
    assert_eq!(c.moderation.message_length_limit, 2000);
    assert_eq!(c.moderation.channel_creation_role, "Moderator");
    assert_eq!(c.database.path, "nexus.db");
    assert_eq!(c.database.backup_interval_hours, 6);
    assert_eq!(c.database.backup_retention_days, 30);
    assert_eq!(c.database.connection_pool_size, 10);
    assert_eq!(c.database.query_timeout_seconds, 30);
    assert!(c.security.require_secure_passwords);
    assert_eq!(c.security.min_password_length, 8);
    assert_eq!(c.security.session_timeout_hours, 24);
    assert!(c.security.audit_logging_enabled);
    assert!(c.security.ip_whitelist.is_empty());
    assert!(c.security.ip_blacklist.is_empty());
}

#[test]
fn default_client_preferences_are_materialized() {
    let conn = nexus_common::ConnectionConfig::default();
    assert!(!conn.auto_connect);
    assert!(conn.default_server.is_none());
    assert_eq!(conn.reconnect_attempts, 3);
    assert_eq!(conn.reconnect_delay_seconds, 5);
    assert_eq!(conn.connection_timeout_seconds, 10);

    let ui = nexus_common::UiConfig::default();
    assert_eq!(ui.theme, "cyberpunk");
    assert_eq!(ui.font_size, 14);
    assert_eq!(ui.sidebar_width, 30);
    assert_eq!(ui.max_message_history, 1000);

    let notif = nexus_common::NotificationConfig::default();
    assert!(notif.enabled);
    assert_eq!(notif.notification_timeout_ms, 4000);
    assert!(notif.quiet_hours_start.is_none());

    let perf = nexus_common::PerformanceConfig::default();
    assert_eq!(perf.image_cache_size_mb, 50);
    assert_eq!(perf.max_cached_images, 200);
    assert!(perf.lazy_load_images);
    assert_eq!(perf.message_render_limit, 100);
    assert_eq!(perf.scroll_buffer_size, 500);
}

#[test]
fn default_server_config_validates() {
    assert!(ServerConfig::default().validate().is_ok());
}

#[test]
fn each_invalid_field_reports_its_rule() {
    let mut c = ServerConfig::default();
    c.network.port = 0;
    assert_eq!(c.validate().unwrap_err(), "Network port cannot be 0");

    let mut c = ServerConfig::default();
    c.network.max_connections = 0;
    assert_eq!(c.validate().unwrap_err(), "Max connections must be greater than 0");

    let mut c = ServerConfig::default();
    c.rate_limits.messages_per_minute = 0;
    assert_eq!(c.validate().unwrap_err(), "Messages per minute must be greater than 0");

    let mut c = ServerConfig::default();
    c.moderation.message_length_limit = 0;
    assert_eq!(c.validate().unwrap_err(), "Message length limit must be greater than 0");

    let mut c = ServerConfig::default();
    c.security.min_password_length = 3;
    assert_eq!(c.validate().unwrap_err(), "Minimum password length must be at least 4");
}
