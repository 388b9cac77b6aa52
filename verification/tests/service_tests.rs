use nexus_common::invites::InviteResolution;
use nexus_common::notifications::NotificationTable;
use nexus_common::schema::{
    Channel, ChannelMessage, ChannelPermissions, DirectMessage, Notification, NotificationType,
    PaginationCursor, PaginationDirection, ServerMessage, User, UserRole, UserStatus,
};
use nexus_common::service::{
    resolution_event, serve_channel_history, serve_channel_history_legacy, serve_direct_history,
    serve_notifications,
};
use nexus_common::UserColor;

fn channel_with_messages(timestamps: &[i64]) -> Channel {
    Channel {
        id: 5,
        server_id: 50,
        name: "general".to_string(),
        description: String::new(),
        permissions: ChannelPermissions { can_read: vec![], can_write: vec![] },
        userlist: vec![],
        messages: timestamps
            .iter()
            .enumerate()
            .map(|(i, &t)| ChannelMessage {
                id: i as u128 + 1,
                channel_id: 5,
                sent_by: 1,
                timestamp: t,
                content: format!("m{}", t),
            })
            .collect(),
    }
}

#[test]
fn channel_history_pages_as_events() {
    let channel = channel_with_messages(&[100, 101, 102, 103, 104]);
    let r = serve_channel_history(
        &channel,
        PaginationCursor::Start,
        PaginationDirection::Backward,
        Some(2),
    );
    match r {
        ServerMessage::ChannelMessagesPaginated {
            channel_id,
            messages,
            has_more,
            next_cursor,
            total_count,
            ..
        } => {
            assert_eq!(channel_id, 5);
            let ts: Vec<i64> = messages.iter().map(|m| m.timestamp).collect();
            assert_eq!(ts, vec![104, 103]);
            assert!(has_more);
            assert!(next_cursor.is_some());
            assert_eq!(total_count, Some(5));
        }
        other => panic!("unexpected response: {:?}", other),
    }
}

#[test]
fn an_invalid_cursor_yields_the_error_notification() {
    let channel = channel_with_messages(&[100, 101]);
    let r = serve_channel_history(
        &channel,
        PaginationCursor::Offset(10),
        PaginationDirection::Backward,
        None,
    );
    match r {
        ServerMessage::Notification(message, is_error) => {
            assert_eq!(message, "Invalid pagination cursor");
            assert!(is_error);
        }
        other => panic!("unexpected response: {:?}", other),
    }
}

#[test]
fn legacy_channel_history_matches_the_cursor_dialect() {
    let channel = channel_with_messages(&[100, 101, 102, 103, 104]);
    let legacy = serve_channel_history_legacy(&channel, Some(103), Some(2));
    let cursor = serve_channel_history(
        &channel,
        PaginationCursor::Timestamp(103),
        PaginationDirection::Backward,
        Some(2),
    );
    let legacy_ts: Vec<i64> = match legacy {
        ServerMessage::ChannelMessages { messages, .. } => {
            messages.iter().map(|m| m.timestamp).collect()
        }
        other => panic!("unexpected response: {:?}", other),
    };
    let cursor_ts: Vec<i64> = match cursor {
        ServerMessage::ChannelMessagesPaginated { messages, .. } => {
            messages.iter().map(|m| m.timestamp).collect()
        }
        other => panic!("unexpected response: {:?}", other),
    };
    assert_eq!(legacy_ts, cursor_ts);
    assert_eq!(legacy_ts, vec![102, 101]);
}

#[test]
fn direct_history_pages_as_events() {
    let dms: Vec<DirectMessage> = (0..3)
        .map(|i| DirectMessage {
            id: i as u128 + 1,
            from: 1,
            to: 2,
            timestamp: 200 + i,
            content: format!("dm{}", i),
        })
        .collect();
    let r = serve_direct_history(
        2,
        &dms,
        PaginationCursor::Start,
        PaginationDirection::Backward,
        Some(2),
    );
    match r {
        ServerMessage::DirectMessagesPaginated { user_id, messages, has_more, .. } => {
            assert_eq!(user_id, 2);
            let ts: Vec<i64> = messages.iter().map(|m| m.timestamp).collect();
            assert_eq!(ts, vec![202, 201]);
            assert!(has_more);
        }
        other => panic!("unexpected response: {:?}", other),
    }
}

#[test]
fn notification_fetch_answers_with_its_event() {
    let mut table = NotificationTable::new();
    for i in 0..3 {
        table
            .create_notification(Notification {
                id: i as u128 + 1,
                user_id: 9,
                notif_type: NotificationType::DM,
                related_id: 4,
                created_at: 300 + i,
                read: false,
                extra: None,
            })
            .unwrap();
    }
    let r = serve_notifications(&table, None, Some(5));
    match r {
        ServerMessage::Notifications { notifications, history_complete } => {
            let ts: Vec<i64> = notifications.iter().map(|n| n.created_at).collect();
            assert_eq!(ts, vec![302, 301, 300]);
            assert!(history_complete);
        }
        other => panic!("unexpected response: {:?}", other),
    }
}

#[test]
fn avatar_batches_pair_each_known_id_with_its_image() {
    let users = vec![
        User {
            id: 1,
            username: "a".to_string(),
            color: UserColor::new("Cyan".to_string()),
            role: UserRole::User,
            profile_pic: Some("a.png".to_string()),
            cover_banner: None,
            status: UserStatus::Connected,
        },
        User {
            id: 2,
            username: "b".to_string(),
            color: UserColor::new("Cyan".to_string()),
            role: UserRole::User,
            profile_pic: None,
            cover_banner: None,
            status: UserStatus::Connected,
        },
    ];
    let ids = vec![2u128, 9, 1];
    let r = nexus_common::service::serve_user_avatars(&users, &ids);
    match r {
        ServerMessage::UserAvatars { avatars } => {
            assert_eq!(
                avatars,
                vec![(2, None), (1, Some("a.png".to_string()))]
            );
        }
        other => panic!("unexpected response: {:?}", other),
    }
}

#[test]
fn resolution_events_carry_the_outcome_to_the_inviter() {
    let responder = User {
        id: 2,
        username: "b".to_string(),
        color: UserColor::new("Cyan".to_string()),
        role: UserRole::User,
        profile_pic: None,
        cover_banner: None,
        status: UserStatus::Connected,
    };
    let res = InviteResolution {
        invite_id: 901,
        inviter_id: 1,
        invitee_id: 2,
        server_id: 50,
        accepted: true,
    };
    let r = resolution_event(&res, &responder);
    match r {
        ServerMessage::ServerInviteResponse { invite_id, accepted, user } => {
            assert_eq!(invite_id, 901);
            assert!(accepted);
            assert_eq!(user.id, 2);
            assert_eq!(user.username, "b");
        }
        other => panic!("unexpected response: {:?}", other),
    }
}
