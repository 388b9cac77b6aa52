use nexus_common::invites::{InviteError, InviteTable};
use nexus_common::schema::{
    Channel, ChannelPermissions, Server, ServerInvite, ServerInviteStatus, User, UserRole,
    UserStatus,
};
use nexus_common::UserColor;

fn user(id: u128, name: &str) -> User {
    User {
        id,
        username: name.to_string(),
        color: UserColor::new("Cyan".to_string()),
        role: UserRole::User,
        profile_pic: None,
        cover_banner: None,
        status: UserStatus::Connected,
    }
}

fn server(id: u128, owner: u128) -> Server {
    Server {
        id,
        name: format!("server {}", id),
        description: String::new(),
        public: true,
        invite_code: None,
        icon: None,
        banner: None,
        owner,
        mods: vec![owner],
        userlist: vec![owner],
        channels: vec![
            Channel {
                id: id * 10 + 1,
                server_id: id,
                name: "general".to_string(),
                description: String::new(),
                permissions: ChannelPermissions { can_read: vec![owner], can_write: vec![owner] },
                userlist: vec![owner],
                messages: Vec::new(),
            },
            Channel {
                id: id * 10 + 2,
                server_id: id,
                name: "offtopic".to_string(),
                description: String::new(),
                permissions: ChannelPermissions { can_read: vec![], can_write: vec![] },
                userlist: vec![],
                messages: Vec::new(),
            },
        ],
    }
}

fn invite(id: u128, from: &User, to: u128, srv: &Server) -> ServerInvite {
    ServerInvite {
        id,
        from_user: from.clone(),
        to_user_id: to,
        server: srv.clone(),
        timestamp: 1000,
        status: ServerInviteStatus::Pending,
    }
}

#[test]
fn second_pending_invite_for_the_same_triple_is_rejected() {
    let a = user(1, "a");
    let s = server(50, 1);
    let mut table = InviteTable::new();
    assert!(table.send_server_invite(invite(900, &a, 2, &s)).is_ok());
    let r = table.send_server_invite(invite(901, &a, 2, &s));
    assert_eq!(r.unwrap_err(), InviteError::AlreadyPending);
    assert_eq!(table.invites.len(), 1);
}

#[test]
fn a_resolved_invite_frees_its_triple() {
    let a = user(1, "a");
    let s = server(50, 1);
    let mut servers = vec![server(50, 1)];
    let mut table = InviteTable::new();
    table.send_server_invite(invite(900, &a, 2, &s)).unwrap();
    table.respond_to_server_invite(900, false, &mut servers).unwrap();
    assert!(table.send_server_invite(invite(901, &a, 2, &s)).is_ok());
}

#[test]
fn a_taken_invite_id_is_rejected() {
    let a = user(1, "a");
    let s = server(50, 1);
    let mut table = InviteTable::new();
    table.send_server_invite(invite(900, &a, 2, &s)).unwrap();
    let r = table.send_server_invite(invite(900, &a, 3, &s));
    assert_eq!(r.unwrap_err(), InviteError::IdInUse);
}

#[test]
fn accepting_from_user_joins_server_and_first_channel() {
    let a = user(1, "a");
    let s = server(50, 1);
    let mut servers = vec![server(50, 1)];
    let mut table = InviteTable::new();
    table.send_server_invite(invite(901, &a, 2, &s)).unwrap();

    let res = table.accept_server_invite_from_user(1, 2, &mut servers).unwrap();
    assert_eq!(res.invite_id, 901);
    assert_eq!(res.inviter_id, 1);
    assert_eq!(res.invitee_id, 2);
    assert_eq!(res.server_id, 50);
    assert!(res.accepted);

    assert_eq!(table.invites[0].status, ServerInviteStatus::Accepted);
    assert!(servers[0].userlist.contains(&2));
    assert!(servers[0].channels[0].userlist.contains(&2));
    assert!(!servers[0].channels[1].userlist.contains(&2));
}

#[test]
fn accept_from_user_matches_respond_by_id() {
    let a = user(1, "a");
    let s = server(50, 1);

    let mut table1 = InviteTable::new();
    let mut servers1 = vec![server(50, 1)];
    table1.send_server_invite(invite(901, &a, 2, &s)).unwrap();
    let r1 = table1.accept_server_invite_from_user(1, 2, &mut servers1).unwrap();

    let mut table2 = InviteTable::new();
    let mut servers2 = vec![server(50, 1)];
    table2.send_server_invite(invite(901, &a, 2, &s)).unwrap();
    let r2 = table2.respond_to_server_invite(901, true, &mut servers2).unwrap();

    assert_eq!(r1.invite_id, r2.invite_id);
    assert_eq!(r1.accepted, r2.accepted);
    assert_eq!(table1.invites[0].status, table2.invites[0].status);
    assert_eq!(servers1[0].userlist, servers2[0].userlist);
    assert_eq!(servers1[0].channels[0].userlist, servers2[0].channels[0].userlist);
}

#[test]
fn declining_changes_no_membership() {
    let a = user(1, "a");
    let s = server(50, 1);
    let mut servers = vec![server(50, 1)];
    let mut table = InviteTable::new();
    table.send_server_invite(invite(901, &a, 2, &s)).unwrap();
    let res = table.decline_server_invite_from_user(1, 2, &mut servers).unwrap();
    assert!(!res.accepted);
    assert_eq!(table.invites[0].status, ServerInviteStatus::Declined);
    assert!(!servers[0].userlist.contains(&2));
    assert!(!servers[0].channels[0].userlist.contains(&2));
}

#[test]
fn resolving_without_a_pending_invite_fails() {
    let mut servers = vec![server(50, 1)];
    let mut table = InviteTable::new();
    let r = table.accept_server_invite_from_user(1, 2, &mut servers);
    assert_eq!(r.unwrap_err(), InviteError::NotFound);
}

#[test]
fn responding_twice_fails_the_second_time() {
    let a = user(1, "a");
    let s = server(50, 1);
    let mut servers = vec![server(50, 1)];
    let mut table = InviteTable::new();
    table.send_server_invite(invite(901, &a, 2, &s)).unwrap();
    table.respond_to_server_invite(901, true, &mut servers).unwrap();
    let r = table.respond_to_server_invite(901, true, &mut servers);
    assert_eq!(r.unwrap_err(), InviteError::NotPending);
}

#[test]
fn responding_to_an_unknown_id_fails() {
    let mut servers = vec![server(50, 1)];
    let mut table = InviteTable::new();
    let r = table.respond_to_server_invite(999, true, &mut servers);
    assert_eq!(r.unwrap_err(), InviteError::NotFound);
}

#[test]
fn an_expired_invite_is_terminal() {
    let a = user(1, "a");
    let s = server(50, 1);
    let mut servers = vec![server(50, 1)];
    let mut table = InviteTable::new();
    table.send_server_invite(invite(901, &a, 2, &s)).unwrap();
    table.expire_server_invite(901).unwrap();
    assert_eq!(table.invites[0].status, ServerInviteStatus::Expired);
    let r = table.respond_to_server_invite(901, true, &mut servers);
    assert_eq!(r.unwrap_err(), InviteError::NotPending);
    assert!(!servers[0].userlist.contains(&2));
    assert_eq!(table.expire_server_invite(901).unwrap_err(), InviteError::NotPending);
    assert_eq!(table.expire_server_invite(999).unwrap_err(), InviteError::NotFound);
}

#[test]
fn two_pending_invites_between_the_same_users_are_ambiguous() {
    let a = user(1, "a");
    let s1 = server(50, 1);
    let s2 = server(60, 1);
    let mut servers = vec![server(50, 1), server(60, 1)];
    let mut table = InviteTable::new();
    table.send_server_invite(invite(901, &a, 2, &s1)).unwrap();
    table.send_server_invite(invite(902, &a, 2, &s2)).unwrap();
    let r = table.accept_server_invite_from_user(1, 2, &mut servers);
    assert_eq!(r.unwrap_err(), InviteError::Ambiguous);
    assert_eq!(table.invites[0].status, ServerInviteStatus::Pending);
    assert_eq!(table.invites[1].status, ServerInviteStatus::Pending);
}

#[test]
fn accepting_when_already_a_member_adds_nothing() {
    let a = user(1, "a");
    let s = server(50, 1);
    let mut servers = vec![server(50, 1)];
    servers[0].userlist.push(2);
    servers[0].channels[0].userlist.push(2);
    let mut table = InviteTable::new();
    table.send_server_invite(invite(901, &a, 2, &s)).unwrap();
    table.respond_to_server_invite(901, true, &mut servers).unwrap();
    assert_eq!(servers[0].userlist.iter().filter(|&&u| u == 2).count(), 1);
    assert_eq!(servers[0].channels[0].userlist.iter().filter(|&&u| u == 2).count(), 1);
}
