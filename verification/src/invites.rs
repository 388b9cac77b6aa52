//! Lifecycle of cross-server invitations.
//!
//! An invite is `Pending` until it is resolved to `Accepted`, `Declined` or
//! `Expired`, all terminal. The table keeps two invariants: invite ids are
//! unique, and at most one `Pending` invite exists for a given
//! (inviter, invitee, server) triple at any time. Acceptance adds the
//! invitee to the server's member list and to its first channel's member
//! list.
use vstd::prelude::*;

use crate::schema::{contains_id, Channel, Id, Server, ServerInvite, ServerInviteStatus};

verus! {

/// A Pending invite is one not yet resolved.
pub open spec fn is_pending(inv: ServerInvite) -> bool {
    inv.status == ServerInviteStatus::Pending
}

/// Two invites concern the same (inviter, invitee, server) triple.
pub open spec fn same_triple(a: ServerInvite, b: ServerInvite) -> bool {
    a.from_user.id == b.from_user.id && a.to_user_id == b.to_user_id && a.server.id == b.server.id
}

/// A Pending invite from `from` to `to`, whatever the server.
pub open spec fn pending_between(inv: ServerInvite, from: Id, to: Id) -> bool {
    is_pending(inv) && inv.from_user.id == from && inv.to_user_id == to
}

/// Invite ids never repeat in a table.
pub open spec fn ids_unique(s: Seq<ServerInvite>) -> bool {
    forall|i: int, j: int|
        #![trigger s[i], s[j]]
        0 <= i < j < s.len() ==> s[i].id != s[j].id
}

/// At most one Pending invite per (inviter, invitee, server) triple.
pub open spec fn pending_unique(s: Seq<ServerInvite>) -> bool {
    forall|i: int, j: int|
        #![trigger s[i], s[j]]
        0 <= i < j < s.len() && is_pending(s[i]) && is_pending(s[j]) ==> !same_triple(s[i], s[j])
}

/// An invite after its resolution; nothing but the status changes.
pub open spec fn resolved_invite(inv: ServerInvite, accept: bool) -> ServerInvite {
    ServerInvite {
        status: if accept {
            ServerInviteStatus::Accepted
        } else {
            ServerInviteStatus::Declined
        },
        ..inv
    }
}

/// The table after the invite at `i` is resolved: only its status changes.
pub open spec fn resolve_at(s: Seq<ServerInvite>, i: int, accept: bool) -> Seq<ServerInvite> {
    s.update(i, resolved_invite(s[i], accept))
}

/// A channel after `user` joined it: the member list gains `user` unless
/// already present; everything else is unchanged.
pub open spec fn channel_joined(pre: Channel, post: Channel, user: Id) -> bool {
    &&& post.id == pre.id
    &&& post.server_id == pre.server_id
    &&& post.name == pre.name
    &&& post.description == pre.description
    &&& post.permissions.can_read@ == pre.permissions.can_read@
    &&& post.permissions.can_write@ == pre.permissions.can_write@
    &&& post.messages@ == pre.messages@
    &&& post.userlist@ == if pre.userlist@.contains(user) {
        pre.userlist@
    } else {
        pre.userlist@.push(user)
    }
}

/// A server after `user` joined it: the member list and the first
/// channel's member list gain `user` unless already present; everything
/// else is unchanged.
pub open spec fn server_joined(pre: Server, post: Server, user: Id) -> bool {
    &&& post.id == pre.id
    &&& post.name == pre.name
    &&& post.description == pre.description
    &&& post.public == pre.public
    &&& post.invite_code == pre.invite_code
    &&& post.icon == pre.icon
    &&& post.banner == pre.banner
    &&& post.owner == pre.owner
    &&& post.mods@ == pre.mods@
    &&& post.userlist@ == if pre.userlist@.contains(user) {
        pre.userlist@
    } else {
        pre.userlist@.push(user)
    }
    &&& post.channels@.len() == pre.channels@.len()
    &&& pre.channels@.len() > 0 ==> channel_joined(pre.channels@[0], post.channels@[0], user)
    &&& forall|c: int| 1 <= c < pre.channels@.len() ==> post.channels@[c] == pre.channels@[c]
}

/// A server table after `user` joined the server with id `server_id`:
/// that server gains the member, every other server is untouched. When no
/// server carries the id, the table is unchanged.
pub open spec fn joined(pre: Seq<Server>, post: Seq<Server>, server_id: Id, user: Id) -> bool {
    &&& post.len() == pre.len()
    &&& forall|i: int|
        #![trigger post[i]]
        0 <= i < pre.len() && pre[i].id != server_id ==> post[i] == pre[i]
    &&& forall|i: int|
        #![trigger post[i]]
        0 <= i < pre.len() && pre[i].id == server_id ==> server_joined(pre[i], post[i], user)
}

/// Why an invite request was rejected.
#[derive(Clone, Copy, Debug, PartialEq, Eq, Structural)]
pub enum InviteError {
    /// A Pending invite for the same (inviter, invitee, server) triple
    /// already exists.
    AlreadyPending,
    /// The id of the offered invite is already taken.
    IdInUse,
    /// No invite matches the request.
    NotFound,
    /// The invite exists but was already resolved; resolution is terminal.
    NotPending,
    /// More than one Pending invite matches: inconsistent state, never
    /// resolved by guessing.
    Ambiguous,
}

/// The observable outcome of one invite resolution: the response event
/// owed to the inviter, and, on acceptance, the membership change owed to
/// the server's members.
#[derive(Clone, Copy, Debug)]
pub struct InviteResolution {
    pub invite_id: Id,
    pub inviter_id: Id,
    pub invitee_id: Id,
    pub server_id: Id,
    pub accepted: bool,
}

/// What a successful resolution of the invite at `i` promises.
pub open spec fn resolution_ok(
    pre: Seq<ServerInvite>,
    i: int,
    accept: bool,
    res: InviteResolution,
) -> bool {
    &&& res.invite_id == pre[i].id
    &&& res.inviter_id == pre[i].from_user.id
    &&& res.invitee_id == pre[i].to_user_id
    &&& res.server_id == pre[i].server.id
    &&& res.accepted == accept
}

/// The table of all invites, with its two structural invariants.
pub struct InviteTable {
    pub invites: Vec<ServerInvite>,
}

impl InviteTable {
    /// Both invariants: unique ids, at most one Pending per triple.
    pub open spec fn wf(self) -> bool {
        ids_unique(self.invites@) && pending_unique(self.invites@)
    }

    /// An empty, well-formed table.
    pub fn new() -> (r: InviteTable)
        ensures
            r.wf(),
            r.invites@.len() == 0,
    {
        InviteTable { invites: Vec::new() }
    }

    /// Records a new Pending invite.
    ///
    /// Fails with `AlreadyPending` when a Pending invite for the same
    /// (inviter, invitee, server) triple exists, and with `IdInUse` when
    /// the id is taken; otherwise the invite is appended. Nothing else
    /// ever changes.
    pub fn send_server_invite(&mut self, invite: ServerInvite) -> (r: Result<(), InviteError>)
        requires
            old(self).wf(),
            is_pending(invite),
        ensures
            final(self).wf(),
            r matches Err(e) ==> {
                &&& *final(self) == *old(self)
                &&& (e == InviteError::AlreadyPending <==> exists|j: int|
                    0 <= j < old(self).invites@.len() && is_pending(
                        #[trigger] old(self).invites@[j],
                    ) && same_triple(old(self).invites@[j], invite))
                &&& e == InviteError::AlreadyPending || e == InviteError::IdInUse
                &&& e == InviteError::IdInUse ==> exists|j: int|
                    0 <= j < old(self).invites@.len() && (#[trigger] old(
                        self,
                    ).invites@[j]).id == invite.id
            },
            r is Ok <==> {
                &&& forall|j: int|
                    0 <= j < old(self).invites@.len() ==> !(is_pending(
                        #[trigger] old(self).invites@[j],
                    ) && same_triple(old(self).invites@[j], invite))
                &&& forall|j: int|
                    0 <= j < old(self).invites@.len() ==> (#[trigger] old(
                        self,
                    ).invites@[j]).id != invite.id
            },
            r is Ok ==> final(self).invites@ == old(self).invites@.push(invite),
    {
        let ghost pre = self.invites@;
        let n = self.invites.len();
        let mut i: usize = 0;
        while i < n
            invariant
                i <= n,
                n == self.invites@.len(),
                self.invites@ == pre,
                ids_unique(pre),
                pending_unique(pre),
                forall|j: int|
                    0 <= j < i ==> !(is_pending(#[trigger] pre[j]) && same_triple(
                        pre[j],
                        invite,
                    )),
            decreases n - i,
        {
            let candidate = &self.invites[i];
            if candidate.status == ServerInviteStatus::Pending
                && candidate.from_user.id == invite.from_user.id
                && candidate.to_user_id == invite.to_user_id
                && candidate.server.id == invite.server.id {
                return Err(InviteError::AlreadyPending);
            }
            i = i + 1;
        }
        let mut k: usize = 0;
        while k < n
            invariant
                k <= n,
                n == self.invites@.len(),
                self.invites@ == pre,
                ids_unique(pre),
                pending_unique(pre),
                forall|j: int|
                    0 <= j < n ==> !(is_pending(#[trigger] pre[j]) && same_triple(
                        pre[j],
                        invite,
                    )),
                forall|j: int| 0 <= j < k ==> (#[trigger] pre[j]).id != invite.id,
            decreases n - k,
        {
            if self.invites[k].id == invite.id {
                return Err(InviteError::IdInUse);
            }
            k = k + 1;
        }
        self.invites.push(invite);
        proof {
            assert forall|a: int, b: int|
                #![trigger self.invites@[a], self.invites@[b]]
                0 <= a < b < self.invites@.len() implies self.invites@[a].id
                != self.invites@[b].id && (is_pending(self.invites@[a]) && is_pending(
                self.invites@[b],
            ) ==> !same_triple(self.invites@[a], self.invites@[b])) by {
                if b < pre.len() {
                    assert(pre[a] == self.invites@[a]);
                    assert(pre[b] == self.invites@[b]);
                }
            }
        }
        Ok(())
    }
}

/// The table after the invite at `i` expired: only its status changes.
pub open spec fn expire_at(s: Seq<ServerInvite>, i: int) -> Seq<ServerInvite> {
    s.update(i, ServerInvite { status: ServerInviteStatus::Expired, ..s[i] })
}

impl InviteTable {
    /// Expires the Pending invite with the given id, on behalf of the
    /// time-based sweep. Expiry is terminal: any further response
    /// attempt fails. Succeeds exactly when the id names a Pending
    /// invite; a failure changes nothing.
    pub fn expire_server_invite(&mut self, invite_id: Id) -> (r: Result<(), InviteError>)
        requires
            old(self).wf(),
        ensures
            final(self).wf(),
            r is Ok ==> exists|i: int|
                #![trigger old(self).invites@[i]]
                {
                    &&& 0 <= i < old(self).invites@.len()
                    &&& old(self).invites@[i].id == invite_id
                    &&& is_pending(old(self).invites@[i])
                    &&& final(self).invites@ == expire_at(old(self).invites@, i)
                },
            r matches Err(e) ==> {
                &&& *final(self) == *old(self)
                &&& e == InviteError::NotFound || e == InviteError::NotPending
                &&& e == InviteError::NotFound <==> forall|j: int|
                    0 <= j < old(self).invites@.len() ==> (#[trigger] old(
                        self,
                    ).invites@[j]).id != invite_id
                &&& e == InviteError::NotPending ==> exists|j: int|
                    #![trigger old(self).invites@[j]]
                    0 <= j < old(self).invites@.len() && old(self).invites@[j].id == invite_id
                        && !is_pending(old(self).invites@[j])
            },
    {
        let ghost pre = self.invites@;
        let n = self.invites.len();
        let mut i: usize = 0;
        loop
            invariant
                i <= n,
                n == self.invites@.len(),
                self.invites@ == pre,
                *self == *old(self),
                pre == old(self).invites@,
                ids_unique(pre),
                pending_unique(pre),
                forall|j: int| 0 <= j < i ==> (#[trigger] pre[j]).id != invite_id,
            ensures
                i <= n,
                self.invites@ == pre,
                *self == *old(self),
                forall|j: int| 0 <= j < i ==> (#[trigger] pre[j]).id != invite_id,
                i == n || pre[i as int].id == invite_id,
            decreases n - i,
        {
            if i == n {
                break;
            }
            if self.invites[i].id == invite_id {
                break;
            }
            i = i + 1;
        }
        if i == n {
            return Err(InviteError::NotFound);
        }
        if !(self.invites[i].status == ServerInviteStatus::Pending) {
            return Err(InviteError::NotPending);
        }
        let mut inv = self.invites.remove(i);
        inv.status = ServerInviteStatus::Expired;
        self.invites.insert(i, inv);
        proof {
            assert(self.invites@ =~= expire_at(pre, i as int));
            assert forall|a: int, b: int|
                #![trigger self.invites@[a], self.invites@[b]]
                0 <= a < b < self.invites@.len() implies self.invites@[a].id
                != self.invites@[b].id && (is_pending(self.invites@[a]) && is_pending(
                self.invites@[b],
            ) ==> !same_triple(self.invites@[a], self.invites@[b])) by {
                assert(pre[a].id == self.invites@[a].id);
                assert(pre[b].id == self.invites@[b].id);
            }
        }
        Ok(())
    }
}

/// Server ids never repeat in a server table.
pub open spec fn server_ids_unique(s: Seq<Server>) -> bool {
    forall|i: int, j: int|
        #![trigger s[i], s[j]]
        0 <= i < j < s.len() ==> s[i].id != s[j].id
}

/// Adds `user` to a server's member list and to its first channel's
/// member list, unless already present.
fn add_member_to_server(srv: &mut Server, user: Id)
    ensures
        server_joined(*old(srv), *final(srv), user),
{
    if !contains_id(&srv.userlist, user) {
        srv.userlist.push(user);
    }
    let ghost mid_channels = srv.channels@;
    if srv.channels.len() > 0 {
        let mut ch = srv.channels.remove(0);
        if !contains_id(&ch.userlist, user) {
            ch.userlist.push(user);
        }
        srv.channels.insert(0, ch);
        proof {
            assert(srv.channels@ =~= mid_channels.update(0, srv.channels@[0]));
        }
    }
}

/// Adds `user` to the member lists of the server carrying `server_id`;
/// every other server is untouched, and a table without that id is left
/// unchanged.
pub fn join_server(servers: &mut Vec<Server>, server_id: Id, user: Id)
    requires
        server_ids_unique(old(servers)@),
    ensures
        joined(old(servers)@, final(servers)@, server_id, user),
{
    let ghost pre = servers@;
    let n = servers.len();
    let mut i: usize = 0;
    loop
        invariant
            i <= n,
            n == servers@.len(),
            servers@ == pre,
            forall|j: int| 0 <= j < i ==> (#[trigger] pre[j]).id != server_id,
        ensures
            i <= n,
            servers@ == pre,
            forall|j: int| 0 <= j < i ==> (#[trigger] pre[j]).id != server_id,
            i == n || pre[i as int].id == server_id,
        decreases n - i,
    {
        if i == n {
            break;
        }
        if servers[i].id == server_id {
            break;
        }
        i = i + 1;
    }
    if i == n {
        return;
    }
    let mut srv = servers.remove(i);
    add_member_to_server(&mut srv, user);
    servers.insert(i, srv);
    proof {
        assert(servers@ =~= pre.update(i as int, servers@[i as int]));
        assert forall|j: int| 0 <= j < pre.len() && pre[j].id == server_id implies j == i as int by {
            if j != i as int {
                if j < i as int {
                    assert(pre[j].id != server_id);
                } else {
                    assert(pre[i as int].id != pre[j].id);
                }
            }
        }
    }
}

/// What a resolution of the invite at `i` leaves behind: the invite
/// resolved, the server table updated on acceptance, untouched on
/// decline, and the response event filled from the invite.
pub open spec fn resolution_post(
    pre_inv: Seq<ServerInvite>,
    post_inv: Seq<ServerInvite>,
    pre_srv: Seq<Server>,
    post_srv: Seq<Server>,
    i: int,
    accept: bool,
    res: InviteResolution,
) -> bool {
    &&& is_pending(pre_inv[i])
    &&& post_inv == resolve_at(pre_inv, i, accept)
    &&& resolution_ok(pre_inv, i, accept, res)
    &&& accept ==> joined(pre_srv, post_srv, pre_inv[i].server.id, pre_inv[i].to_user_id)
    &&& !accept ==> post_srv == pre_srv
}

/// What `respond_to_server_invite` promises of its result.
pub open spec fn respond_post(
    pre_inv: Seq<ServerInvite>,
    post_inv: Seq<ServerInvite>,
    pre_srv: Seq<Server>,
    post_srv: Seq<Server>,
    invite_id: Id,
    accept: bool,
    r: Result<InviteResolution, InviteError>,
) -> bool {
    match r {
        Ok(res) => exists|i: int|
            #![trigger pre_inv[i]]
            {
                &&& 0 <= i < pre_inv.len()
                &&& pre_inv[i].id == invite_id
                &&& resolution_post(pre_inv, post_inv, pre_srv, post_srv, i, accept, res)
            },
        Err(e) => {
            &&& post_inv == pre_inv
            &&& post_srv == pre_srv
            &&& e == InviteError::NotFound || e == InviteError::NotPending
            &&& e == InviteError::NotFound <==> forall|j: int|
                0 <= j < pre_inv.len() ==> (#[trigger] pre_inv[j]).id != invite_id
            &&& e == InviteError::NotPending ==> exists|j: int|
                #![trigger pre_inv[j]]
                0 <= j < pre_inv.len() && pre_inv[j].id == invite_id && !is_pending(pre_inv[j])
        },
    }
}

impl InviteTable {
    /// Resolves the Pending invite with the given id to Accepted or
    /// Declined; resolution is terminal and observable exactly once.
    ///
    /// Succeeds exactly when the id names a Pending invite: a missing id
    /// fails with `NotFound`, an already resolved invite with
    /// `NotPending`, and a failure changes nothing. On acceptance the
    /// invitee joins the target server and its first channel.
    pub fn respond_to_server_invite(
        &mut self,
        invite_id: Id,
        accept: bool,
        servers: &mut Vec<Server>,
    ) -> (r: Result<InviteResolution, InviteError>)
        requires
            old(self).wf(),
            server_ids_unique(old(servers)@),
        ensures
            final(self).wf(),
            respond_post(
                old(self).invites@,
                final(self).invites@,
                old(servers)@,
                final(servers)@,
                invite_id,
                accept,
                r,
            ),
    {
        let ghost pre = self.invites@;
        let n = self.invites.len();
        let mut i: usize = 0;
        loop
            invariant
                i <= n,
                n == self.invites@.len(),
                self.invites@ == pre,
                forall|j: int| 0 <= j < i ==> (#[trigger] pre[j]).id != invite_id,
            ensures
                i <= n,
                self.invites@ == pre,
                forall|j: int| 0 <= j < i ==> (#[trigger] pre[j]).id != invite_id,
                i == n || pre[i as int].id == invite_id,
            decreases n - i,
        {
            if i == n {
                break;
            }
            if self.invites[i].id == invite_id {
                break;
            }
            i = i + 1;
        }
        if i == n {
            return Err(InviteError::NotFound);
        }
        if !(self.invites[i].status == ServerInviteStatus::Pending) {
            return Err(InviteError::NotPending);
        }
        let mut inv = self.invites.remove(i);
        let res = InviteResolution {
            invite_id: inv.id,
            inviter_id: inv.from_user.id,
            invitee_id: inv.to_user_id,
            server_id: inv.server.id,
            accepted: accept,
        };
        inv.status = if accept {
            ServerInviteStatus::Accepted
        } else {
            ServerInviteStatus::Declined
        };
        self.invites.insert(i, inv);
        proof {
            assert(self.invites@ =~= resolve_at(pre, i as int, accept));
            assert forall|a: int, b: int|
                #![trigger self.invites@[a], self.invites@[b]]
                0 <= a < b < self.invites@.len() implies self.invites@[a].id
                != self.invites@[b].id && (is_pending(self.invites@[a]) && is_pending(
                self.invites@[b],
            ) ==> !same_triple(self.invites@[a], self.invites@[b])) by {
                assert(pre[a].id == self.invites@[a].id);
                assert(pre[b].id == self.invites@[b].id);
            }
        }
        if accept {
            join_server(servers, res.server_id, res.invitee_id);
        }
        Ok(res)
    }
}

/// What resolving by inviter identity promises: success exactly when one
/// single Pending invite runs from `from` to `to`; none fails with
/// `NotFound`, several fail as inconsistent state, and a failure changes
/// nothing.
pub open spec fn resolve_from_user_post(
    pre_inv: Seq<ServerInvite>,
    post_inv: Seq<ServerInvite>,
    pre_srv: Seq<Server>,
    post_srv: Seq<Server>,
    from: Id,
    to: Id,
    accept: bool,
    r: Result<InviteResolution, InviteError>,
) -> bool {
    match r {
        Ok(res) => exists|i: int|
            #![trigger pre_inv[i]]
            {
                &&& 0 <= i < pre_inv.len()
                &&& pending_between(pre_inv[i], from, to)
                &&& forall|j: int|
                    0 <= j < pre_inv.len() && j != i ==> !pending_between(
                        #[trigger] pre_inv[j],
                        from,
                        to,
                    )
                &&& resolution_post(pre_inv, post_inv, pre_srv, post_srv, i, accept, res)
            },
        Err(e) => {
            &&& post_inv == pre_inv
            &&& post_srv == pre_srv
            &&& e == InviteError::NotFound || e == InviteError::Ambiguous
            &&& e == InviteError::NotFound <==> forall|j: int|
                0 <= j < pre_inv.len() ==> !pending_between(#[trigger] pre_inv[j], from, to)
            &&& e == InviteError::Ambiguous ==> exists|a: int, b: int|
                #![trigger pre_inv[a], pre_inv[b]]
                0 <= a < b < pre_inv.len() && pending_between(pre_inv[a], from, to)
                    && pending_between(pre_inv[b], from, to)
        },
    }
}

impl InviteTable {
    /// Resolves by inviter identity: finds the single Pending invite from
    /// `from_user_id` to `responder_id` and resolves it. More than one
    /// match is a structural violation of the uniqueness invariant and is
    /// rejected as inconsistent state rather than guessed.
    pub fn resolve_from_user(
        &mut self,
        from_user_id: Id,
        responder_id: Id,
        accept: bool,
        servers: &mut Vec<Server>,
    ) -> (r: Result<InviteResolution, InviteError>)
        requires
            old(self).wf(),
            server_ids_unique(old(servers)@),
        ensures
            final(self).wf(),
            resolve_from_user_post(
                old(self).invites@,
                final(self).invites@,
                old(servers)@,
                final(servers)@,
                from_user_id,
                responder_id,
                accept,
                r,
            ),
    {
        let ghost pre = self.invites@;
        let n = self.invites.len();
        let mut i: usize = 0;
        loop
            invariant
                i <= n,
                n == self.invites@.len(),
                self.invites@ == pre,
                forall|j: int|
                    0 <= j < i ==> !pending_between(#[trigger] pre[j], from_user_id, responder_id),
            ensures
                i <= n,
                self.invites@ == pre,
                forall|j: int|
                    0 <= j < i ==> !pending_between(#[trigger] pre[j], from_user_id, responder_id),
                i == n || pending_between(pre[i as int], from_user_id, responder_id),
            decreases n - i,
        {
            if i == n {
                break;
            }
            let candidate = &self.invites[i];
            if candidate.status == ServerInviteStatus::Pending && candidate.from_user.id
                == from_user_id && candidate.to_user_id == responder_id {
                break;
            }
            i = i + 1;
        }
        if i == n {
            return Err(InviteError::NotFound);
        }
        let mut k: usize = i + 1;
        loop
            invariant
                i < k <= n,
                n == self.invites@.len(),
                self.invites@ == pre,
                pending_between(pre[i as int], from_user_id, responder_id),
                forall|j: int|
                    i < j < k ==> !pending_between(#[trigger] pre[j], from_user_id, responder_id),
            ensures
                i < k <= n,
                self.invites@ == pre,
                forall|j: int|
                    i < j < k ==> !pending_between(#[trigger] pre[j], from_user_id, responder_id),
                k == n || pending_between(pre[k as int], from_user_id, responder_id),
            decreases n - k,
        {
            if k == n {
                break;
            }
            let candidate = &self.invites[k];
            if candidate.status == ServerInviteStatus::Pending && candidate.from_user.id
                == from_user_id && candidate.to_user_id == responder_id {
                break;
            }
            k = k + 1;
        }
        if k < n {
            return Err(InviteError::Ambiguous);
        }
        let invite_id = self.invites[i].id;
        let r = self.respond_to_server_invite(invite_id, accept, servers);
        match r {
            Ok(res) => {
                proof {
                    let i0 = choose|i0: int|
                        #![trigger pre[i0]]
                        0 <= i0 < pre.len() && pre[i0].id == invite_id && resolution_post(
                            pre,
                            self.invites@,
                            old(servers)@,
                            servers@,
                            i0,
                            accept,
                            res,
                        );
                    assert(pre[i as int].id == invite_id);
                    if i0 != i as int {
                        assert(pre[i0].id != pre[i as int].id);
                        assert(false);
                    }
                }
                Ok(res)
            },
            Err(_) => {
                proof {
                    assert(pre[i as int].id == invite_id);
                    assert(is_pending(pre[i as int]));
                    assert(false);
                }
                Err(InviteError::NotFound)
            },
        }
    }

    /// Accepts the single Pending invite from `from_user_id` addressed to
    /// `responder_id`; equivalent to responding to that invite by id.
    pub fn accept_server_invite_from_user(
        &mut self,
        from_user_id: Id,
        responder_id: Id,
        servers: &mut Vec<Server>,
    ) -> (r: Result<InviteResolution, InviteError>)
        requires
            old(self).wf(),
            server_ids_unique(old(servers)@),
        ensures
            final(self).wf(),
            resolve_from_user_post(
                old(self).invites@,
                final(self).invites@,
                old(servers)@,
                final(servers)@,
                from_user_id,
                responder_id,
                true,
                r,
            ),
    {
        self.resolve_from_user(from_user_id, responder_id, true, servers)
    }

    /// Declines the single Pending invite from `from_user_id` addressed to
    /// `responder_id`; equivalent to responding to that invite by id.
    pub fn decline_server_invite_from_user(
        &mut self,
        from_user_id: Id,
        responder_id: Id,
        servers: &mut Vec<Server>,
    ) -> (r: Result<InviteResolution, InviteError>)
        requires
            old(self).wf(),
            server_ids_unique(old(servers)@),
        ensures
            final(self).wf(),
            resolve_from_user_post(
                old(self).invites@,
                final(self).invites@,
                old(servers)@,
                final(servers)@,
                from_user_id,
                responder_id,
                false,
                r,
            ),
    {
        self.resolve_from_user(from_user_id, responder_id, false, servers)
    }
}

/// The structural invariant of a server: every channel's member list is
/// a subset of the server's member list.
pub open spec fn server_members_wf(s: Server) -> bool {
    forall|c: int, k: int|
        0 <= c < s.channels@.len() && 0 <= k < s.channels@[c].userlist@.len()
            ==> s.userlist@.contains(#[trigger] s.channels@[c].userlist@[k])
}

/// Joining preserves the membership invariant: the invitee enters a
/// channel's member list only together with the server's own list.
pub proof fn lemma_join_preserves_members(pre: Server, post: Server, user: Id)
    requires
        server_members_wf(pre),
        server_joined(pre, post, user),
    ensures
        server_members_wf(post),
{
    assert forall|c: int, k: int|
        0 <= c < post.channels@.len() && 0 <= k < post.channels@[c].userlist@.len()
        implies post.userlist@.contains(#[trigger] post.channels@[c].userlist@[k]) by {
        let x = post.channels@[c].userlist@[k];
        assert(post.userlist@ == if pre.userlist@.contains(user) {
            pre.userlist@
        } else {
            pre.userlist@.push(user)
        });
        if c == 0 && pre.channels@.len() > 0 {
            let pre_list = pre.channels@[0].userlist@;
            if pre_list.contains(user) {
                assert(x == pre_list[k]);
                assert(pre.userlist@.contains(x));
                if !pre.userlist@.contains(user) {
                    let w = choose|w: int| 0 <= w < pre.userlist@.len() && pre.userlist@[w] == x;
                    assert(pre.userlist@.push(user)[w] == x);
                }
            } else {
                if k < pre_list.len() {
                    assert(x == pre_list[k]);
                    assert(pre.userlist@.contains(x));
                    if !pre.userlist@.contains(user) {
                        let w = choose|w: int|
                            0 <= w < pre.userlist@.len() && pre.userlist@[w] == x;
                        assert(pre.userlist@.push(user)[w] == x);
                    }
                } else {
                    assert(x == user);
                    if pre.userlist@.contains(user) {
                    } else {
                        assert(pre.userlist@.push(user)[pre.userlist@.len() as int] == user);
                    }
                }
            }
        } else {
            assert(post.channels@[c] == pre.channels@[c]);
            assert(x == pre.channels@[c].userlist@[k]);
            assert(pre.userlist@.contains(x));
            if !pre.userlist@.contains(user) {
                let w = choose|w: int| 0 <= w < pre.userlist@.len() && pre.userlist@[w] == x;
                assert(pre.userlist@.push(user)[w] == x);
            }
        }
    }
}

/// Invite uniqueness: in a well-formed table — and every operation here
/// keeps the table well-formed — two Pending invites never share their
/// (inviter, invitee, server) triple.
pub proof fn lemma_pending_unique(t: InviteTable, i: int, j: int)
    requires
        t.wf(),
        0 <= i < t.invites@.len(),
        0 <= j < t.invites@.len(),
        is_pending(t.invites@[i]),
        is_pending(t.invites@[j]),
        same_triple(t.invites@[i], t.invites@[j]),
    ensures
        i == j,
{
    if i < j {
        assert(!same_triple(t.invites@[i], t.invites@[j]));
    }
    if j < i {
        assert(!same_triple(t.invites@[j], t.invites@[i]));
    }
}

/// Invite resolution determinism: with exactly one Pending invite between
/// an inviter and a responder, resolving by inviter identity concerns
/// exactly the invite that resolving by its id concerns, and both leave
/// the table in the same state.
pub proof fn lemma_resolution_deterministic(
    s: Seq<ServerInvite>,
    from: Id,
    to: Id,
    i: int,
    j: int,
    accept: bool,
)
    requires
        ids_unique(s),
        0 <= i < s.len(),
        pending_between(s[i], from, to),
        forall|k: int| 0 <= k < s.len() && k != i ==> !pending_between(#[trigger] s[k], from, to),
        0 <= j < s.len(),
        s[j].id == s[i].id,
    ensures
        j == i,
        resolve_at(s, j, accept) == resolve_at(s, i, accept),
{
    if j != i {
        if i < j {
            assert(s[i].id != s[j].id);
        } else {
            assert(s[j].id != s[i].id);
        }
    }
}

} // verus!
