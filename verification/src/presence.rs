//! Presence and membership synchronization: the registry of live
//! connections, per-connection bounded outbound queues, and user status
//! updates.
//!
//! A broadcast never goes to "all": it goes to the connections of a
//! recipient set, each over its own bounded queue. A slow consumer loses
//! events rather than stalling the producer, and events kept in one queue
//! stay in enqueue order.
use vstd::prelude::*;

use crate::color::UserColor;
use crate::schema::{contains_id, Id, User, UserRole, UserStatus};

verus! {

/// One live connection: the connection id and the user it serves.
#[derive(Clone, Copy, Debug, PartialEq, Eq, Structural)]
pub struct ConnectionEntry {
    pub conn_id: Id,
    pub user_id: Id,
}

/// Connection ids never repeat in a registry.
pub open spec fn conn_ids_unique(s: Seq<ConnectionEntry>) -> bool {
    forall|i: int, j: int|
        #![trigger s[i], s[j]]
        0 <= i < j < s.len() ==> s[i].conn_id != s[j].conn_id
}

/// Why a registry request was rejected.
#[derive(Clone, Copy, Debug, PartialEq, Eq, Structural)]
pub enum PresenceError {
    /// The connection id is already registered.
    DuplicateConnection,
    /// No entry carries the requested connection id.
    NotFound,
}

/// The connections a broadcast reaches: those serving a user of the
/// recipient set, in registry order.
pub open spec fn recipients_of(entries: Seq<ConnectionEntry>, members: Seq<Id>) -> Seq<Id>
    decreases entries.len(),
{
    if entries.len() == 0 {
        Seq::empty()
    } else {
        let rest = recipients_of(entries.drop_last(), members);
        if members.contains(entries.last().user_id) {
            rest.push(entries.last().conn_id)
        } else {
            rest
        }
    }
}

/// The registry mapping each live connection to its user: the fan-out
/// list of every broadcast.
pub struct ConnectionRegistry {
    pub entries: Vec<ConnectionEntry>,
}

impl ConnectionRegistry {
    /// Invariant: connection ids are unique.
    pub open spec fn wf(self) -> bool {
        conn_ids_unique(self.entries@)
    }

    /// An empty, well-formed registry.
    pub fn new() -> (r: ConnectionRegistry)
        ensures
            r.wf(),
            r.entries@.len() == 0,
    {
        ConnectionRegistry { entries: Vec::new() }
    }

    /// Registers a fresh connection. Succeeds exactly when the
    /// connection id is new; a failure changes nothing.
    pub fn register(&mut self, conn_id: Id, user_id: Id) -> (r: Result<(), PresenceError>)
        requires
            old(self).wf(),
        ensures
            final(self).wf(),
            r is Ok <==> forall|j: int|
                0 <= j < old(self).entries@.len() ==> (#[trigger] old(
                    self,
                ).entries@[j]).conn_id != conn_id,
            r is Ok ==> final(self).entries@ == old(self).entries@.push(
                ConnectionEntry { conn_id, user_id },
            ),
            r matches Err(e) ==> e == PresenceError::DuplicateConnection && *final(self) == *old(
                self,
            ),
    {
        let ghost pre = self.entries@;
        let n = self.entries.len();
        let mut i: usize = 0;
        while i < n
            invariant
                i <= n,
                n == self.entries@.len(),
                self.entries@ == pre,
                *self == *old(self),
                conn_ids_unique(pre),
                forall|j: int| 0 <= j < i ==> (#[trigger] pre[j]).conn_id != conn_id,
            decreases n - i,
        {
            if self.entries[i].conn_id == conn_id {
                return Err(PresenceError::DuplicateConnection);
            }
            i = i + 1;
        }
        self.entries.push(ConnectionEntry { conn_id, user_id });
        proof {
            assert forall|a: int, b: int|
                #![trigger self.entries@[a], self.entries@[b]]
                0 <= a < b < self.entries@.len() implies self.entries@[a].conn_id
                != self.entries@[b].conn_id by {
                if b < pre.len() {
                    assert(pre[a] == self.entries@[a]);
                    assert(pre[b] == self.entries@[b]);
                }
            }
        }
        Ok(())
    }

    /// Drops a connection from the registry. Succeeds exactly when the
    /// connection id is present; a failure changes nothing.
    pub fn unregister(&mut self, conn_id: Id) -> (r: Result<(), PresenceError>)
        requires
            old(self).wf(),
        ensures
            final(self).wf(),
            r is Ok <==> exists|j: int|
                0 <= j < old(self).entries@.len() && (#[trigger] old(
                    self,
                ).entries@[j]).conn_id == conn_id,
            r is Ok ==> exists|j: int|
                #![trigger old(self).entries@[j]]
                0 <= j < old(self).entries@.len() && old(self).entries@[j].conn_id == conn_id
                    && final(self).entries@ == old(self).entries@.remove(j),
            r matches Err(e) ==> e == PresenceError::NotFound && *final(self) == *old(self),
    {
        let ghost pre = self.entries@;
        let n = self.entries.len();
        let mut i: usize = 0;
        while i < n
            invariant
                i <= n,
                n == self.entries@.len(),
                self.entries@ == pre,
                *self == *old(self),
                pre == old(self).entries@,
                conn_ids_unique(pre),
                forall|j: int| 0 <= j < i ==> (#[trigger] pre[j]).conn_id != conn_id,
            decreases n - i,
        {
            if self.entries[i].conn_id == conn_id {
                self.entries.remove(i);
                proof {
                    assert forall|a: int, b: int|
                        #![trigger self.entries@[a], self.entries@[b]]
                        0 <= a < b < self.entries@.len() implies self.entries@[a].conn_id
                        != self.entries@[b].conn_id by {
                        let x: int = if a < i as int {
                            a
                        } else {
                            a + 1
                        };
                        let y: int = if b < i as int {
                            b
                        } else {
                            b + 1
                        };
                        assert(self.entries@[a] == pre[x]);
                        assert(self.entries@[b] == pre[y]);
                    }
                }
                return Ok(());
            }
            i = i + 1;
        }
        Err(PresenceError::NotFound)
    }

    /// Tears a connection down, as on an idle timeout: drops it from the
    /// registry and moves its user Offline in one step, returning the
    /// user id so the caller can broadcast the membership change.
    /// Succeeds exactly when the connection id is present; a failure
    /// changes nothing.
    pub fn disconnect(&mut self, conn_id: Id, users: &mut Vec<User>) -> (r: Result<
        Id,
        PresenceError,
    >)
        requires
            old(self).wf(),
        ensures
            final(self).wf(),
            r is Ok <==> exists|j: int|
                0 <= j < old(self).entries@.len() && (#[trigger] old(
                    self,
                ).entries@[j]).conn_id == conn_id,
            r matches Ok(user_id) ==> exists|j: int|
                #![trigger old(self).entries@[j]]
                {
                    &&& 0 <= j < old(self).entries@.len()
                    &&& old(self).entries@[j].conn_id == conn_id
                    &&& user_id == old(self).entries@[j].user_id
                    &&& final(self).entries@ == old(self).entries@.remove(j)
                    &&& final(users)@ == status_set(old(users)@, user_id, UserStatus::Offline)
                },
            r matches Err(e) ==> e == PresenceError::NotFound && *final(self) == *old(self)
                && *final(users) == *old(users),
    {
        let ghost pre = self.entries@;
        let n = self.entries.len();
        let mut i: usize = 0;
        while i < n
            invariant
                i <= n,
                n == self.entries@.len(),
                self.entries@ == pre,
                *self == *old(self),
                *users == *old(users),
                pre == old(self).entries@,
                conn_ids_unique(pre),
                forall|j: int| 0 <= j < i ==> (#[trigger] pre[j]).conn_id != conn_id,
            decreases n - i,
        {
            if self.entries[i].conn_id == conn_id {
                let user_id = self.entries[i].user_id;
                self.entries.remove(i);
                set_status(users, user_id, UserStatus::Offline);
                proof {
                    assert forall|a: int, b: int|
                        #![trigger self.entries@[a], self.entries@[b]]
                        0 <= a < b < self.entries@.len() implies self.entries@[a].conn_id
                        != self.entries@[b].conn_id by {
                        let x: int = if a < i as int {
                            a
                        } else {
                            a + 1
                        };
                        let y: int = if b < i as int {
                            b
                        } else {
                            b + 1
                        };
                        assert(self.entries@[a] == pre[x]);
                        assert(self.entries@[b] == pre[y]);
                    }
                }
                return Ok(user_id);
            }
            i = i + 1;
        }
        Err(PresenceError::NotFound)
    }

    /// Computes the fan-out list for a broadcast to the given users: the
    /// connection ids serving them, in registry order.
    pub fn broadcast_recipients(&self, members: &Vec<Id>) -> (r: Vec<Id>)
        ensures
            r@ == recipients_of(self.entries@, members@),
    {
        let n = self.entries.len();
        let mut out: Vec<Id> = Vec::new();
        let mut i: usize = 0;
        while i < n
            invariant
                i <= n,
                n == self.entries@.len(),
                out@ == recipients_of(self.entries@.subrange(0, i as int), members@),
            decreases n - i,
        {
            proof {
                assert(self.entries@.subrange(0, i as int + 1).drop_last() =~= self.entries@
                    .subrange(0, i as int));
                assert(self.entries@.subrange(0, i as int + 1).last() == self.entries@[i as int]);
            }
            if contains_id(members, self.entries[i].user_id) {
                out.push(self.entries[i].conn_id);
            }
            i = i + 1;
        }
        proof {
            assert(self.entries@.subrange(0, n as int) =~= self.entries@);
        }
        out
    }
}

/// The user table after the user carrying `user_id` moved to `status`;
/// nothing else of any user changes.
pub open spec fn status_set(s: Seq<User>, user_id: Id, status: UserStatus) -> Seq<User> {
    Seq::new(
        s.len(),
        |i: int|
            if s[i].id == user_id {
                User { status, ..s[i] }
            } else {
                s[i]
            },
    )
}

/// Sets the live status of the user carrying `user_id`; reports whether
/// any user matched.
pub fn set_status(users: &mut Vec<User>, user_id: Id, status: UserStatus) -> (found: bool)
    ensures
        final(users)@ == status_set(old(users)@, user_id, status),
        found == exists|j: int|
            0 <= j < old(users)@.len() && (#[trigger] old(users)@[j]).id == user_id,
{
    let ghost pre = users@;
    let n = users.len();
    let mut found = false;
    let mut i: usize = 0;
    while i < n
        invariant
            i <= n,
            n == users@.len(),
            pre == old(users)@,
            users@.len() == pre.len(),
            forall|j: int| i <= j < n ==> users@[j] == pre[j],
            forall|j: int| 0 <= j < i ==> users@[j] == status_set(pre, user_id, status)[j],
            found == exists|j: int| 0 <= j < i && (#[trigger] pre[j]).id == user_id,
        decreases n - i,
    {
        if users[i].id == user_id {
            let mut u = users.remove(i);
            u.status = status;
            users.insert(i, u);
            found = true;
            proof {
                assert(pre[i as int].id == user_id);
            }
        }
        i = i + 1;
    }
    proof {
        assert(users@ =~= status_set(pre, user_id, status));
    }
    found
}

/// Whether the user table holds a user carrying `id`.
pub open spec fn has_user(s: Seq<User>, id: Id) -> bool {
    exists|i: int| 0 <= i < s.len() && (#[trigger] s[i]).id == id
}

/// Whether the user carrying `actor_id` may mutate the appearance of the
/// user carrying `target_id`: its owner, or an Admin.
pub open spec fn may_edit_user(s: Seq<User>, actor_id: Id, target_id: Id) -> bool {
    exists|i: int|
        0 <= i < s.len() && (#[trigger] s[i]).id == actor_id && (actor_id == target_id
            || s[i].role == UserRole::Admin)
}

/// User ids never repeat in a table.
pub open spec fn user_ids_unique(s: Seq<User>) -> bool {
    forall|i: int, j: int|
        #![trigger s[i], s[j]]
        0 <= i < j < s.len() ==> s[i].id != s[j].id
}

/// Why a profile mutation was rejected.
#[derive(Clone, Copy, Debug, PartialEq, Eq, Structural)]
pub enum ProfileError {
    /// No user carries the acting id.
    UnknownActor,
    /// The actor is neither the owner of the record nor an Admin.
    Forbidden,
    /// No user carries the targeted id.
    UnknownTarget,
}

/// The user table after the user carrying `target_id` changed display
/// color; nothing else of any user changes.
pub open spec fn color_set(s: Seq<User>, target_id: Id, color: UserColor) -> Seq<User> {
    Seq::new(
        s.len(),
        |i: int|
            if s[i].id == target_id {
                User { color, ..s[i] }
            } else {
                s[i]
            },
    )
}

/// Changes a user's display color under the mutation policy: only the
/// record's owner or an Admin may change it, and a rejected request
/// changes nothing.
pub fn update_user_color(users: &mut Vec<User>, actor_id: Id, target_id: Id, color: UserColor)
    -> (r: Result<(), ProfileError>)
    requires
        user_ids_unique(old(users)@),
    ensures
        r is Ok <==> may_edit_user(old(users)@, actor_id, target_id) && has_user(
            old(users)@,
            target_id,
        ),
        r is Ok ==> final(users)@ == color_set(old(users)@, target_id, color),
        r matches Err(e) ==> {
            &&& *final(users) == *old(users)
            &&& e == ProfileError::UnknownActor <==> !has_user(old(users)@, actor_id)
            &&& e == ProfileError::Forbidden <==> has_user(old(users)@, actor_id)
                && !may_edit_user(old(users)@, actor_id, target_id)
            &&& e == ProfileError::UnknownTarget ==> !has_user(old(users)@, target_id)
        },
{
    let ghost pre = users@;
    let n = users.len();
    let mut a: usize = 0;
    loop
        invariant
            a <= n,
            n == users@.len(),
            users@ == pre,
            *users == *old(users),
            pre == old(users)@,
            user_ids_unique(pre),
            forall|j: int| 0 <= j < a ==> (#[trigger] pre[j]).id != actor_id,
        ensures
            a <= n,
            users@ == pre,
            *users == *old(users),
            forall|j: int| 0 <= j < a ==> (#[trigger] pre[j]).id != actor_id,
            a == n || pre[a as int].id == actor_id,
        decreases n - a,
    {
        if a == n {
            break;
        }
        if users[a].id == actor_id {
            break;
        }
        a = a + 1;
    }
    if a == n {
        proof {
            assert forall|i: int|
                0 <= i < pre.len() implies !((#[trigger] pre[i]).id == actor_id && (actor_id
                == target_id || pre[i].role == UserRole::Admin)) by {
                assert(pre[i].id != actor_id);
            }
        }
        return Err(ProfileError::UnknownActor);
    }
    let allowed = actor_id == target_id || {
        let role = users[a].role;
        role.at_least(UserRole::Admin)
    };
    if !allowed {
        proof {
            assert forall|i: int|
                0 <= i < pre.len() implies !((#[trigger] pre[i]).id == actor_id && (actor_id
                == target_id || pre[i].role == UserRole::Admin)) by {
                if pre[i].id == actor_id && i != a as int {
                    if i < a as int {
                        assert(pre[i].id != actor_id);
                    } else {
                        assert(pre[a as int].id != pre[i].id);
                    }
                }
            }
        }
        return Err(ProfileError::Forbidden);
    }
    let mut t: usize = 0;
    loop
        invariant
            t <= n,
            n == users@.len(),
            users@ == pre,
            *users == *old(users),
            pre == old(users)@,
            user_ids_unique(pre),
            may_edit_user(pre, actor_id, target_id),
            forall|j: int| 0 <= j < t ==> (#[trigger] pre[j]).id != target_id,
        ensures
            t <= n,
            users@ == pre,
            *users == *old(users),
            forall|j: int| 0 <= j < t ==> (#[trigger] pre[j]).id != target_id,
            t == n || pre[t as int].id == target_id,
        decreases n - t,
    {
        if t == n {
            break;
        }
        if users[t].id == target_id {
            break;
        }
        t = t + 1;
    }
    if t == n {
        return Err(ProfileError::UnknownTarget);
    }
    let mut u = users.remove(t);
    u.color = color;
    users.insert(t, u);
    proof {
        assert forall|j: int| 0 <= j < pre.len() && j != t ==> (#[trigger] pre[j]).id
            != target_id by {
            if 0 <= j < pre.len() && j != t && pre[j].id == target_id {
                if j < t as int {
                    assert(pre[j].id != pre[t as int].id);
                } else {
                    assert(pre[t as int].id != pre[j].id);
                }
            }
        }
        assert(users@ =~= color_set(pre, target_id, color));
    }
    Ok(())
}

/// A connection's bounded outbound delivery queue. A full queue drops the
/// event rather than stalling the producer; kept events stay in enqueue
/// order.
pub struct OutboundQueue<T> {
    pub events: Vec<T>,
    pub capacity: usize,
}

impl<T> OutboundQueue<T> {
    /// Invariant: never over capacity.
    pub open spec fn wf(self) -> bool {
        self.events@.len() <= self.capacity
    }

    /// An empty queue with the given bound.
    pub fn new(capacity: usize) -> (q: OutboundQueue<T>)
        ensures
            q.wf(),
            q.capacity == capacity,
            q.events@.len() == 0,
    {
        OutboundQueue { events: Vec::new(), capacity }
    }

    /// Appends an event unless the queue is full; reports whether it was
    /// kept. Events already kept never move.
    pub fn enqueue(&mut self, ev: T) -> (kept: bool)
        requires
            old(self).wf(),
        ensures
            final(self).wf(),
            final(self).capacity == old(self).capacity,
            kept == (old(self).events@.len() < old(self).capacity),
            kept ==> final(self).events@ == old(self).events@.push(ev),
            !kept ==> *final(self) == *old(self),
    {
        if self.events.len() < self.capacity {
            self.events.push(ev);
            true
        } else {
            false
        }
    }

    /// Removes and returns the oldest event; delivery follows enqueue
    /// order.
    pub fn dequeue(&mut self) -> (r: Option<T>)
        ensures
            final(self).capacity == old(self).capacity,
            old(self).events@.len() == 0 ==> r is None && *final(self) == *old(self),
            old(self).events@.len() > 0 ==> (r matches Some(ev) && ev == old(self).events@[0]
                && final(self).events@ == old(self).events@.drop_first()),
    {
        if self.events.len() > 0 {
            let ev = self.events.remove(0);
            proof {
                assert(self.events@ =~= old(self).events@.drop_first());
            }
            Some(ev)
        } else {
            None
        }
    }
}

} // verus!
