//! Creation, ordering and read-state tracking of user-facing
//! notifications.
//!
//! The table keeps notifications oldest first, strictly ordered by
//! (created_at, id), with unique ids: exactly the shape the pagination
//! engine serves. Marking a notification read is idempotent; nothing else
//! of a notification ever changes.
use vstd::prelude::*;

use crate::pagination::{
    backward_page, effective_limit, history_sorted, key_lt, older_than, paginate_before,
    HistoryItem,
};
use crate::schema::{Id, Notification};

verus! {

/// Notification ids never repeat in a table.
pub open spec fn notif_ids_unique(s: Seq<Notification>) -> bool {
    forall|i: int, j: int|
        #![trigger s[i], s[j]]
        0 <= i < j < s.len() ==> s[i].id != s[j].id
}

/// The table after every notification carrying `id` is marked read; a
/// table without the id is unchanged.
pub open spec fn mark_read(s: Seq<Notification>, id: Id) -> Seq<Notification> {
    Seq::new(
        s.len(),
        |i: int|
            if s[i].id == id {
                Notification { read: true, ..s[i] }
            } else {
                s[i]
            },
    )
}

/// The table after `n` was filed into its place in the order: `n` stands
/// between everything older and everything newer.
pub open spec fn inserted_in_order(
    pre: Seq<Notification>,
    post: Seq<Notification>,
    n: Notification,
) -> bool {
    exists|p: int|
        #![trigger pre.insert(p, n)]
        {
            &&& 0 <= p <= pre.len()
            &&& post == pre.insert(p, n)
            &&& forall|j: int| 0 <= j < p ==> key_lt(#[trigger] pre[j], n)
            &&& forall|j: int| p <= j < pre.len() ==> key_lt(n, #[trigger] pre[j])
        }
}

/// Why a notification request was rejected.
#[derive(Clone, Copy, Debug, PartialEq, Eq, Structural)]
pub enum NotificationError {
    /// A notification with this id already exists; creation happens
    /// exactly once per triggering event.
    IdInUse,
    /// No notification carries the requested id.
    NotFound,
}

/// The per-user notification table.
pub struct NotificationTable {
    pub items: Vec<Notification>,
}

impl NotificationTable {
    /// Invariant: oldest first, strictly ordered by (created_at, id),
    /// ids unique.
    pub open spec fn wf(self) -> bool {
        history_sorted(self.items@) && notif_ids_unique(self.items@)
    }

    /// An empty, well-formed table.
    pub fn new() -> (r: NotificationTable)
        ensures
            r.wf(),
            r.items@.len() == 0,
    {
        NotificationTable { items: Vec::new() }
    }

    /// Files a freshly created notification into its place in the order.
    ///
    /// Succeeds exactly when the id is new; a repeated id is rejected,
    /// since a notification is created exactly once per triggering event.
    pub fn create_notification(&mut self, n: Notification) -> (r: Result<(), NotificationError>)
        requires
            old(self).wf(),
        ensures
            final(self).wf(),
            r is Ok <==> forall|j: int|
                0 <= j < old(self).items@.len() ==> (#[trigger] old(self).items@[j]).id != n.id,
            r is Ok ==> inserted_in_order(old(self).items@, final(self).items@, n),
            r is Err ==> *final(self) == *old(self),
            r matches Err(e) ==> e == NotificationError::IdInUse,
    {
        let ghost pre = self.items@;
        let len = self.items.len();
        let mut i: usize = 0;
        while i < len
            invariant
                i <= len,
                len == self.items@.len(),
                self.items@ == pre,
                *self == *old(self),
                history_sorted(pre),
                notif_ids_unique(pre),
                forall|j: int| 0 <= j < i ==> (#[trigger] pre[j]).id != n.id,
            decreases len - i,
        {
            if self.items[i].id == n.id {
                return Err(NotificationError::IdInUse);
            }
            i = i + 1;
        }
        let mut p: usize = 0;
        loop
            invariant
                p <= len,
                len == self.items@.len(),
                self.items@ == pre,
                history_sorted(pre),
                notif_ids_unique(pre),
                forall|j: int| 0 <= j < len ==> (#[trigger] pre[j]).id != n.id,
                forall|j: int| 0 <= j < p ==> key_lt(#[trigger] pre[j], n),
            ensures
                p <= len,
                self.items@ == pre,
                forall|j: int| 0 <= j < p ==> key_lt(#[trigger] pre[j], n),
                p == len || !key_lt(pre[p as int], n),
            decreases len - p,
        {
            if p == len {
                break;
            }
            let cur = &self.items[p];
            if !(cur.created_at < n.created_at || (cur.created_at == n.created_at && cur.id
                < n.id)) {
                break;
            }
            p = p + 1;
        }
        self.items.insert(p, n);
        proof {
            assert forall|j: int| p as int <= j < pre.len() implies key_lt(
                n,
                #[trigger] pre[j],
            ) by {
                let pi = p as int;
                assert(pre[j].id != n.id);
                if j == pi {
                    if !key_lt(n, pre[j]) {
                        assert(pre[j].ts() == n.ts());
                        assert(pre[j].sort_id() == n.sort_id());
                        assert(false);
                    }
                } else {
                    assert(key_lt(pre[pi], pre[j]));
                    if !key_lt(n, pre[j]) {
                        assert(key_lt(pre[pi], n));
                        assert(false);
                    }
                }
            }
            assert(inserted_in_order(pre, self.items@, n)) by {
                assert(self.items@ == pre.insert(p as int, n));
            }
            assert forall|a: int, b: int|
                #![trigger self.items@[a], self.items@[b]]
                0 <= a < b < self.items@.len() implies key_lt(self.items@[a], self.items@[b])
                && self.items@[a].id != self.items@[b].id by {
                let post = self.items@;
                let pi = p as int;
                if a < pi && b < pi {
                    assert(post[a] == pre[a] && post[b] == pre[b]);
                } else if a < pi && b == pi {
                    assert(post[a] == pre[a] && post[b] == n);
                } else if a < pi && b > pi {
                    assert(post[a] == pre[a] && post[b] == pre[b - 1]);
                } else if a == pi && b > pi {
                    assert(post[a] == n && post[b] == pre[b - 1]);
                } else {
                    assert(post[a] == pre[a - 1] && post[b] == pre[b - 1]);
                }
            }
        }
        Ok(())
    }

    /// Marks the notification carrying `id` as read.
    ///
    /// Idempotent: marking an already read notification succeeds again
    /// and changes nothing; only a missing id is an error, and no call
    /// changes anything but that one read flag.
    pub fn mark_notification_read(&mut self, id: Id) -> (r: Result<(), NotificationError>)
        requires
            old(self).wf(),
        ensures
            final(self).wf(),
            final(self).items@ == mark_read(old(self).items@, id),
            r is Ok <==> exists|j: int|
                0 <= j < old(self).items@.len() && (#[trigger] old(self).items@[j]).id == id,
            r matches Err(e) ==> e == NotificationError::NotFound && *final(self) == *old(self),
    {
        let ghost pre = self.items@;
        let len = self.items.len();
        let mut i: usize = 0;
        while i < len
            invariant
                i <= len,
                len == self.items@.len(),
                self.items@ == pre,
                *self == *old(self),
                pre == old(self).items@,
                history_sorted(pre),
                notif_ids_unique(pre),
                forall|j: int| 0 <= j < i ==> (#[trigger] pre[j]).id != id,
            decreases len - i,
        {
            if self.items[i].id == id {
                let mut x = self.items.remove(i);
                x.read = true;
                self.items.insert(i, x);
                proof {
                    assert forall|j: int|
                        0 <= j < pre.len() && j != i ==> (#[trigger] pre[j]).id != id by {
                        if 0 <= j < pre.len() && j != i && pre[j].id == id {
                            if j < i as int {
                                assert(pre[j].id != pre[i as int].id);
                            } else {
                                assert(pre[i as int].id != pre[j].id);
                            }
                        }
                    }
                    assert(self.items@ =~= mark_read(pre, id));
                    assert forall|a: int, b: int|
                        #![trigger self.items@[a], self.items@[b]]
                        0 <= a < b < self.items@.len() implies key_lt(
                        self.items@[a],
                        self.items@[b],
                    ) && self.items@[a].id != self.items@[b].id by {
                        assert(key_lt(pre[a], pre[b]));
                    }
                }
                return Ok(());
            }
            i = i + 1;
        }
        proof {
            assert(self.items@ =~= mark_read(pre, id));
        }
        Err(NotificationError::NotFound)
    }

    /// Serves a legacy notification fetch: the newest notifications
    /// older than `before`, newest first. The second result is
    /// `history_complete`: true exactly when no older notification
    /// remains beyond the returned page.
    pub fn get_notifications(&self, before: Option<i64>, limit: Option<usize>) -> (r: (
        Vec<Notification>,
        bool,
    ))
        requires
            self.wf(),
        ensures
            r.0@ == backward_page(
                older_than(self.items@, before),
                older_than(self.items@, before).len() as int,
                effective_limit(limit),
            ),
            r.1 == (older_than(self.items@, before).len() <= effective_limit(limit)),
    {
        paginate_before(&self.items, before, limit)
    }
}

/// Idempotent read-state: marking a notification read twice leaves
/// exactly the state of marking it once, and the second call succeeds
/// whenever the first did.
pub proof fn lemma_mark_read_idempotent(s: Seq<Notification>, id: Id)
    ensures
        mark_read(mark_read(s, id), id) == mark_read(s, id),
        (exists|j: int| 0 <= j < s.len() && (#[trigger] s[j]).id == id) <==> (exists|j: int|
            0 <= j < mark_read(s, id).len() && (#[trigger] mark_read(s, id)[j]).id == id),
{
    assert(mark_read(mark_read(s, id), id) =~= mark_read(s, id));
    if exists|j: int| 0 <= j < s.len() && (#[trigger] s[j]).id == id {
        let j = choose|j: int| 0 <= j < s.len() && (#[trigger] s[j]).id == id;
        assert(mark_read(s, id)[j].id == id);
    }
    if exists|j: int| 0 <= j < mark_read(s, id).len() && (#[trigger] mark_read(s, id)[j]).id
        == id {
        let j = choose|j: int|
            0 <= j < mark_read(s, id).len() && (#[trigger] mark_read(s, id)[j]).id == id;
        assert(s[j].id == id);
    }
}

} // verus!
