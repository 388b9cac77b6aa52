//! Read-side request service: turns history requests into the response
//! events of the wire schema.
//!
//! A request with an unrecognized cursor is answered with the soft-error
//! notification event rather than a silently restarted sequence, so a
//! caller never mistakes duplicated data for fresh items.
use vstd::prelude::*;

use crate::invites::InviteResolution;
use crate::notifications::NotificationTable;
use crate::pagination::{
    backward_page, backward_page_ok, cursor_valid, effective_limit, forward_page_ok,
    history_sorted, older_than, paginate, paginate_before, Page,
};
use crate::schema::{
    clone_opt_string, Channel, DirectMessage, Id, PaginationCursor, PaginationDirection,
    ServerMessage, User,
};

verus! {

/// What the paginated channel-history response promises, over the same
/// page contract as the engine.
pub open spec fn channel_history_ok(
    channel: Channel,
    cursor: PaginationCursor,
    direction: PaginationDirection,
    limit: Option<usize>,
    r: ServerMessage,
) -> bool {
    r matches ServerMessage::ChannelMessagesPaginated {
        channel_id,
        messages,
        has_more,
        next_cursor,
        prev_cursor,
        total_count,
    } && {
        let page = Page { items: messages, has_more, next_cursor, prev_cursor, total_count };
        &&& channel_id == channel.id
        &&& direction == PaginationDirection::Backward ==> backward_page_ok(
            channel.messages@,
            cursor,
            limit,
            page,
        )
        &&& direction == PaginationDirection::Forward ==> forward_page_ok(
            channel.messages@,
            cursor,
            limit,
            page,
        )
    }
}

/// The soft-error event for a cursor that maps outside the collection.
pub open spec fn invalid_cursor_event(r: ServerMessage) -> bool {
    r matches ServerMessage::Notification(m, is_error) && m@ == "Invalid pagination cursor"@
        && is_error == true
}

/// Serves a cursor-based channel-history request.
pub fn serve_channel_history(
    channel: &Channel,
    cursor: PaginationCursor,
    direction: PaginationDirection,
    limit: Option<usize>,
) -> (r: ServerMessage)
    requires
        history_sorted(channel.messages@),
    ensures
        cursor_valid(channel.messages@, cursor) ==> channel_history_ok(
            *channel,
            cursor,
            direction,
            limit,
            r,
        ),
        !cursor_valid(channel.messages@, cursor) ==> invalid_cursor_event(r),
{
    match paginate(&channel.messages, cursor, direction, limit) {
        Ok(page) => ServerMessage::ChannelMessagesPaginated {
            channel_id: channel.id,
            messages: page.items,
            has_more: page.has_more,
            next_cursor: page.next_cursor,
            prev_cursor: page.prev_cursor,
            total_count: page.total_count,
        },
        Err(_) => ServerMessage::Notification("Invalid pagination cursor".to_owned(), true),
    }
}

/// What the paginated direct-message response promises.
pub open spec fn direct_history_ok(
    user_id: Id,
    history: Seq<DirectMessage>,
    cursor: PaginationCursor,
    direction: PaginationDirection,
    limit: Option<usize>,
    r: ServerMessage,
) -> bool {
    r matches ServerMessage::DirectMessagesPaginated {
        user_id: uid,
        messages,
        has_more,
        next_cursor,
        prev_cursor,
        total_count,
    } && {
        let page = Page { items: messages, has_more, next_cursor, prev_cursor, total_count };
        &&& uid == user_id
        &&& direction == PaginationDirection::Backward ==> backward_page_ok(
            history,
            cursor,
            limit,
            page,
        )
        &&& direction == PaginationDirection::Forward ==> forward_page_ok(
            history,
            cursor,
            limit,
            page,
        )
    }
}

/// Serves a cursor-based direct-message history request; `history` is
/// the conversation with the user carrying `user_id`.
pub fn serve_direct_history(
    user_id: Id,
    history: &Vec<DirectMessage>,
    cursor: PaginationCursor,
    direction: PaginationDirection,
    limit: Option<usize>,
) -> (r: ServerMessage)
    requires
        history_sorted(history@),
    ensures
        cursor_valid(history@, cursor) ==> direct_history_ok(
            user_id,
            history@,
            cursor,
            direction,
            limit,
            r,
        ),
        !cursor_valid(history@, cursor) ==> invalid_cursor_event(r),
{
    match paginate(history, cursor, direction, limit) {
        Ok(page) => ServerMessage::DirectMessagesPaginated {
            user_id,
            messages: page.items,
            has_more: page.has_more,
            next_cursor: page.next_cursor,
            prev_cursor: page.prev_cursor,
            total_count: page.total_count,
        },
        Err(_) => ServerMessage::Notification("Invalid pagination cursor".to_owned(), true),
    }
}

/// Serves a legacy channel-history request: the dialect translation shim
/// onto the cursor engine.
pub fn serve_channel_history_legacy(channel: &Channel, before: Option<i64>, limit: Option<usize>)
    -> (r: ServerMessage)
    requires
        history_sorted(channel.messages@),
    ensures
        r matches ServerMessage::ChannelMessages { channel_id, messages, history_complete } && {
            let older = older_than(channel.messages@, before);
            &&& channel_id == channel.id
            &&& messages@ == backward_page(older, older.len() as int, effective_limit(limit))
            &&& history_complete == (older.len() <= effective_limit(limit))
        },
{
    let (messages, history_complete) = paginate_before(&channel.messages, before, limit);
    ServerMessage::ChannelMessages { channel_id: channel.id, messages, history_complete }
}

/// Serves a legacy notification fetch as its response event.
pub fn serve_notifications(
    table: &NotificationTable,
    before: Option<i64>,
    limit: Option<usize>,
) -> (r: ServerMessage)
    requires
        table.wf(),
    ensures
        r matches ServerMessage::Notifications { notifications, history_complete } && {
            let older = older_than(table.items@, before);
            &&& notifications@ == backward_page(older, older.len() as int, effective_limit(limit))
            &&& history_complete == (older.len() <= effective_limit(limit))
        },
{
    let (notifications, history_complete) = table.get_notifications(before, limit);
    ServerMessage::Notifications { notifications, history_complete }
}

/// The avatar pairs answering a batch request: for each requested id, in
/// request order, the image reference of the first user carrying it;
/// unknown ids are passed over.
pub open spec fn avatars_of(users: Seq<User>, ids: Seq<Id>) -> Seq<(Id, Option<String>)>
    decreases ids.len(),
{
    if ids.len() == 0 {
        Seq::empty()
    } else {
        let rest = avatars_of(users, ids.drop_last());
        match first_with_id(users, ids.last()) {
            Some(j) => rest.push((ids.last(), users[j].profile_pic)),
            None => rest,
        }
    }
}

/// Position of the first user carrying `id`, if any.
pub open spec fn first_with_id(users: Seq<User>, id: Id) -> Option<int>
    decreases users.len(),
{
    if users.len() == 0 {
        None
    } else if users[0].id == id {
        Some(0int)
    } else {
        match first_with_id(users.drop_first(), id) {
            Some(j) => Some(j + 1),
            None => None,
        }
    }
}

/// Looks up the first user carrying `id`.
fn find_user<'a>(users: &'a Vec<User>, id: Id) -> (r: Option<&'a User>)
    ensures
        match first_with_id(users@, id) {
            Some(j) => r matches Some(u) && *u == users@[j],
            None => r is None,
        },
{
    let n = users.len();
    let mut i: usize = 0;
    while i < n
        invariant
            i <= n,
            n == users@.len(),
            forall|j: int| 0 <= j < i ==> (#[trigger] users@[j]).id != id,
        decreases n - i,
    {
        if users[i].id == id {
            proof {
                lemma_first_with_id_char(users@, id, i as int);
            }
            return Some(&users[i]);
        }
        i = i + 1;
    }
    proof {
        lemma_first_with_id_in(users@, id);
        match first_with_id(users@, id) {
            Some(j) => {
                assert(users@[j].id != id);
                assert(false);
            },
            None => {
            },
        }
    }
    None
}

/// A found position is sound: it carries the id and nothing before it
/// does.
proof fn lemma_first_with_id_in(users: Seq<User>, id: Id)
    ensures
        first_with_id(users, id) matches Some(j) ==> 0 <= j < users.len() && users[j].id == id,
    decreases users.len(),
{
    if users.len() > 0 && users[0].id != id {
        lemma_first_with_id_in(users.drop_first(), id);
    }
}

/// A first match at `i` pins the found position to `i`.
proof fn lemma_first_with_id_char(users: Seq<User>, id: Id, i: int)
    requires
        0 <= i < users.len(),
        users[i].id == id,
        forall|j: int| 0 <= j < i ==> (#[trigger] users[j]).id != id,
    ensures
        first_with_id(users, id) == Some(i),
    decreases users.len(),
{
    if i > 0 {
        let tail = users.drop_first();
        assert forall|j: int| 0 <= j < i - 1 implies (#[trigger] tail[j]).id != id by {
            assert(users[j + 1].id != id);
        }
        lemma_first_with_id_char(tail, id, i - 1);
    }
}

/// Answers an avatar batch request: the image references of the
/// requested users, in request order, unknown ids passed over.
pub fn serve_user_avatars(users: &Vec<User>, ids: &Vec<Id>) -> (r: ServerMessage)
    ensures
        r matches ServerMessage::UserAvatars { avatars } && avatars@ == avatars_of(users@, ids@),
{
    let n = ids.len();
    let mut avatars: Vec<(Id, Option<String>)> = Vec::new();
    let mut i: usize = 0;
    while i < n
        invariant
            i <= n,
            n == ids@.len(),
            avatars@ == avatars_of(users@, ids@.subrange(0, i as int)),
        decreases n - i,
    {
        proof {
            assert(ids@.subrange(0, i as int + 1).drop_last() =~= ids@.subrange(0, i as int));
            assert(ids@.subrange(0, i as int + 1).last() == ids@[i as int]);
        }
        match find_user(users, ids[i]) {
            Some(u) => {
                avatars.push((ids[i], clone_opt_string(&u.profile_pic)));
            },
            None => {
            },
        }
        i = i + 1;
    }
    proof {
        assert(ids@.subrange(0, n as int) =~= ids@);
    }
    ServerMessage::UserAvatars { avatars }
}

/// The response event a resolution owes the inviter, observable exactly
/// once per invite: the resolved invite's id, the outcome, and the
/// responding user's record.
pub fn resolution_event(res: &InviteResolution, responder: &User) -> (r: ServerMessage)
    requires
        responder.id == res.invitee_id,
    ensures
        r matches ServerMessage::ServerInviteResponse { invite_id, accepted, user } && invite_id
            == res.invite_id && accepted == res.accepted && user == *responder,
{
    ServerMessage::ServerInviteResponse {
        invite_id: res.invite_id,
        accepted: res.accepted,
        user: responder.duplicate(),
    }
}

} // verus!
