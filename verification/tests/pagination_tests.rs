use nexus_common::pagination::{paginate, paginate_before, Page, PaginationError};
use nexus_common::schema::{ChannelMessage, PaginationCursor, PaginationDirection};

fn msg(id: u128, timestamp: i64) -> ChannelMessage {
    ChannelMessage {
        id,
        channel_id: 7,
        sent_by: 1,
        timestamp,
        content: format!("message at {}", timestamp),
    }
}

fn five_messages() -> Vec<ChannelMessage> {
    vec![msg(1, 100), msg(2, 101), msg(3, 102), msg(4, 103), msg(5, 104)]
}

fn timestamps(page: &Page<ChannelMessage>) -> Vec<i64> {
    page.items.iter().map(|m| m.timestamp).collect()
}

#[test]
fn backward_start_pages_through_five_messages() {
    let items = five_messages();
    let first = paginate(&items, PaginationCursor::Start, PaginationDirection::Backward, Some(2))
        .unwrap();
    assert_eq!(timestamps(&first), vec![104, 103]);
    assert!(first.has_more);
    assert_eq!(first.total_count, Some(5));
    let c1 = first.next_cursor.expect("a next cursor after the first page");

    let second = paginate(&items, c1, PaginationDirection::Backward, Some(2)).unwrap();
    assert_eq!(timestamps(&second), vec![102, 101]);
    assert!(second.has_more);
    let c2 = second.next_cursor.expect("a next cursor after the second page");

    let third = paginate(&items, c2, PaginationDirection::Backward, Some(2)).unwrap();
    assert_eq!(timestamps(&third), vec![100]);
    assert!(!third.has_more);
    assert!(third.next_cursor.is_none());
}

#[test]
fn backward_concatenation_reproduces_the_collection() {
    let items = five_messages();
    let mut collected: Vec<u128> = Vec::new();
    let mut cursor = PaginationCursor::Start;
    loop {
        let page = paginate(&items, cursor, PaginationDirection::Backward, Some(2)).unwrap();
        collected.extend(page.items.iter().map(|m| m.id));
        if !page.has_more {
            break;
        }
        cursor = page.next_cursor.unwrap();
    }
    assert_eq!(collected, vec![5, 4, 3, 2, 1]);
}

#[test]
fn legacy_before_equals_cursor_form() {
    let items = five_messages();
    let (legacy, complete) = paginate_before(&items, Some(103), Some(2));
    let cursor = paginate(
        &items,
        PaginationCursor::Timestamp(103),
        PaginationDirection::Backward,
        Some(2),
    )
    .unwrap();
    let legacy_ids: Vec<u128> = legacy.iter().map(|m| m.id).collect();
    let cursor_ids: Vec<u128> = cursor.items.iter().map(|m| m.id).collect();
    assert_eq!(legacy_ids, cursor_ids);
    assert_eq!(legacy_ids, vec![3, 2]);
    assert_eq!(complete, !cursor.has_more);
}

#[test]
fn legacy_without_bound_starts_at_the_newest() {
    let items = five_messages();
    let (page, complete) = paginate_before(&items, None, Some(10));
    let ids: Vec<u128> = page.iter().map(|m| m.id).collect();
    assert_eq!(ids, vec![5, 4, 3, 2, 1]);
    assert!(complete);
}

#[test]
fn forward_from_start_is_oldest_first() {
    let items = five_messages();
    let page = paginate(&items, PaginationCursor::Start, PaginationDirection::Forward, Some(3))
        .unwrap();
    assert_eq!(timestamps(&page), vec![100, 101, 102]);
    assert!(page.has_more);
    let rest = paginate(
        &items,
        page.next_cursor.unwrap(),
        PaginationDirection::Forward,
        Some(3),
    )
    .unwrap();
    assert_eq!(timestamps(&rest), vec![103, 104]);
    assert!(!rest.has_more);
}

#[test]
fn forward_timestamp_cursor_resumes_after_it() {
    let items = five_messages();
    let page = paginate(
        &items,
        PaginationCursor::Timestamp(101),
        PaginationDirection::Forward,
        Some(10),
    )
    .unwrap();
    assert_eq!(timestamps(&page), vec![102, 103, 104]);
}

#[test]
fn offset_cursor_beyond_the_collection_is_rejected() {
    let items = five_messages();
    let r = paginate(
        &items,
        PaginationCursor::Offset(6),
        PaginationDirection::Backward,
        Some(2),
    );
    assert_eq!(r.unwrap_err(), PaginationError::InvalidCursor);
}

#[test]
fn zero_and_absent_limits_use_the_default() {
    let items: Vec<ChannelMessage> = (0..60).map(|i| msg(i as u128 + 1, 100 + i)).collect();
    let with_zero = paginate(&items, PaginationCursor::Start, PaginationDirection::Backward, Some(0))
        .unwrap();
    assert_eq!(with_zero.items.len(), 50);
    let with_none = paginate(&items, PaginationCursor::Start, PaginationDirection::Backward, None)
        .unwrap();
    assert_eq!(with_none.items.len(), 50);
}

#[test]
fn oversized_limits_are_clamped_to_the_maximum() {
    let items: Vec<ChannelMessage> = (0..150).map(|i| msg(i as u128 + 1, 100 + i)).collect();
    let page = paginate(
        &items,
        PaginationCursor::Start,
        PaginationDirection::Backward,
        Some(10_000),
    )
    .unwrap();
    assert_eq!(page.items.len(), 100);
    assert!(page.has_more);
}

#[test]
fn empty_collection_gives_an_empty_complete_page() {
    let items: Vec<ChannelMessage> = Vec::new();
    let page = paginate(&items, PaginationCursor::Start, PaginationDirection::Backward, Some(2))
        .unwrap();
    assert!(page.items.is_empty());
    assert!(!page.has_more);
    assert!(page.next_cursor.is_none());
}

#[test]
fn appends_at_the_live_end_never_shift_returned_pages() {
    let mut items = five_messages();
    let first = paginate(&items, PaginationCursor::Start, PaginationDirection::Backward, Some(2))
        .unwrap();
    let cursor = first.next_cursor.unwrap();
    items.push(msg(6, 105));
    let second = paginate(&items, cursor, PaginationDirection::Backward, Some(2)).unwrap();
    assert_eq!(timestamps(&second), vec![102, 101]);
}
