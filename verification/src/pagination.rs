//! Cursor-based, direction-aware retrieval of ordered history.
//!
//! A history collection is stored oldest first, strictly ordered by
//! (timestamp, id). A page is a contiguous slice of that order; Backward
//! pages are returned newest first. Because a `next_cursor` is an offset
//! from the oldest end, appends at the live end never shift or hide items
//! that earlier pages already returned.
use vstd::math::min;
use vstd::prelude::*;

use crate::schema::{clone_opt_string, ChannelMessage, DirectMessage, Notification,
    PaginationCursor, PaginationDirection};

verus! {

/// Page size used when a request carries no limit, or a limit of zero.
pub const DEFAULT_PAGE_SIZE: usize = 50;

/// Largest page size the server ever returns, whatever a client asks for.
pub const MAX_PAGE_SIZE: usize = 100;

/// An item of an ordered history collection: channel messages, direct
/// messages and notifications all paginate through this interface.
pub trait HistoryItem: Sized {
    /// Timestamp of the item, the primary ordering key.
    spec fn ts(&self) -> int;

    /// Identifier of the item, the tie-breaking secondary key.
    spec fn sort_id(&self) -> int;

    /// Executable access to the timestamp.
    fn timestamp(&self) -> (t: i64)
        ensures
            t as int == self.ts(),
    ;

    /// An exact copy, with a contract saying so.
    fn duplicate(&self) -> (r: Self)
        ensures
            r == *self,
    ;
}

impl HistoryItem for ChannelMessage {
    open spec fn ts(&self) -> int {
        self.timestamp as int
    }

    open spec fn sort_id(&self) -> int {
        self.id as int
    }

    fn timestamp(&self) -> (t: i64) {
        self.timestamp
    }

    fn duplicate(&self) -> (r: Self) {
        ChannelMessage {
            id: self.id,
            channel_id: self.channel_id,
            sent_by: self.sent_by,
            timestamp: self.timestamp,
            content: self.content.clone(),
        }
    }
}

impl HistoryItem for DirectMessage {
    open spec fn ts(&self) -> int {
        self.timestamp as int
    }

    open spec fn sort_id(&self) -> int {
        self.id as int
    }

    fn timestamp(&self) -> (t: i64) {
        self.timestamp
    }

    fn duplicate(&self) -> (r: Self) {
        DirectMessage {
            id: self.id,
            from: self.from,
            to: self.to,
            timestamp: self.timestamp,
            content: self.content.clone(),
        }
    }
}

impl HistoryItem for Notification {
    open spec fn ts(&self) -> int {
        self.created_at as int
    }

    open spec fn sort_id(&self) -> int {
        self.id as int
    }

    fn timestamp(&self) -> (t: i64) {
        self.created_at
    }

    fn duplicate(&self) -> (r: Self) {
        Notification {
            id: self.id,
            user_id: self.user_id,
            notif_type: self.notif_type.duplicate(),
            related_id: self.related_id,
            created_at: self.created_at,
            read: self.read,
            extra: clone_opt_string(&self.extra),
        }
    }
}

/// Strict order on history items: primarily by timestamp, secondarily by id.
pub open spec fn key_lt<T: HistoryItem>(a: T, b: T) -> bool {
    a.ts() < b.ts() || (a.ts() == b.ts() && a.sort_id() < b.sort_id())
}

/// Collection invariant: stored oldest first, strictly ordered by
/// (timestamp, id).
pub open spec fn history_sorted<T: HistoryItem>(s: Seq<T>) -> bool {
    forall|i: int, j: int| 0 <= i < j < s.len() ==> #[trigger] key_lt(s[i], s[j])
}

/// Number of leading items whose timestamp lies strictly below `t`. For a
/// sorted collection this is the position where timestamps reach `t`.
pub open spec fn ts_split<T: HistoryItem>(s: Seq<T>, t: int) -> int
    decreases s.len(),
{
    if s.len() == 0 {
        0
    } else if s[0].ts() < t {
        1 + ts_split(s.drop_first(), t)
    } else {
        0
    }
}

/// For a sorted collection, `ts_split` splits it exactly: everything below
/// the split is older than `t`, everything at or above it is not.
pub proof fn lemma_ts_split_char<T: HistoryItem>(s: Seq<T>, t: int)
    requires
        history_sorted(s),
    ensures
        0 <= ts_split(s, t) <= s.len(),
        forall|j: int| 0 <= j < ts_split(s, t) ==> (#[trigger] s[j].ts()) < t,
        forall|j: int| ts_split(s, t) <= j < s.len() ==> (#[trigger] s[j].ts()) >= t,
    decreases s.len(),
{
    if s.len() > 0 {
        if s[0].ts() < t {
            let tail = s.drop_first();
            assert(history_sorted(tail)) by {
                assert forall|i: int, j: int| 0 <= i < j < tail.len()
                    implies #[trigger] key_lt(tail[i], tail[j]) by {
                    assert(key_lt(s[i + 1], s[j + 1]));
                }
            }
            lemma_ts_split_char(tail, t);
            assert forall|j: int| 0 <= j < ts_split(s, t) implies (#[trigger] s[j].ts()) < t by {
                if j > 0 {
                    assert(tail[j - 1].ts() < t);
                }
            }
            assert forall|j: int| ts_split(s, t) <= j < s.len()
                implies (#[trigger] s[j].ts()) >= t by {
                assert(tail[j - 1].ts() >= t);
            }
        } else {
            assert forall|j: int| ts_split(s, t) <= j < s.len()
                implies (#[trigger] s[j].ts()) >= t by {
                if j > 0 {
                    assert(key_lt(s[0], s[j]));
                }
            }
        }
    }
}

/// Finds the position where timestamps reach `t` by a linear scan.
fn find_ts_split<T: HistoryItem>(items: &Vec<T>, t: i64) -> (p: usize)
    requires
        history_sorted(items@),
    ensures
        p as int == ts_split(items@, t as int),
        p <= items@.len(),
{
    let n = items.len();
    let mut i: usize = 0;
    loop
        invariant
            i <= n,
            n == items@.len(),
            history_sorted(items@),
            forall|j: int| 0 <= j < i ==> (#[trigger] items@[j].ts()) < t as int,
        ensures
            i <= n,
            forall|j: int| 0 <= j < i ==> (#[trigger] items@[j].ts()) < t as int,
            i == n || items@[i as int].ts() >= t as int,
        decreases n - i,
    {
        if i == n {
            break;
        }
        if items[i].timestamp() >= t {
            break;
        }
        i = i + 1;
    }
    proof {
        lemma_ts_split_char(items@, t as int);
        let p = ts_split(items@, t as int);
        if (i as int) < p {
            assert(items@[i as int].ts() < t as int);
            assert(false);
        }
        if p < i as int {
            assert(items@[p].ts() < t as int);
            assert(false);
        }
    }
    i
}

/// Finds the position just past the items with timestamp at most `t`.
fn find_ts_split_upper<T: HistoryItem>(items: &Vec<T>, t: i64) -> (p: usize)
    requires
        history_sorted(items@),
    ensures
        p as int == ts_split(items@, t as int + 1),
        p <= items@.len(),
{
    let n = items.len();
    let mut i: usize = 0;
    loop
        invariant
            i <= n,
            n == items@.len(),
            history_sorted(items@),
            forall|j: int| 0 <= j < i ==> (#[trigger] items@[j].ts()) < t as int + 1,
        ensures
            i <= n,
            forall|j: int| 0 <= j < i ==> (#[trigger] items@[j].ts()) < t as int + 1,
            i == n || items@[i as int].ts() >= t as int + 1,
        decreases n - i,
    {
        if i == n {
            break;
        }
        if items[i].timestamp() > t {
            break;
        }
        i = i + 1;
    }
    proof {
        lemma_ts_split_char(items@, t as int + 1);
        let p = ts_split(items@, t as int + 1);
        if (i as int) < p {
            assert(items@[i as int].ts() < t as int + 1);
            assert(false);
        }
        if p < i as int {
            assert(items@[p].ts() < t as int + 1);
            assert(false);
        }
    }
    i
}

/// Why a pagination request was rejected.
#[derive(Clone, Copy, Debug, PartialEq, Eq, Structural)]
pub enum PaginationError {
    /// The cursor points outside the collection; honouring it would make
    /// the caller mistake duplicated data for fresh items.
    InvalidCursor,
}

/// One page of history, with the cursors to continue in either direction.
#[derive(Debug)]
pub struct Page<T> {
    pub items: Vec<T>,
    pub has_more: bool,
    pub next_cursor: Option<PaginationCursor>,
    pub prev_cursor: Option<PaginationCursor>,
    pub total_count: Option<usize>,
}

/// Server-side clamp of a requested page size: an absent or zero request
/// uses the default, anything above the maximum is cut to it.
pub open spec fn effective_limit(limit: Option<usize>) -> int {
    match limit {
        None => DEFAULT_PAGE_SIZE as int,
        Some(l) => if l == 0 {
            DEFAULT_PAGE_SIZE as int
        } else if l > MAX_PAGE_SIZE {
            MAX_PAGE_SIZE as int
        } else {
            l as int
        },
    }
}

fn clamp_limit(limit: Option<usize>) -> (l: usize)
    ensures
        l as int == effective_limit(limit),
        1 <= l <= MAX_PAGE_SIZE,
{
    match limit {
        None => DEFAULT_PAGE_SIZE,
        Some(l) => if l == 0 {
            DEFAULT_PAGE_SIZE
        } else if l > MAX_PAGE_SIZE {
            MAX_PAGE_SIZE
        } else {
            l
        },
    }
}

/// Position just past the last item a Backward scan positioned by `c` may
/// return; the page is the slice of positions `[end - k, end)`.
pub open spec fn backward_end<T: HistoryItem>(s: Seq<T>, c: PaginationCursor) -> int {
    match c {
        PaginationCursor::Start => s.len() as int,
        PaginationCursor::Offset(n) => n as int,
        PaginationCursor::Timestamp(t) => ts_split(s, t as int),
    }
}

/// Position of the first item a Forward scan positioned by `c` may return.
pub open spec fn forward_begin<T: HistoryItem>(s: Seq<T>, c: PaginationCursor) -> int {
    match c {
        PaginationCursor::Start => 0,
        PaginationCursor::Offset(n) => n as int,
        PaginationCursor::Timestamp(t) => ts_split(s, t as int + 1),
    }
}

/// A cursor is valid for a collection when it maps to a position inside it.
pub open spec fn cursor_valid<T: HistoryItem>(s: Seq<T>, c: PaginationCursor) -> bool {
    match c {
        PaginationCursor::Offset(n) => n <= s.len(),
        _ => true,
    }
}

/// The items of one Backward page ending at position `end`, newest first.
pub open spec fn backward_page<T: HistoryItem>(s: Seq<T>, end: int, lim: int) -> Seq<T>
    recommends
        0 <= end <= s.len(),
{
    s.subrange(end - min(lim, end), end).reverse()
}

/// The items of one Forward page beginning at position `begin`, oldest
/// first.
pub open spec fn forward_page<T: HistoryItem>(s: Seq<T>, begin: int, lim: int) -> Seq<T>
    recommends
        0 <= begin <= s.len(),
{
    s.subrange(begin, begin + min(lim, s.len() - begin))
}

/// What a successful Backward page promises: its items, whether more
/// remain, and the cursors to continue either way.
pub open spec fn backward_page_ok<T: HistoryItem>(
    s: Seq<T>,
    c: PaginationCursor,
    limit: Option<usize>,
    page: Page<T>,
) -> bool {
    let e = backward_end(s, c);
    let k = min(effective_limit(limit), e);
    &&& page.items@ == backward_page(s, e, effective_limit(limit))
    &&& page.has_more == (e - k > 0)
    &&& page.next_cursor == if e - k > 0 {
        Some(PaginationCursor::Offset((e - k) as usize))
    } else {
        None::<PaginationCursor>
    }
    &&& page.prev_cursor == if e < s.len() {
        Some(PaginationCursor::Offset(e as usize))
    } else {
        None::<PaginationCursor>
    }
    &&& page.total_count == Some(s.len() as usize)
}

/// What a successful Forward page promises.
pub open spec fn forward_page_ok<T: HistoryItem>(
    s: Seq<T>,
    c: PaginationCursor,
    limit: Option<usize>,
    page: Page<T>,
) -> bool {
    let b = forward_begin(s, c);
    let k = min(effective_limit(limit), s.len() - b);
    &&& page.items@ == forward_page(s, b, effective_limit(limit))
    &&& page.has_more == (b + k < s.len())
    &&& page.next_cursor == if b + k < s.len() {
        Some(PaginationCursor::Offset((b + k) as usize))
    } else {
        None::<PaginationCursor>
    }
    &&& page.prev_cursor == if b > 0 {
        Some(PaginationCursor::Offset(b as usize))
    } else {
        None::<PaginationCursor>
    }
    &&& page.total_count == Some(s.len() as usize)
}

/// Retrieves one page of history from a consistent snapshot.
///
/// The request succeeds exactly when the cursor maps into the collection;
/// an offset beyond it is rejected rather than silently restarted.
pub fn paginate<T: HistoryItem>(
    items: &Vec<T>,
    cursor: PaginationCursor,
    direction: PaginationDirection,
    limit: Option<usize>,
) -> (r: Result<Page<T>, PaginationError>)
    requires
        history_sorted(items@),
    ensures
        r is Err <==> !cursor_valid(items@, cursor),
        r matches Err(e) ==> e == PaginationError::InvalidCursor,
        r matches Ok(page) ==> {
            &&& direction == PaginationDirection::Backward ==> backward_page_ok(
                items@,
                cursor,
                limit,
                page,
            )
            &&& direction == PaginationDirection::Forward ==> forward_page_ok(
                items@,
                cursor,
                limit,
                page,
            )
        },
{
    let lim = clamp_limit(limit);
    let n = items.len();
    match direction {
        PaginationDirection::Backward => {
            let end: usize = match cursor {
                PaginationCursor::Start => n,
                PaginationCursor::Offset(o) => {
                    if o > n {
                        return Err(PaginationError::InvalidCursor);
                    }
                    o
                },
                PaginationCursor::Timestamp(t) => find_ts_split(items, t),
            };
            let k = if lim < end {
                lim
            } else {
                end
            };
            let mut out: Vec<T> = Vec::new();
            let mut idx: usize = 0;
            while idx < k
                invariant
                    idx <= k,
                    k <= end <= n,
                    n == items@.len(),
                    out@.len() == idx,
                    forall|m: int| 0 <= m < idx ==> out@[m] == items@[end - 1 - m],
                decreases k - idx,
            {
                out.push(items[end - 1 - idx].duplicate());
                idx = idx + 1;
            }
            proof {
                assert(out@ =~= backward_page(items@, end as int, lim as int));
            }
            let has_more = end > k;
            let next_cursor = if end - k > 0 {
                Some(PaginationCursor::Offset(end - k))
            } else {
                None
            };
            let prev_cursor = if end < n {
                Some(PaginationCursor::Offset(end))
            } else {
                None
            };
            Ok(Page { items: out, has_more, next_cursor, prev_cursor, total_count: Some(n) })
        },
        PaginationDirection::Forward => {
            let begin: usize = match cursor {
                PaginationCursor::Start => 0,
                PaginationCursor::Offset(o) => {
                    if o > n {
                        return Err(PaginationError::InvalidCursor);
                    }
                    o
                },
                PaginationCursor::Timestamp(t) => find_ts_split_upper(items, t),
            };
            let k = if lim < n - begin {
                lim
            } else {
                n - begin
            };
            let mut out: Vec<T> = Vec::new();
            let mut idx: usize = 0;
            while idx < k
                invariant
                    idx <= k,
                    begin + k <= n,
                    n == items@.len(),
                    out@.len() == idx,
                    forall|m: int| 0 <= m < idx ==> out@[m] == items@[begin + m],
                decreases k - idx,
            {
                out.push(items[begin + idx].duplicate());
                idx = idx + 1;
            }
            proof {
                assert(out@ =~= forward_page(items@, begin as int, lim as int));
            }
            let has_more = begin + k < n;
            let next_cursor = if begin + k < n {
                Some(PaginationCursor::Offset(begin + k))
            } else {
                None
            };
            let prev_cursor = if begin > 0 {
                Some(PaginationCursor::Offset(begin))
            } else {
                None
            };
            Ok(Page { items: out, has_more, next_cursor, prev_cursor, total_count: Some(n) })
        },
    }
}

/// Whatever satisfies the scan conditions is the split position: it is
/// unique for a sorted collection.
proof fn lemma_ts_split_unique<T: HistoryItem>(s: Seq<T>, t: int, q: int)
    requires
        history_sorted(s),
        0 <= q <= s.len(),
        forall|j: int| 0 <= j < q ==> (#[trigger] s[j].ts()) < t,
        q == s.len() || s[q].ts() >= t,
    ensures
        ts_split(s, t) == q,
{
    lemma_ts_split_char(s, t);
    let p = ts_split(s, t);
    if q < p {
        assert(s[q].ts() < t);
        assert(false);
    }
    if p < q {
        assert(s[p].ts() < t);
        assert(false);
    }
}

/// Concatenation of every Backward page from position `end` down to the
/// oldest item, each page continuing at the previous page's `next_cursor`.
pub open spec fn backward_scan<T: HistoryItem>(s: Seq<T>, end: int, lim: int) -> Seq<T>
    recommends
        1 <= lim,
    decreases end,
{
    if end <= 0 || lim <= 0 {
        Seq::empty()
    } else {
        backward_page(s, end, lim) + backward_scan(s, end - min(lim, end), lim)
    }
}

/// A Backward scan from position `end` reproduces the first `end` items,
/// newest first.
proof fn lemma_backward_scan_prefix<T: HistoryItem>(s: Seq<T>, end: int, lim: int)
    requires
        1 <= lim,
        0 <= end <= s.len(),
    ensures
        backward_scan(s, end, lim) == s.subrange(0, end).reverse(),
    decreases end,
{
    if end <= 0 {
        assert(backward_scan(s, end, lim) =~= s.subrange(0, 0).reverse());
    } else {
        let k = min(lim, end);
        lemma_backward_scan_prefix(s, end - k, lim);
        assert(backward_scan(s, end, lim) =~= s.subrange(0, end).reverse());
    }
}

/// Pagination completeness: paginating Backward from `Start` with any page
/// size of at least one and concatenating the pages until `has_more` is
/// false yields exactly the collection, newest first, each item exactly
/// once.
pub proof fn lemma_pagination_completeness<T: HistoryItem>(s: Seq<T>, lim: int)
    requires
        1 <= lim,
    ensures
        backward_scan(s, s.len() as int, lim) == s.reverse(),
{
    lemma_backward_scan_prefix(s, s.len() as int, lim);
    assert(s.subrange(0, s.len() as int) =~= s);
}

/// Appends at the live end never shift or hide items that earlier pages
/// already returned: a page positioned at or below the old length is the
/// same in the grown collection.
pub proof fn lemma_append_stable<T: HistoryItem>(s: Seq<T>, grown: Seq<T>, end: int, lim: int)
    requires
        0 <= lim,
        0 <= end <= s.len(),
        s.is_prefix_of(grown),
    ensures
        backward_page(grown, end, lim) == backward_page(s, end, lim),
{
    let k = min(lim, end);
    assert(grown.subrange(end - k, end) =~= s.subrange(end - k, end)) by {
        assert(forall|j: int| 0 <= j < s.len() ==> grown[j] == s[j]) by {
            assert(s =~= grown.subrange(0, s.len() as int));
        }
    }
}

/// The cursor a legacy `before` request translates to.
pub open spec fn legacy_cursor(before: Option<i64>) -> PaginationCursor {
    match before {
        None => PaginationCursor::Start,
        Some(t) => PaginationCursor::Timestamp(t),
    }
}

/// The items older than a legacy `before` bound; no bound keeps the whole
/// collection.
pub open spec fn older_than<T: HistoryItem>(s: Seq<T>, before: Option<i64>) -> Seq<T> {
    match before {
        None => s,
        Some(t) => s.filter(|x: T| x.ts() < t),
    }
}

/// In a sorted collection the items older than `t` form exactly the prefix
/// below the split position.
proof fn lemma_older_prefix<T: HistoryItem>(s: Seq<T>, t: int)
    requires
        history_sorted(s),
    ensures
        s.filter(|x: T| x.ts() < t) == s.subrange(0, ts_split(s, t)),
    decreases s.len(),
{
    reveal(Seq::filter);
    let pred = |x: T| x.ts() < t;
    lemma_ts_split_char(s, t);
    let p = ts_split(s, t);
    if s.len() == 0 {
        assert(s.filter(pred) =~= s.subrange(0, 0));
    } else {
        let d = s.drop_last();
        assert(history_sorted(d)) by {
            assert forall|i: int, j: int| 0 <= i < j < d.len()
                implies #[trigger] key_lt(d[i], d[j]) by {
                assert(key_lt(s[i], s[j]));
            }
        }
        lemma_older_prefix(d, t);
        assert(d.filter(pred) == d.subrange(0, ts_split(d, t)));
        if s.last().ts() < t {
            assert(p == s.len()) by {
                if p < s.len() {
                    assert(s[s.len() - 1].ts() >= t);
                }
            }
            lemma_ts_split_unique(d, t, d.len() as int);
            assert(s.filter(pred) == d.filter(pred).push(s.last()));
            assert(d.subrange(0, d.len() as int) =~= d);
            assert(s.filter(pred) =~= s.subrange(0, p));
        } else {
            assert(p < s.len()) by {
                if p == s.len() {
                    assert(s[s.len() - 1].ts() < t);
                }
            }
            lemma_ts_split_unique(d, t, p);
            assert(s.filter(pred) == d.filter(pred));
            assert(d.subrange(0, p) =~= s.subrange(0, p));
            assert(s.filter(pred) =~= s.subrange(0, p));
        }
    }
}

/// Pagination equivalence: a legacy `before` request, translated onto the
/// cursor engine, returns exactly the newest items older than the bound —
/// the same items, in the same order, as the cursor-based Backward request
/// it translates to.
pub proof fn lemma_legacy_equivalence<T: HistoryItem>(s: Seq<T>, before: Option<i64>, lim: int)
    requires
        history_sorted(s),
        0 <= lim,
    ensures
        older_than(s, before) == s.subrange(0, backward_end(s, legacy_cursor(before))),
        older_than(s, before).len() == backward_end(s, legacy_cursor(before)),
        backward_page(s, backward_end(s, legacy_cursor(before)), lim) == backward_page(
            older_than(s, before),
            older_than(s, before).len() as int,
            lim,
        ),
{
    let e = backward_end(s, legacy_cursor(before));
    match before {
        None => {
            assert(older_than(s, before) =~= s.subrange(0, e));
        },
        Some(t) => {
            lemma_older_prefix(s, t as int);
            lemma_ts_split_char(s, t as int);
        },
    }
    let o = older_than(s, before);
    let k = min(lim, e);
    assert(o.subrange(e - k, e) =~= s.subrange(e - k, e));
}

/// Serves a legacy `before` request by translating it onto the cursor
/// engine: a Backward page from `Timestamp(before)`, or from `Start` when
/// the bound is absent. The second result is the `history_complete` flag:
/// true exactly when no older item remains beyond the returned page.
pub fn paginate_before<T: HistoryItem>(
    items: &Vec<T>,
    before: Option<i64>,
    limit: Option<usize>,
) -> (r: (Vec<T>, bool))
    requires
        history_sorted(items@),
    ensures
        r.0@ == backward_page(
            older_than(items@, before),
            older_than(items@, before).len() as int,
            effective_limit(limit),
        ),
        r.1 == (older_than(items@, before).len() <= effective_limit(limit)),
{
    let cursor = match before {
        None => PaginationCursor::Start,
        Some(t) => PaginationCursor::Timestamp(t),
    };
    let result = paginate(items, cursor, PaginationDirection::Backward, limit);
    proof {
        lemma_legacy_equivalence(items@, before, effective_limit(limit));
    }
    match result {
        Ok(page) => (page.items, !page.has_more),
        Err(_) => {
            proof {
                assert(false);
            }
            (Vec::new(), true)
        },
    }
}

} // verus!
