//! Cache invalidation protocol for derived assets (profile images).
//!
//! Invalidation is advisory and idempotent: the server acknowledges
//! exactly the requested keys it recognized and forgets them; a key it
//! never held is no error, it is simply not acknowledged.
use vstd::prelude::*;

use crate::schema::CacheStats;

verus! {

/// Whether the key list holds a key with exactly this text.
pub open spec fn has_key(s: Seq<String>, k: Seq<char>) -> bool {
    exists|i: int| 0 <= i < s.len() && (#[trigger] s[i])@ == k
}

/// The keys of `req` that `known` recognizes, in request order.
pub open spec fn recognized(req: Seq<String>, known: Seq<String>) -> Seq<String>
    decreases req.len(),
{
    if req.len() == 0 {
        Seq::empty()
    } else {
        let rest = recognized(req.drop_last(), known);
        if has_key(known, req.last()@) {
            rest.push(req.last())
        } else {
            rest
        }
    }
}

/// The keys of `known` that survive an invalidation request: those the
/// request does not name.
pub open spec fn surviving(known: Seq<String>, req: Seq<String>) -> Seq<String>
    decreases known.len(),
{
    if known.len() == 0 {
        Seq::empty()
    } else {
        let rest = surviving(known.drop_last(), req);
        if has_key(req, known.last()@) {
            rest
        } else {
            rest.push(known.last())
        }
    }
}

/// Whether the key list holds a key with exactly this text.
pub fn contains_key(v: &Vec<String>, k: &String) -> (r: bool)
    ensures
        r == has_key(v@, k@),
{
    let n = v.len();
    let mut i: usize = 0;
    while i < n
        invariant
            i <= n,
            n == v@.len(),
            forall|j: int| 0 <= j < i ==> (#[trigger] v@[j])@ != k@,
        decreases n - i,
    {
        if v[i] == *k {
            return true;
        }
        i = i + 1;
    }
    false
}

/// The set of cached derived-asset keys a session knows about.
pub struct ImageCacheIndex {
    pub keys: Vec<String>,
}

impl ImageCacheIndex {
    /// An empty index.
    pub fn new() -> (r: ImageCacheIndex)
        ensures
            r.keys@.len() == 0,
    {
        ImageCacheIndex { keys: Vec::new() }
    }

    /// Invalidates the requested keys: forgets every recognized key and
    /// acknowledges exactly those, in request order. A key the index
    /// never held is not an error; it is simply not acknowledged.
    pub fn invalidate_image_cache(&mut self, keys: &Vec<String>) -> (acked: Vec<String>)
        ensures
            acked@ == recognized(keys@, old(self).keys@),
            final(self).keys@ == surviving(old(self).keys@, keys@),
    {
        let ghost pre = self.keys@;
        let n = keys.len();
        let mut acked: Vec<String> = Vec::new();
        let mut i: usize = 0;
        while i < n
            invariant
                i <= n,
                n == keys@.len(),
                self.keys@ == pre,
                *self == *old(self),
                pre == old(self).keys@,
                acked@ == recognized(keys@.subrange(0, i as int), pre),
            decreases n - i,
        {
            proof {
                assert(keys@.subrange(0, i as int + 1).drop_last() =~= keys@.subrange(
                    0,
                    i as int,
                ));
                assert(keys@.subrange(0, i as int + 1).last() == keys@[i as int]);
            }
            if contains_key(&self.keys, &keys[i]) {
                acked.push(keys[i].clone());
            }
            i = i + 1;
        }
        proof {
            assert(keys@.subrange(0, n as int) =~= keys@);
        }
        let m = self.keys.len();
        let mut kept: Vec<String> = Vec::new();
        let mut j: usize = 0;
        while j < m
            invariant
                j <= m,
                m == self.keys@.len(),
                self.keys@ == pre,
                kept@ == surviving(pre.subrange(0, j as int), keys@),
            decreases m - j,
        {
            proof {
                assert(pre.subrange(0, j as int + 1).drop_last() =~= pre.subrange(0, j as int));
                assert(pre.subrange(0, j as int + 1).last() == pre[j as int]);
            }
            if !contains_key(keys, &self.keys[j]) {
                kept.push(self.keys[j].clone());
            }
            j = j + 1;
        }
        proof {
            assert(pre.subrange(0, m as int) =~= pre);
        }
        self.keys = kept;
        acked
    }
}

/// Every surviving key is a key the request did not name.
proof fn lemma_surviving_free_of_req(known: Seq<String>, req: Seq<String>)
    ensures
        forall|i: int|
            0 <= i < surviving(known, req).len() ==> !has_key(
                req,
                (#[trigger] surviving(known, req)[i])@,
            ),
    decreases known.len(),
{
    if known.len() > 0 {
        lemma_surviving_free_of_req(known.drop_last(), req);
        let rest = surviving(known.drop_last(), req);
        assert forall|i: int| 0 <= i < surviving(known, req).len() implies !has_key(
            req,
            (#[trigger] surviving(known, req)[i])@,
        ) by {
            if has_key(req, known.last()@) {
                assert(surviving(known, req) == rest);
                assert(!has_key(req, rest[i]@));
            } else {
                assert(surviving(known, req) == rest.push(known.last()));
                if i < rest.len() {
                    assert(surviving(known, req)[i] == rest[i]);
                    assert(!has_key(req, rest[i]@));
                } else {
                    assert(surviving(known, req)[i] == known.last());
                }
            }
        }
    }
}

/// A list free of the requested keys survives an invalidation unchanged.
proof fn lemma_surviving_fixed(s: Seq<String>, req: Seq<String>)
    requires
        forall|i: int| 0 <= i < s.len() ==> !has_key(req, (#[trigger] s[i])@),
    ensures
        surviving(s, req) == s,
    decreases s.len(),
{
    if s.len() > 0 {
        lemma_surviving_fixed(s.drop_last(), req);
        assert(surviving(s, req) =~= s);
    } else {
        assert(surviving(s, req) =~= s);
    }
}

/// A list free of the requested keys recognizes none of them.
proof fn lemma_recognized_empty(req: Seq<String>, s: Seq<String>)
    requires
        forall|i: int| 0 <= i < s.len() ==> !has_key(req, (#[trigger] s[i])@),
    ensures
        recognized(req, s) == Seq::<String>::empty(),
    decreases req.len(),
{
    if req.len() > 0 {
        lemma_recognized_empty(req.drop_last(), s);
        if has_key(s, req.last()@) {
            let i = choose|i: int| 0 <= i < s.len() && (#[trigger] s[i])@ == req.last()@;
            assert(has_key(req, s[i]@)) by {
                assert(req[req.len() - 1]@ == s[i]@);
            }
            assert(false);
        }
    }
}

/// Cache invalidation is idempotent: repeating a request changes nothing
/// further and acknowledges nothing, because every recognized key is
/// already gone.
pub proof fn lemma_invalidate_idempotent(known: Seq<String>, req: Seq<String>)
    ensures
        surviving(surviving(known, req), req) == surviving(known, req),
        recognized(req, surviving(known, req)) == Seq::<String>::empty(),
{
    lemma_surviving_free_of_req(known, req);
    lemma_surviving_fixed(surviving(known, req), req);
    lemma_recognized_empty(req, surviving(known, req));
}

/// Assembles a stats report. The numbers come from the storage layer;
/// this only fixes the units and keeps the hit ratio inside [0, 1].
pub fn make_cache_stats(
    total_entries: usize,
    total_size_kb: u64,
    hit_ratio_permille: u32,
    expired_entries: usize,
) -> (r: CacheStats)
    ensures
        r.wf(),
        r.total_entries == total_entries,
        r.total_size_kb == total_size_kb,
        r.expired_entries == expired_entries,
        r.hit_ratio_permille == if hit_ratio_permille <= 1000 {
            hit_ratio_permille
        } else {
            1000u32
        },
{
    CacheStats {
        total_entries,
        total_size_kb,
        hit_ratio_permille: if hit_ratio_permille <= 1000 {
            hit_ratio_permille
        } else {
            1000
        },
        expired_entries,
    }
}

} // verus!
