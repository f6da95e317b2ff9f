//! Least-recently-used caches of the clipboard images (thumbnails and large
//! previews) that were written to disk, bounded in count and in bytes.
//! Operations return the cached images whose files are to be deleted.

use vstd::prelude::*;
use std::collections::HashMap;
use std::collections::VecDeque;

verus! {

/// Most thumbnails kept.
pub const THUMBNAIL_LIMIT: usize = 24;

/// Most bytes of thumbnails kept.
pub const THUMBNAIL_CACHE_BYTES: usize = 32 * 1024 * 1024;

/// Most large previews kept.
pub const IMAGE_PREVIEW_LIMIT: usize = 4;

/// Most bytes of large previews kept.
pub const IMAGE_PREVIEW_CACHE_BYTES: usize = 64 * 1024 * 1024;

/// An image written to disk: its path and size.
#[derive(Debug)]
pub struct CachedClipboardImage {
    pub path: String,
    pub bytes: usize,
}

impl Clone for CachedClipboardImage {
    fn clone(&self) -> (r: Self)
        ensures
            r == *self,
    {
        CachedClipboardImage { path: self.path.clone(), bytes: self.bytes }
    }
}

pub type CacheEntry = (u64, CachedClipboardImage);

/// Total size of the images of `e`.
pub open spec fn sum_bytes(e: Seq<CacheEntry>) -> nat
    decreases e.len(),
{
    if e.len() == 0 {
        0
    } else {
        e[0].1.bytes as nat + sum_bytes(e.drop_first())
    }
}

/// Index of the entry with `id`.
pub open spec fn find_id(e: Seq<CacheEntry>, id: u64) -> Option<int> {
    if exists|i: int| 0 <= i < e.len() && (#[trigger] e[i]).0 == id {
        Some(choose|i: int| 0 <= i < e.len() && (#[trigger] e[i]).0 == id)
    } else {
        None
    }
}

pub open spec fn distinct_ids(e: Seq<CacheEntry>) -> bool {
    forall|i: int, j: int| 0 <= i < e.len() && 0 <= j < e.len() && i != j ==> (#[trigger] e[i]).0 != (#[trigger] e[j]).0
}

/// `e` without the entry of `id`.
pub open spec fn take_out(e: Seq<CacheEntry>, id: u64) -> Seq<CacheEntry> {
    match find_id(e, id) {
        Some(i) => e.remove(i),
        None => e,
    }
}

/// The entry of `id` that `take_out` removes, if any.
pub open spec fn taken(e: Seq<CacheEntry>, id: u64) -> Seq<CacheEntry> {
    match find_id(e, id) {
        Some(i) => seq![e[i]],
        None => Seq::empty(),
    }
}

pub open spec fn over(e: Seq<CacheEntry>, limit: nat, cap: nat) -> bool {
    e.len() > 0 && (e.len() > limit || sum_bytes(e) > cap)
}

/// What is left after dropping least-recently-used entries while the count
/// or the size is over its bound.
pub open spec fn evict(e: Seq<CacheEntry>, limit: nat, cap: nat) -> Seq<CacheEntry>
    decreases e.len(),
{
    if over(e, limit, cap) {
        evict(e.drop_first(), limit, cap)
    } else {
        e
    }
}

/// The entries that `evict` drops, oldest first.
pub open spec fn evicted(e: Seq<CacheEntry>, limit: nat, cap: nat) -> Seq<CacheEntry>
    decreases e.len(),
{
    if over(e, limit, cap) {
        seq![e[0]] + evicted(e.drop_first(), limit, cap)
    } else {
        Seq::empty()
    }
}

pub open spec fn bounded(e: Seq<CacheEntry>, limit: nat, cap: nat) -> bool {
    &&& distinct_ids(e)
    &&& e.len() <= limit
    &&& sum_bytes(e) <= cap
}

proof fn lemma_sum_push(e: Seq<CacheEntry>, x: CacheEntry)
    ensures
        sum_bytes(e.push(x)) == sum_bytes(e) + x.1.bytes,
    decreases e.len(),
{
    if e.len() > 0 {
        assert(e.push(x).drop_first() =~= e.drop_first().push(x));
        lemma_sum_push(e.drop_first(), x);
    } else {
        assert(e.push(x).drop_first() =~= e);
    }
}

proof fn lemma_sum_single(x: CacheEntry)
    ensures
        sum_bytes(seq![x]) == x.1.bytes,
{
    assert(seq![x].drop_first() =~= Seq::<CacheEntry>::empty());
    assert(sum_bytes(Seq::<CacheEntry>::empty()) == 0);
    assert(seq![x][0] == x);
}

proof fn lemma_sum_remove(e: Seq<CacheEntry>, i: int)
    requires
        0 <= i < e.len(),
    ensures
        sum_bytes(e) == sum_bytes(e.remove(i)) + e[i].1.bytes,
    decreases e.len(),
{
    if i > 0 {
        assert(e.remove(i).drop_first() =~= e.drop_first().remove(i - 1));
        lemma_sum_remove(e.drop_first(), i - 1);
    } else {
        assert(e.remove(0) =~= e.drop_first());
    }
}

proof fn lemma_distinct_remove(e: Seq<CacheEntry>, i: int)
    requires
        distinct_ids(e),
        0 <= i < e.len(),
    ensures
        distinct_ids(e.remove(i)),
        forall|k: int| 0 <= k < e.remove(i).len() ==> (#[trigger] e.remove(i)[k]).0 != e[i].0,
{
    let r = e.remove(i);
    assert forall|a: int, b: int| 0 <= a < r.len() && 0 <= b < r.len() && a != b implies (#[trigger] r[a]).0 != (#[trigger] r[b]).0 by {
        let a0 = if a < i { a } else { a + 1 };
        let b0 = if b < i { b } else { b + 1 };
        assert(r[a] == e[a0] && r[b] == e[b0]);
    }
    assert forall|k: int| 0 <= k < r.len() implies (#[trigger] r[k]).0 != e[i].0 by {
        let k0 = if k < i { k } else { k + 1 };
        assert(r[k] == e[k0]);
    }
}

proof fn lemma_take_out(e: Seq<CacheEntry>, id: u64)
    requires
        distinct_ids(e),
    ensures
        distinct_ids(take_out(e, id)),
        forall|k: int| 0 <= k < take_out(e, id).len() ==> (#[trigger] take_out(e, id)[k]).0 != id,
        sum_bytes(e) == sum_bytes(take_out(e, id)) + sum_bytes(taken(e, id)),
        take_out(e, id).len() + taken(e, id).len() == e.len(),
{
    match find_id(e, id) {
        Some(i) => {
            lemma_distinct_remove(e, i);
            lemma_sum_remove(e, i);
            lemma_sum_single(e[i]);
        },
        None => {
            assert(taken(e, id) =~= Seq::<CacheEntry>::empty());
        },
    }
}

proof fn lemma_distinct_drop_first(e: Seq<CacheEntry>)
    requires
        distinct_ids(e),
        e.len() > 0,
    ensures
        distinct_ids(e.drop_first()),
{
    let d = e.drop_first();
    assert forall|a: int, b: int| 0 <= a < d.len() && 0 <= b < d.len() && a != b implies (#[trigger] d[a]).0 != (#[trigger] d[b]).0 by {
        assert(d[a] == e[a + 1] && d[b] == e[b + 1]);
    }
}

proof fn lemma_evict(e: Seq<CacheEntry>, limit: nat, cap: nat)
    requires
        distinct_ids(e),
    ensures
        bounded(evict(e, limit, cap), limit, cap),
        evicted(e, limit, cap) + evict(e, limit, cap) == e,
    decreases e.len(),
{
    if over(e, limit, cap) {
        lemma_distinct_drop_first(e);
        lemma_evict(e.drop_first(), limit, cap);
        let a = evicted(e.drop_first(), limit, cap);
        let b = evict(e.drop_first(), limit, cap);
        assert((seq![e[0]] + a) + b =~= seq![e[0]] + (a + b));
        assert(seq![e[0]] + e.drop_first() =~= e);
    } else {
        assert(Seq::<CacheEntry>::empty() + e =~= e);
    }
}

/// An entry that fits by itself is never dropped from the back of `e`.
proof fn lemma_evict_keeps_last(e: Seq<CacheEntry>, limit: nat, cap: nat)
    requires
        e.len() > 0,
        limit >= 1,
        e.last().1.bytes <= cap,
    ensures
        evict(e, limit, cap).len() > 0,
        evict(e, limit, cap).last() == e.last(),
    decreases e.len(),
{
    if over(e, limit, cap) {
        if e.len() == 1 {
            assert(sum_bytes(e.drop_first()) == 0);
            assert(false);
        }
        assert(e.drop_first().last() == e.last());
        lemma_evict_keeps_last(e.drop_first(), limit, cap);
    }
}

/// What eviction leaves of `e` is a suffix of it.
proof fn lemma_evict_suffix(e: Seq<CacheEntry>, limit: nat, cap: nat)
    ensures
        exists|k: int| 0 <= k <= e.len() && #[trigger] e.skip(k) == evict(e, limit, cap),
    decreases e.len(),
{
    if over(e, limit, cap) {
        lemma_evict_suffix(e.drop_first(), limit, cap);
        let k = choose|k: int| 0 <= k <= e.drop_first().len() && #[trigger] e.drop_first().skip(k) == evict(e.drop_first(), limit, cap);
        assert(e.skip(k + 1) =~= e.drop_first().skip(k));
    } else {
        assert(e.skip(0) =~= e);
    }
}

proof fn lemma_sum_ge_last(e: Seq<CacheEntry>)
    requires
        e.len() > 0,
    ensures
        sum_bytes(e) >= e.last().1.bytes,
    decreases e.len(),
{
    if e.len() > 1 {
        assert(e.drop_first().last() == e.last());
        lemma_sum_ge_last(e.drop_first());
    }
}

/// An entry larger than the byte bound at the back of `e` leaves nothing
/// after eviction.
proof fn lemma_evict_oversized_last(e: Seq<CacheEntry>, limit: nat, cap: nat)
    requires
        e.len() > 0,
        e.last().1.bytes > cap,
    ensures
        evict(e, limit, cap).len() == 0,
    decreases e.len(),
{
    lemma_sum_ge_last(e);
    assert(over(e, limit, cap));
    assert(evict(e, limit, cap) == evict(e.drop_first(), limit, cap));
    if e.len() == 1 {
        assert(!over(e.drop_first(), limit, cap));
        assert(evict(e.drop_first(), limit, cap) == e.drop_first());
    } else {
        assert(e.drop_first().last() == e.last());
        lemma_evict_oversized_last(e.drop_first(), limit, cap);
    }
}

/// Thumbnails after inserting `(id, v)`, and the images to delete.
pub open spec fn thumbnail_insert(e: Seq<CacheEntry>, id: u64, v: CachedClipboardImage) -> (Seq<CacheEntry>, Seq<CacheEntry>) {
    let grown = take_out(e, id).push((id, v));
    (
        evict(grown, THUMBNAIL_LIMIT as nat, THUMBNAIL_CACHE_BYTES as nat),
        taken(e, id) + evicted(grown, THUMBNAIL_LIMIT as nat, THUMBNAIL_CACHE_BYTES as nat),
    )
}

/// Large previews after inserting `(id, v)`, and the images to delete: one
/// larger than the whole budget is not kept.
pub open spec fn preview_insert(e: Seq<CacheEntry>, id: u64, v: CachedClipboardImage) -> (Seq<CacheEntry>, Seq<CacheEntry>) {
    if v.bytes > IMAGE_PREVIEW_CACHE_BYTES {
        (take_out(e, id), taken(e, id).push((id, v)))
    } else {
        let grown = take_out(e, id).push((id, v));
        (
            evict(grown, IMAGE_PREVIEW_LIMIT as nat, IMAGE_PREVIEW_CACHE_BYTES as nat),
            taken(e, id) + evicted(grown, IMAGE_PREVIEW_LIMIT as nat, IMAGE_PREVIEW_CACHE_BYTES as nat),
        )
    }
}

/// The entries after a lookup of `id`: a hit becomes the most recently used.
pub open spec fn touch(e: Seq<CacheEntry>, id: u64) -> Seq<CacheEntry> {
    match find_id(e, id) {
        Some(i) => e.remove(i).push(e[i]),
        None => e,
    }
}

/// Inserting an image keeps the images that stay in their order and drops
/// an image larger than the whole budget: the thumbnails after an insert of
/// `(id, v)` are a suffix of the earlier ones without the entry of `id`,
/// followed by the new image; the previews are such a suffix too, or the
/// earlier ones without `id` when the image exceeds their budget. An image
/// larger than the budget is not in the cache afterwards.
pub proof fn inserts_keep_order_and_drop_oversized_images(e: Seq<CacheEntry>, id: u64, v: CachedClipboardImage)
    requires
        distinct_ids(e),
    ensures
        exists|k: int| 0 <= k && #[trigger] take_out(e, id).push((id, v)).skip(k) == thumbnail_insert(e, id, v).0,
        v.bytes > THUMBNAIL_CACHE_BYTES ==> find_id(thumbnail_insert(e, id, v).0, id) is None,
        v.bytes <= IMAGE_PREVIEW_CACHE_BYTES ==> exists|k: int| 0 <= k && #[trigger] take_out(e, id).push((id, v)).skip(k)
            == preview_insert(e, id, v).0,
        v.bytes > IMAGE_PREVIEW_CACHE_BYTES ==> preview_insert(e, id, v).0 == take_out(e, id),
        v.bytes > IMAGE_PREVIEW_CACHE_BYTES ==> find_id(preview_insert(e, id, v).0, id) is None,
{
    let grown = take_out(e, id).push((id, v));
    lemma_evict_suffix(grown, THUMBNAIL_LIMIT as nat, THUMBNAIL_CACHE_BYTES as nat);
    lemma_evict_suffix(grown, IMAGE_PREVIEW_LIMIT as nat, IMAGE_PREVIEW_CACHE_BYTES as nat);
    lemma_take_out(e, id);
    if v.bytes > THUMBNAIL_CACHE_BYTES {
        lemma_evict_oversized_last(grown, THUMBNAIL_LIMIT as nat, THUMBNAIL_CACHE_BYTES as nat);
    }
}

/// The entries of the ids of `order`, in that order, with their images in
/// `values`.
pub open spec fn entries_of(order: Seq<u64>, values: Map<u64, CachedClipboardImage>) -> Seq<CacheEntry> {
    order.map_values(|id: u64| (id, values[id]))
}

proof fn lemma_entries_remove(order: Seq<u64>, values: Map<u64, CachedClipboardImage>, i: int)
    requires
        distinct_ids(entries_of(order, values)),
        0 <= i < order.len(),
    ensures
        entries_of(order.remove(i), values.remove(order[i])) == entries_of(order, values).remove(i),
{
    let e = entries_of(order, values);
    let r = entries_of(order.remove(i), values.remove(order[i]));
    assert forall|k: int| 0 <= k < r.len() implies #[trigger] r[k] == e.remove(i)[k] by {
        let k0 = if k < i { k } else { k + 1 };
        assert(order.remove(i)[k] == order[k0]);
        assert(e[k0].0 == order[k0] && e[i].0 == order[i]);
        assert(order[k0] != order[i]);
    }
    assert(r =~= e.remove(i));
}

proof fn lemma_entries_push(order: Seq<u64>, values: Map<u64, CachedClipboardImage>, id: u64, v: CachedClipboardImage)
    requires
        forall|k: int| 0 <= k < order.len() ==> #[trigger] order[k] != id,
    ensures
        entries_of(order.push(id), values.insert(id, v)) == entries_of(order, values).push((id, v)),
{
    assert(entries_of(order.push(id), values.insert(id, v)) =~= entries_of(order, values).push((id, v)));
}

proof fn lemma_entries_touch(order: Seq<u64>, values: Map<u64, CachedClipboardImage>, i: int)
    requires
        0 <= i < order.len(),
    ensures
        entries_of(order.remove(i).push(order[i]), values) == entries_of(order, values).remove(i).push(
            entries_of(order, values)[i],
        ),
{
    assert(entries_of(order.remove(i).push(order[i]), values) =~= entries_of(order, values).remove(i).push(
        entries_of(order, values)[i],
    ));
}

/// Images in least-recently-used order: the order of their ids, the image
/// of each id, and their total size.
pub struct LruImages {
    order: VecDeque<u64>,
    values: HashMap<u64, CachedClipboardImage>,
    total_bytes: usize,
}

impl LruImages {
    pub closed spec fn view(&self) -> Seq<CacheEntry> {
        entries_of(self.order@, self.values@)
    }

    /// The ids with an image are those of the order.
    closed spec fn keys_match(&self) -> bool {
        forall|id: u64| #[trigger] self.values@.contains_key(id) <==> self.order@.contains(id)
    }

    pub closed spec fn inv(&self, limit: nat, cap: nat) -> bool {
        &&& bounded(self.view(), limit, cap)
        &&& self.total_bytes == sum_bytes(self.view())
        &&& self.keys_match()
    }

    fn empty() -> (c: Self)
        ensures
            c.view() == Seq::<CacheEntry>::empty(),
            forall|limit: nat, cap: nat| c.inv(limit, cap),
    {
        broadcast use vstd::std_specs::hash::group_hash_axioms;

        let c = LruImages { order: VecDeque::new(), values: HashMap::new(), total_bytes: 0 };
        assert(c.view() =~= Seq::<CacheEntry>::empty());
        c
    }

    fn position(&self, id: u64) -> (r: Option<usize>)
        ensures
            match r {
                Some(i) => i < self.order@.len() && self.order@[i as int] == id,
                None => !self.order@.contains(id),
            },
    {
        let mut i: usize = 0;
        while i < self.order.len()
            invariant
                i <= self.order@.len(),
                forall|k: int| 0 <= k < i ==> self.order@[k] != id,
            decreases self.order@.len() - i,
        {
            if self.order[i] == id {
                return Some(i);
            }
            i = i + 1;
        }
        None
    }

    proof fn lemma_find_unique(e: Seq<CacheEntry>, id: u64, i: int)
        requires
            distinct_ids(e),
            0 <= i < e.len(),
            e[i].0 == id,
        ensures
            find_id(e, id) == Some(i),
    {
        let j = choose|j: int| 0 <= j < e.len() && (#[trigger] e[j]).0 == id;
        assert(e[j].0 == id);
    }

    proof fn lemma_absent(&self, id: u64)
        requires
            !self.order@.contains(id),
        ensures
            find_id(self.view(), id) is None,
            forall|k: int| 0 <= k < self.view().len() ==> (#[trigger] self.view()[k]).0 != id,
    {
        assert forall|k: int| 0 <= k < self.view().len() implies (#[trigger] self.view()[k]).0 != id by {
            assert(self.view()[k].0 == self.order@[k]);
        }
    }

    /// Removes the entry at `i`, the entry of `id`.
    fn remove_at(&mut self, i: usize, id: u64, Ghost(limit): Ghost<nat>, Ghost(cap): Ghost<nat>) -> (entry: CacheEntry)
        requires
            old(self).inv(limit, cap),
            i < old(self).order@.len(),
            old(self).order@[i as int] == id,
        ensures
            final(self).view() == old(self).view().remove(i as int),
            entry == old(self).view()[i as int],
            bounded(final(self).view(), limit, cap),
            final(self).total_bytes == sum_bytes(final(self).view()),
            final(self).keys_match(),
    {
        broadcast use vstd::std_specs::hash::group_hash_axioms;

        let ghost e = self.view();
        let ghost order = self.order@;
        let ghost values = self.values@;
        proof {
            lemma_entries_remove(order, values, i as int);
            lemma_distinct_remove(e, i as int);
            lemma_sum_remove(e, i as int);
            assert(e[i as int] == (id, values[id]));
            assert(order.contains(id));
            assert(values.contains_key(id));
        }
        self.order.remove(i);
        let removed = self.values.remove(&id);
        let value = match removed {
            Some(v) => v,
            None => {
                proof {
                    assert(false);
                }
                CachedClipboardImage { path: String::new(), bytes: 0 }
            },
        };
        self.total_bytes = self.total_bytes - value.bytes;
        proof {
            assert(self.view() == e.remove(i as int));
            assert forall|x: u64| #[trigger] self.values@.contains_key(x) <==> self.order@.contains(x) by {
                if self.order@.contains(x) {
                    let k = choose|k: int| 0 <= k < self.order@.len() && self.order@[k] == x;
                    let k0 = if k < i { k } else { k + 1 };
                    assert(order[k0] == x);
                    assert(e[k0].0 == x && e[i as int].0 == id);
                    assert(x != id);
                    assert(order.contains(x));
                }
                if self.values@.contains_key(x) {
                    assert(x != id);
                    assert(order.contains(x));
                    let k0 = choose|k: int| 0 <= k < order.len() && order[k] == x;
                    assert(k0 != i);
                    let k = if k0 < i { k0 } else { k0 - 1 };
                    assert(self.order@[k] == x);
                }
            }
        }
        (id, value)
    }

    /// Removes the entry of `id`, returning what `taken` describes.
    fn take_out_exec(&mut self, id: u64, Ghost(limit): Ghost<nat>, Ghost(cap): Ghost<nat>) -> (r: Vec<CacheEntry>)
        requires
            old(self).inv(limit, cap),
        ensures
            final(self).view() == take_out(old(self).view(), id),
            r@ == taken(old(self).view(), id),
            bounded(final(self).view(), limit, cap),
            final(self).total_bytes == sum_bytes(final(self).view()),
            final(self).keys_match(),
            forall|k: int| 0 <= k < final(self).view().len() ==> (#[trigger] final(self).view()[k]).0 != id,
    {
        let ghost e = self.view();
        proof {
            lemma_take_out(e, id);
        }
        let mut removed: Vec<CacheEntry> = Vec::new();
        match self.position(id) {
            Some(i) => {
                proof {
                    assert(e[i as int].0 == id);
                    Self::lemma_find_unique(e, id, i as int);
                }
                let entry = self.remove_at(i, id, Ghost(limit), Ghost(cap));
                removed.push(entry);
                proof {
                    lemma_sum_single(e[i as int]);
                }
            },
            None => {
                proof {
                    self.lemma_absent(id);
                    assert(taken(e, id) =~= Seq::<CacheEntry>::empty());
                }
            },
        }
        removed
    }

    /// Appends `(id, v)` (whose id is absent) and drops least-recently-used
    /// entries until both bounds hold.
    fn push_and_evict(&mut self, id: u64, v: CachedClipboardImage, limit: usize, cap: usize) -> (dropped: Vec<CacheEntry>)
        requires
            distinct_ids(old(self).view()),
            forall|k: int| 0 <= k < old(self).view().len() ==> (#[trigger] old(self).view()[k]).0 != id,
            old(self).total_bytes == sum_bytes(old(self).view()),
            old(self).total_bytes <= cap,
            old(self).keys_match(),
        ensures
            final(self).view() == evict(old(self).view().push((id, v)), limit as nat, cap as nat),
            dropped@ == evicted(old(self).view().push((id, v)), limit as nat, cap as nat),
            final(self).inv(limit as nat, cap as nat),
    {
        broadcast use vstd::std_specs::hash::group_hash_axioms;

        let ghost grown = self.view().push((id, v));
        proof {
            assert forall|k: int| 0 <= k < self.order@.len() implies #[trigger] self.order@[k] != id by {
                assert(self.view()[k].0 == self.order@[k]);
            }
            lemma_entries_push(self.order@, self.values@, id, v);
            lemma_sum_push(self.view(), (id, v));
            assert forall|a: int, b: int| 0 <= a < grown.len() && 0 <= b < grown.len() && a != b implies (#[trigger] grown[a]).0 != (#[trigger] grown[b]).0 by {
                if a < grown.len() - 1 && b < grown.len() - 1 {
                    assert(grown[a] == self.view()[a] && grown[b] == self.view()[b]);
                }
            }
            lemma_evict(grown, limit as nat, cap as nat);
        }
        let mut total: u128 = self.total_bytes as u128 + v.bytes as u128;
        let ghost old_order = self.order@;
        self.values.insert(id, v);
        self.order.push_back(id);
        proof {
            assert(self.view() == grown);
            assert forall|x: u64| #[trigger] self.values@.contains_key(x) <==> self.order@.contains(x) by {
                if self.order@.contains(x) && x != id {
                    let k = choose|k: int| 0 <= k < self.order@.len() && self.order@[k] == x;
                    assert(k < old_order.len());
                    assert(old_order[k] == x);
                }
                if x != id && old_order.contains(x) {
                    let k = choose|k: int| 0 <= k < old_order.len() && old_order[k] == x;
                    assert(self.order@[k] == x);
                }
                if x == id {
                    assert(self.order@[self.order@.len() - 1] == id);
                }
            }
        }
        let mut dropped: Vec<CacheEntry> = Vec::new();
        assert(dropped@ + self.view() =~= grown);
        while self.order.len() > 0 && (self.order.len() > limit || total > cap as u128)
            invariant
                distinct_ids(self.view()),
                total == sum_bytes(self.view()),
                self.keys_match(),
                evict(self.view(), limit as nat, cap as nat) == evict(grown, limit as nat, cap as nat),
                dropped@ + evicted(self.view(), limit as nat, cap as nat) == evicted(grown, limit as nat, cap as nat),
            decreases self.order@.len(),
        {
            let ghost cur = self.view();
            let ghost order = self.order@;
            let ghost values = self.values@;
            let first_id = match self.order.pop_front() {
                Some(x) => x,
                None => {
                    proof {
                        assert(false);
                    }
                    0
                },
            };
            proof {
                assert(self.order@ == order.remove(0));
                lemma_entries_remove(order, values, 0);
                assert(order.contains(first_id));
            }
            let first_value = match self.values.remove(&first_id) {
                Some(x) => x,
                None => {
                    proof {
                        assert(false);
                    }
                    CachedClipboardImage { path: String::new(), bytes: 0 }
                },
            };
            proof {
                assert(cur.remove(0) =~= cur.drop_first());
                assert(self.view() == cur.drop_first());
                assert(cur[0] == (first_id, first_value));
                assert forall|x: u64| #[trigger] self.values@.contains_key(x) <==> self.order@.contains(x) by {
                    if self.order@.contains(x) {
                        let k = choose|k: int| 0 <= k < self.order@.len() && self.order@[k] == x;
                        assert(order[k + 1] == x);
                        assert(cur[k + 1].0 == x && cur[0].0 == first_id);
                        assert(order.contains(x));
                    }
                    if self.values@.contains_key(x) {
                        assert(order.contains(x));
                        let k0 = choose|k: int| 0 <= k < order.len() && order[k] == x;
                        assert(k0 != 0);
                        assert(self.order@[k0 - 1] == x);
                    }
                }
                assert(sum_bytes(cur) == cur[0].1.bytes + sum_bytes(cur.drop_first()));
            }
            total = total - first_value.bytes as u128;
            proof {
                lemma_distinct_drop_first(cur);
                assert(dropped@.push((first_id, first_value)) + evicted(cur.drop_first(), limit as nat, cap as nat)
                    =~= dropped@ + evicted(cur, limit as nat, cap as nat));
            }
            dropped.push((first_id, first_value));
        }
        proof {
            assert(evicted(self.view(), limit as nat, cap as nat) =~= Seq::<CacheEntry>::empty());
            assert(dropped@ =~= dropped@ + evicted(self.view(), limit as nat, cap as nat));
            lemma_evict(self.view(), limit as nat, cap as nat);
        }
        self.total_bytes = total as usize;
        dropped
    }

    /// The path of `id`, which becomes the most recently used.
    fn get_exec(&mut self, id: u64, Ghost(limit): Ghost<nat>, Ghost(cap): Ghost<nat>) -> (r: Option<String>)
        requires
            old(self).inv(limit, cap),
        ensures
            final(self).view() == touch(old(self).view(), id),
            final(self).inv(limit, cap),
            match find_id(old(self).view(), id) {
                Some(i) => r == Some(old(self).view()[i].1.path),
                None => r is None,
            },
    {
        broadcast use vstd::std_specs::hash::group_hash_axioms;

        let ghost e = self.view();
        let ghost order = self.order@;
        match self.position(id) {
            None => {
                proof {
                    self.lemma_absent(id);
                }
                None
            },
            Some(i) => {
                proof {
                    assert(e[i as int].0 == id);
                    Self::lemma_find_unique(e, id, i as int);
                    lemma_distinct_remove(e, i as int);
                    lemma_sum_remove(e, i as int);
                    lemma_sum_push(e.remove(i as int), e[i as int]);
                    lemma_entries_touch(order, self.values@, i as int);
                    assert(self.values@.contains_key(id));
                }
                self.order.remove(i);
                self.order.push_back(id);
                let path = match self.values.get(&id) {
                    Some(v) => v.path.clone(),
                    None => {
                        proof {
                            assert(false);
                        }
                        String::new()
                    },
                };
                proof {
                    assert(self.order@ == order.remove(i as int).push(order[i as int]));
                    let t = self.view();
                    assert forall|a: int, b: int| 0 <= a < t.len() && 0 <= b < t.len() && a != b implies (#[trigger] t[a]).0 != (#[trigger] t[b]).0 by {
                        if a < t.len() - 1 && b < t.len() - 1 {
                            assert(t[a] == e.remove(i as int)[a] && t[b] == e.remove(i as int)[b]);
                        }
                    }
                    assert forall|x: u64| #[trigger] self.values@.contains_key(x) <==> self.order@.contains(x) by {
                        if order.contains(x) {
                            let k = choose|k: int| 0 <= k < order.len() && order[k] == x;
                            if k == i {
                                assert(self.order@[self.order@.len() - 1] == x);
                            } else if k < i {
                                assert(self.order@[k] == x);
                            } else {
                                assert(self.order@[k - 1] == x);
                            }
                        }
                        if self.order@.contains(x) {
                            let k = choose|k: int| 0 <= k < self.order@.len() && self.order@[k] == x;
                            if k == self.order@.len() - 1 {
                                assert(order[i as int] == x);
                            } else if k < i {
                                assert(order[k] == x);
                            } else {
                                assert(order[k + 1] == x);
                            }
                        }
                    }
                }
                Some(path)
            },
        }
    }

    /// Empties the cache, returning every entry.
    fn clear_exec(&mut self) -> (r: Vec<CacheEntry>)
        requires
            self.keys_match(),
        ensures
            r@ == old(self).view(),
            final(self).view() == Seq::<CacheEntry>::empty(),
            final(self).total_bytes == 0,
            final(self).keys_match(),
    {
        broadcast use vstd::std_specs::hash::group_hash_axioms;

        let mut all: Vec<CacheEntry> = Vec::new();
        let mut i: usize = 0;
        while i < self.order.len()
            invariant
                i <= self.order@.len(),
                self.keys_match(),
                all@ == self.view().take(i as int),
            decreases self.order@.len() - i,
        {
            let id = self.order[i];
            proof {
                assert(self.order@.contains(id));
            }
            let image = match self.values.get(&id) {
                Some(v) => v.clone(),
                None => {
                    proof {
                        assert(false);
                    }
                    CachedClipboardImage { path: String::new(), bytes: 0 }
                },
            };
            all.push((id, image));
            proof {
                assert(self.view()[i as int] == (id, self.values@[id]));
                assert(all@ =~= self.view().take(i + 1));
            }
            i = i + 1;
        }
        assert(all@ =~= self.view());
        self.order.clear();
        self.values.clear();
        self.total_bytes = 0;
        assert(self.view() =~= Seq::<CacheEntry>::empty());
        all
    }
}

/// Thumbnails of clipboard images.
pub struct ClipboardThumbnailCache {
    images: LruImages,
}

/// Large previews of clipboard images.
pub struct ClipboardImagePreviewCache {
    images: LruImages,
}

impl ClipboardThumbnailCache {
    pub closed spec fn view(&self) -> Seq<CacheEntry> {
        self.images.view()
    }

    pub closed spec fn wf(&self) -> bool {
        self.images.inv(THUMBNAIL_LIMIT as nat, THUMBNAIL_CACHE_BYTES as nat)
    }

    pub fn new() -> (c: Self)
        ensures
            c.wf(),
            c.view() == Seq::<CacheEntry>::empty(),
    {
        ClipboardThumbnailCache { images: LruImages::empty() }
    }

    /// At most the count and byte bounds are held, each id at most once.
    pub proof fn lemma_bounded(&self)
        requires
            self.wf(),
        ensures
            bounded(self.view(), THUMBNAIL_LIMIT as nat, THUMBNAIL_CACHE_BYTES as nat),
    {
    }

    /// The path of the thumbnail of `id`, which becomes the most recently used.
    pub fn get(&mut self, id: u64) -> (r: Option<String>)
        requires
            old(self).wf(),
        ensures
            final(self).wf(),
            final(self).view() == touch(old(self).view(), id),
            match find_id(old(self).view(), id) {
                Some(i) => r == Some(old(self).view()[i].1.path),
                None => r is None,
            },
    {
        self.images.get_exec(id, Ghost(THUMBNAIL_LIMIT as nat), Ghost(THUMBNAIL_CACHE_BYTES as nat))
    }

    /// Stores the thumbnail of `id`, replacing an older one, and drops the
    /// least recently used thumbnails beyond the bounds; returns the images
    /// whose files are to be deleted.
    pub fn insert(&mut self, id: u64, value: CachedClipboardImage) -> (removed: Vec<CacheEntry>)
        requires
            old(self).wf(),
        ensures
            final(self).wf(),
            (final(self).view(), removed@) == thumbnail_insert(old(self).view(), id, value),
            value.bytes <= THUMBNAIL_CACHE_BYTES ==> final(self).view().len() > 0 && final(self).view().last() == (id, value),
    {
        let ghost e = self.images.view();
        let mut removed = self.images.take_out_exec(id, Ghost(THUMBNAIL_LIMIT as nat), Ghost(THUMBNAIL_CACHE_BYTES as nat));
        let ghost value_copy = value;
        let mut dropped = self.images.push_and_evict(id, value, THUMBNAIL_LIMIT, THUMBNAIL_CACHE_BYTES);
        removed.append(&mut dropped);
        proof {
            if value_copy.bytes <= THUMBNAIL_CACHE_BYTES {
                lemma_evict_keeps_last(take_out(e, id).push((id, value_copy)), THUMBNAIL_LIMIT as nat, THUMBNAIL_CACHE_BYTES as nat);
            }
        }
        removed
    }

    /// Empties the cache; returns every image.
    pub fn clear(&mut self) -> (removed: Vec<CacheEntry>)
        requires
            old(self).wf(),
        ensures
            final(self).wf(),
            removed@ == old(self).view(),
            final(self).view() == Seq::<CacheEntry>::empty(),
    {
        self.images.clear_exec()
    }
}

impl ClipboardImagePreviewCache {
    pub closed spec fn view(&self) -> Seq<CacheEntry> {
        self.images.view()
    }

    pub closed spec fn wf(&self) -> bool {
        self.images.inv(IMAGE_PREVIEW_LIMIT as nat, IMAGE_PREVIEW_CACHE_BYTES as nat)
    }

    pub fn new() -> (c: Self)
        ensures
            c.wf(),
            c.view() == Seq::<CacheEntry>::empty(),
    {
        ClipboardImagePreviewCache { images: LruImages::empty() }
    }

    /// At most the count and byte bounds are held, each id at most once.
    pub proof fn lemma_bounded(&self)
        requires
            self.wf(),
        ensures
            bounded(self.view(), IMAGE_PREVIEW_LIMIT as nat, IMAGE_PREVIEW_CACHE_BYTES as nat),
    {
    }

    /// The path of the preview of `id`, which becomes the most recently used.
    pub fn get(&mut self, id: u64) -> (r: Option<String>)
        requires
            old(self).wf(),
        ensures
            final(self).wf(),
            final(self).view() == touch(old(self).view(), id),
            match find_id(old(self).view(), id) {
                Some(i) => r == Some(old(self).view()[i].1.path),
                None => r is None,
            },
    {
        self.images.get_exec(id, Ghost(IMAGE_PREVIEW_LIMIT as nat), Ghost(IMAGE_PREVIEW_CACHE_BYTES as nat))
    }

    /// Stores the preview of `id` unless it is larger than the whole budget,
    /// replacing an older one, and drops the least recently used previews
    /// beyond the bounds; returns the images whose files are to be deleted.
    pub fn insert(&mut self, id: u64, value: CachedClipboardImage) -> (removed: Vec<CacheEntry>)
        requires
            old(self).wf(),
        ensures
            final(self).wf(),
            (final(self).view(), removed@) == preview_insert(old(self).view(), id, value),
            value.bytes <= IMAGE_PREVIEW_CACHE_BYTES ==> final(self).view().len() > 0 && final(self).view().last() == (id, value),
    {
        let ghost e = self.images.view();
        let mut removed = self.images.take_out_exec(id, Ghost(IMAGE_PREVIEW_LIMIT as nat), Ghost(IMAGE_PREVIEW_CACHE_BYTES as nat));
        if value.bytes > IMAGE_PREVIEW_CACHE_BYTES {
            removed.push((id, value));
            return removed;
        }
        let ghost value_copy = value;
        let mut dropped = self.images.push_and_evict(id, value, IMAGE_PREVIEW_LIMIT, IMAGE_PREVIEW_CACHE_BYTES);
        removed.append(&mut dropped);
        proof {
            lemma_evict_keeps_last(take_out(e, id).push((id, value_copy)), IMAGE_PREVIEW_LIMIT as nat, IMAGE_PREVIEW_CACHE_BYTES as nat);
        }
        removed
    }

    /// Empties the cache; returns every image.
    pub fn clear(&mut self) -> (removed: Vec<CacheEntry>)
        requires
            old(self).wf(),
        ensures
            final(self).wf(),
            removed@ == old(self).view(),
            final(self).view() == Seq::<CacheEntry>::empty(),
    {
        self.images.clear_exec()
    }
}

} // verus!
