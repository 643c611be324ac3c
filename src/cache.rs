use vstd::prelude::*;
use ritelinked::LinkedHashMap;
use crate::response::BlobResponse;

verus! {

broadcast use vstd::seq_lib::group_seq_properties;

#[verifier::external_type_specification]
#[verifier::external_body]
#[verifier::reject_recursive_types(K)]
#[verifier::reject_recursive_types(V)]
#[verifier::reject_recursive_types(S)]
pub struct ExLinkedHashMap<K, V, S>(LinkedHashMap<K, V, S>);

#[verifier::external_type_specification]
#[verifier::external_body]
pub struct ExDefaultHashBuilder(ritelinked::DefaultHashBuilder);

/// The entries of a map from request id to response, in the map's list order (front first).
pub uninterp spec fn linked_entries(m: LinkedHashMap<String, BlobResponse>) -> Seq<(Seq<char>, BlobResponse)>;

/// Holds of an entry whose key is not `key`.
pub open spec fn other_key(key: Seq<char>) -> spec_fn((Seq<char>, BlobResponse)) -> bool {
    |e: (Seq<char>, BlobResponse)| e.0 != key
}

/// Holds of an entry whose key is `key`.
pub open spec fn same_key(key: Seq<char>) -> spec_fn((Seq<char>, BlobResponse)) -> bool {
    |e: (Seq<char>, BlobResponse)| e.0 == key
}

/// Relies on `LinkedHashMap::new`: an empty map.
#[verifier::external_body]
fn map_new() -> (r: LinkedHashMap<String, BlobResponse>)
    ensures
        linked_entries(r) == Seq::<(Seq<char>, BlobResponse)>::empty(),
{
    LinkedHashMap::new()
}

/// Relies on `LinkedHashMap::insert`: the entry of an existing key leaves its place, takes
/// the new value and goes to the back; a new key is appended at the back. Keys are unique, so
/// the entries without the key are the others, in order.
#[verifier::external_body]
fn map_insert(m: &mut LinkedHashMap<String, BlobResponse>, k: String, v: BlobResponse) -> (r:
    Option<BlobResponse>)
    ensures
        linked_entries(*final(m)) == linked_entries(*old(m)).filter(other_key(k@)).push((k@, v)),
        r is None <==> !(exists|i: int|
            0 <= i < linked_entries(*old(m)).len() && (#[trigger] linked_entries(*old(m))[i]).0
                == k@),
{
    m.insert(k, v)
}

/// Relies on `LinkedHashMap::get`: the value stored under the key, if any.
#[verifier::external_body]
fn map_get<'a>(m: &'a LinkedHashMap<String, BlobResponse>, k: &str) -> (r: Option<&'a BlobResponse>)
    ensures
        r matches Some(v) ==> linked_entries(*m).contains((k@, *v)),
        r is None ==> !(exists|i: int|
            0 <= i < linked_entries(*m).len() && (#[trigger] linked_entries(*m)[i]).0 == k@),
{
    m.get(k)
}

/// Relies on `LinkedHashMap::len`: the number of entries.
#[verifier::external_body]
fn map_len(m: &LinkedHashMap<String, BlobResponse>) -> (r: usize)
    ensures
        r == linked_entries(*m).len(),
{
    m.len()
}

/// Relies on `LinkedHashMap::pop_front`: removes and returns the front entry, if any.
#[verifier::external_body]
fn map_pop_front(m: &mut LinkedHashMap<String, BlobResponse>) -> (r: Option<(String, BlobResponse)>)
    ensures
        linked_entries(*old(m)).len() == 0 ==> r is None && linked_entries(*final(m))
            == linked_entries(*old(m)),
        linked_entries(*old(m)).len() > 0 ==> (r matches Some(e) && (e.0@, e.1) == linked_entries(
            *old(m),
        )[0] && linked_entries(*final(m)) == linked_entries(*old(m)).drop_first()),
{
    m.pop_front()
}

/// The entries after `item` is stored: any entry under its request id leaves, and the item
/// goes to the back.
pub open spec fn upserted(entries: Seq<(Seq<char>, BlobResponse)>, item: BlobResponse) -> Seq<
    (Seq<char>, BlobResponse),
> {
    entries.filter(other_key(item@.request_id)).push((item@.request_id, item))
}

/// The entries kept by a cache of this capacity: past it, those at the front (the least
/// recently stored) are evicted.
pub open spec fn bounded(entries: Seq<(Seq<char>, BlobResponse)>, capacity: nat) -> Seq<
    (Seq<char>, BlobResponse),
> {
    if entries.len() > capacity {
        entries.subrange(entries.len() - capacity, entries.len() as int)
    } else {
        entries
    }
}

/// Each entry is keyed by its response's request id.
pub open spec fn keyed_by_request_id(entries: Seq<(Seq<char>, BlobResponse)>) -> bool {
    forall|i: int| 0 <= i < entries.len() ==> (#[trigger] entries[i]).0 == entries[i].1@.request_id
}

/// No two entries share a key.
pub open spec fn keys_unique(entries: Seq<(Seq<char>, BlobResponse)>) -> bool {
    forall|i: int, j: int|
        0 <= i < entries.len() && 0 <= j < entries.len() && i != j ==> (#[trigger] entries[i]).0
            != (#[trigger] entries[j]).0
}

/// What a cache holds: entries keyed by request id, one per id, within a capacity of at
/// least one.
pub open spec fn cache_valid(entries: Seq<(Seq<char>, BlobResponse)>, capacity: nat) -> bool {
    &&& capacity >= 1
    &&& entries.len() <= capacity
    &&& keyed_by_request_id(entries)
    &&& keys_unique(entries)
}

proof fn lemma_filter_keys_unique(s: Seq<(Seq<char>, BlobResponse)>, p: spec_fn((Seq<char>, BlobResponse)) -> bool)
    requires
        keys_unique(s),
    ensures
        keys_unique(s.filter(p)),
    decreases s.len(),
{
    reveal(Seq::filter);
    if s.len() > 0 {
        let d = s.drop_last();
        assert(keys_unique(d)) by {
            assert forall|i: int, j: int|
                0 <= i < d.len() && 0 <= j < d.len() && i != j implies (#[trigger] d[i]).0
                    != (#[trigger] d[j]).0 by {
                assert(d[i] == s[i] && d[j] == s[j]);
            }
        }
        lemma_filter_keys_unique(d, p);
        let f = d.filter(p);
        if p(s.last()) {
            assert forall|i: int| 0 <= i < f.len() implies (#[trigger] f[i]).0 != s.last().0 by {
                assert(f.contains(f[i]));
                d.lemma_filter_contains_rev(p, f[i]);
                let j = choose|j: int| 0 <= j < d.len() && d[j] == f[i];
                assert(s[j] == d[j]);
                assert(s[s.len() - 1] == s.last());
            }
            let g = f.push(s.last());
            assert(s.filter(p) == g);
            assert forall|i: int, j: int|
                0 <= i < g.len() && 0 <= j < g.len() && i != j implies (#[trigger] g[i]).0
                    != (#[trigger] g[j]).0 by {
                if i < f.len() && j < f.len() {
                    assert(g[i] == f[i] && g[j] == f[j]);
                } else if i < f.len() {
                    assert(g[i] == f[i]);
                } else if j < f.len() {
                    assert(g[j] == f[j]);
                }
            }
        }
    }
}

/// Storing a response keeps the entries keyed by request id, one per id.
proof fn lemma_upserted_valid(entries: Seq<(Seq<char>, BlobResponse)>, item: BlobResponse)
    requires
        keyed_by_request_id(entries),
        keys_unique(entries),
    ensures
        keyed_by_request_id(upserted(entries, item)),
        keys_unique(upserted(entries, item)),
        upserted(entries, item).len() <= entries.len() + 1,
{
    let k = item@.request_id;
    let f = entries.filter(other_key(k));
    entries.lemma_filter_len(other_key(k));
    lemma_filter_keys_unique(entries, other_key(k));
    let u = f.push((k, item));
    assert forall|i: int| 0 <= i < f.len() implies (#[trigger] f[i]).0 == f[i].1@.request_id
        && f[i].0 != k by {
        entries.lemma_filter_pred(other_key(k), i);
        assert(f.contains(f[i]));
        entries.lemma_filter_contains_rev(other_key(k), f[i]);
    }
    assert forall|i: int| 0 <= i < u.len() implies (#[trigger] u[i]).0 == u[i].1@.request_id by {
        if i < f.len() {
            assert(u[i] == f[i]);
        }
    }
    assert forall|i: int, j: int|
        0 <= i < u.len() && 0 <= j < u.len() && i != j implies (#[trigger] u[i]).0
            != (#[trigger] u[j]).0 by {
        if i < f.len() && j < f.len() {
            assert(u[i] == f[i] && u[j] == f[j]);
        } else if i < f.len() {
            assert(u[i] == f[i]);
        } else if j < f.len() {
            assert(u[j] == f[j]);
        }
    }
}

pub struct ResponseCacheView {
    pub entries: Seq<(Seq<char>, BlobResponse)>,
    pub capacity: nat,
}

/// Dispersal responses keyed by request id, at most `capacity` of them, evicting the least
/// recently stored first.
pub struct ResponseCache {
    entries: LinkedHashMap<String, BlobResponse>,
    capacity: usize,
}

impl View for ResponseCache {
    type V = ResponseCacheView;

    closed spec fn view(&self) -> ResponseCacheView {
        ResponseCacheView { entries: linked_entries(self.entries), capacity: self.capacity as nat }
    }
}

impl ResponseCache {
    #[verifier::type_invariant]
    spec fn valid(self) -> bool {
        cache_valid(linked_entries(self.entries), self.capacity as nat)
    }

    /// An empty cache; a cache keeps at least one response.
    pub fn new(capacity: usize) -> (r: Self)
        requires
            capacity >= 1,
        ensures
            r@.entries == Seq::<(Seq<char>, BlobResponse)>::empty(),
            r@.capacity == capacity,
            cache_valid(r@.entries, r@.capacity),
    {
        ResponseCache { entries: map_new(), capacity }
    }

    /// Stores a response under its request id, replacing any earlier one with that id.
    pub fn cache(&mut self, item: &BlobResponse)
        ensures
            final(self)@.entries == bounded(upserted(old(self)@.entries, *item), old(self)@.capacity),
            final(self)@.capacity == old(self)@.capacity,
            cache_valid(final(self)@.entries, final(self)@.capacity),
    {
        proof {
            use_type_invariant(&*self);
        }
        let ghost before = linked_entries(self.entries);
        let mut entries = map_new();
        core::mem::swap(&mut self.entries, &mut entries);
        let key = item.request_id();
        let _ = map_insert(&mut entries, key, item.clone());
        let ghost stored = linked_entries(entries);
        proof {
            lemma_upserted_valid(before, *item);
        }
        let ghost cap = self.capacity as nat;
        let mut n = map_len(&entries);
        while n > self.capacity
            invariant
                self.capacity == cap,
                n == linked_entries(entries).len(),
                n <= stored.len(),
                n >= cap || n == stored.len(),
                linked_entries(entries) == stored.subrange(stored.len() - n, stored.len() as int),
            decreases n,
        {
            let _ = map_pop_front(&mut entries);
            n = n - 1;
        }
        let ghost kept = linked_entries(entries);
        assert(keyed_by_request_id(kept) && keys_unique(kept)) by {
            let off = stored.len() - n;
            assert forall|i: int| 0 <= i < kept.len() implies (#[trigger] kept[i]).0
                == kept[i].1@.request_id by {
                assert(kept[i] == stored[off + i]);
            }
            assert forall|i: int, j: int|
                0 <= i < kept.len() && 0 <= j < kept.len() && i != j implies (#[trigger] kept[i]).0
                    != (#[trigger] kept[j]).0 by {
                assert(kept[i] == stored[off + i] && kept[j] == stored[off + j]);
            }
        }
        core::mem::swap(&mut self.entries, &mut entries);
    }

    /// The response stored under a request id.
    pub fn get(&self, request_id: &str) -> (r: Option<&BlobResponse>)
        ensures
            r matches Some(v) ==> self@.entries.contains((request_id@, *v)),
            r matches Some(v) ==> v@.request_id == request_id@,
            r is None ==> !(exists|i: int|
                0 <= i < self@.entries.len() && (#[trigger] self@.entries[i]).0 == request_id@),
    {
        proof {
            use_type_invariant(self);
        }
        map_get(&self.entries, request_id)
    }

    pub fn len(&self) -> (r: usize)
        ensures
            r == self@.entries.len(),
            cache_valid(self@.entries, self@.capacity),
    {
        proof {
            use_type_invariant(self);
        }
        map_len(&self.entries)
    }

    pub fn capacity(&self) -> (r: usize)
        ensures
            r == self@.capacity,
    {
        self.capacity
    }
}

/// Filtering by a predicate that every element meets keeps the whole sequence.
proof fn lemma_filter_keeps_all<A>(s: Seq<A>, p: spec_fn(A) -> bool)
    requires
        forall|i: int| 0 <= i < s.len() ==> p(#[trigger] s[i]),
    ensures
        s.filter(p) == s,
    decreases s.len(),
{
    reveal(Seq::filter);
    if s.len() > 0 {
        lemma_filter_keeps_all(s.drop_last(), p);
        assert(s.drop_last().push(s.last()) =~= s);
    }
}

/// Filtering by a predicate that no element meets leaves nothing.
proof fn lemma_filter_keeps_none<A>(s: Seq<A>, p: spec_fn(A) -> bool)
    requires
        forall|i: int| 0 <= i < s.len() ==> !p(#[trigger] s[i]),
    ensures
        s.filter(p).len() == 0,
    decreases s.len(),
{
    reveal(Seq::filter);
    if s.len() > 0 {
        lemma_filter_keeps_none(s.drop_last(), p);
    }
}

/// Caching the same response twice leaves the cache as caching it once did, and either way
/// exactly one entry is held under its request id.
pub proof fn lemma_cache_idempotent(
    entries: Seq<(Seq<char>, BlobResponse)>,
    capacity: nat,
    item: BlobResponse,
)
    requires
        cache_valid(entries, capacity),
    ensures
        bounded(upserted(bounded(upserted(entries, item), capacity), item), capacity) == bounded(
            upserted(entries, item),
            capacity,
        ),
        bounded(upserted(entries, item), capacity).filter(same_key(item@.request_id)).len() == 1,
{
    let k = item@.request_id;
    let x = (k, item);
    let f = entries.filter(other_key(k));
    entries.lemma_filter_len(other_key(k));
    let u = f.push(x);
    let g = if u.len() > capacity {
        f.subrange(1, f.len() as int)
    } else {
        f
    };
    let once = bounded(upserted(entries, item), capacity);
    assert(once =~= g.push(x));
    assert forall|i: int| 0 <= i < g.len() implies (other_key(k))(#[trigger] g[i]) by {
        if u.len() > capacity {
            entries.lemma_filter_pred(other_key(k), i + 1);
        } else {
            entries.lemma_filter_pred(other_key(k), i);
        }
    }
    lemma_filter_keeps_all(g, other_key(k));
    g.lemma_filter_push(x, other_key(k));
    assert(upserted(once, item) == once);
    assert forall|i: int| 0 <= i < g.len() implies !(same_key(k))(#[trigger] g[i]) by {
        assert((other_key(k))(g[i]));
    }
    lemma_filter_keeps_none(g, same_key(k));
    g.lemma_filter_push(x, same_key(k));
}

} // verus!
