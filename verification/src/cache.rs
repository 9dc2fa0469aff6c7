//! A response cache with one lifespan for all entries and at most one
//! computation in flight per key.
//!
//! The cache decides; the caller computes. `begin` says whether a request
//! is served from the cache, has to compute its response, or has to wait
//! for a computation already under way; `complete` stores what was
//! computed, and `abandon` gives a computation up without storing anything.
use vstd::prelude::*;
use vstd::hash_map::StringHashMap;
use vstd::string::*;
use crate::response::{Response, ResponseView};

verus! {

/// The cache as plain values: the lifespan of an entry, the stored
/// responses with the time each was stored at, and the keys whose response
/// is being computed.
pub struct CacheView {
    pub lifespan: nat,
    pub stored: Map<Seq<char>, (ResponseView, nat)>,
    pub pending: Set<Seq<char>>,
}

/// What `begin` tells a request to do.
#[derive(Debug)]
pub enum Lookup {
    /// Answer with this copy of the stored response.
    Hit(Response),
    /// Compute the response, then call `complete` or `abandon`.
    Compute,
    /// Another request is computing the response for this key: wait for it
    /// and ask again.
    Join,
}

/// A lookup as plain values.
pub enum LookupView {
    Hit(ResponseView),
    Compute,
    Join,
}

impl Lookup {
    /// The lookup as plain values.
    pub open spec fn view(&self) -> LookupView {
        match self {
            Lookup::Hit(response) => LookupView::Hit(response@),
            Lookup::Compute => LookupView::Compute,
            Lookup::Join => LookupView::Join,
        }
    }
}

/// An entry is live while less than a lifespan has passed since it was
/// stored.
pub open spec fn is_live(cache: CacheView, key: Seq<char>, now: nat) -> bool {
    cache.stored.contains_key(key) && now - cache.stored[key].1 < cache.lifespan
}

/// What a request for `key` at time `now` is told: a live entry is a hit; if
/// there is none, the first request computes and every other one joins it.
pub open spec fn lookup_of(cache: CacheView, key: Seq<char>, now: nat) -> LookupView {
    if is_live(cache, key, now) {
        LookupView::Hit(cache.stored[key].0)
    } else if cache.pending.contains(key) {
        LookupView::Join
    } else {
        LookupView::Compute
    }
}

/// The cache after a request for `key` at time `now`: a request that is
/// told to compute is recorded as in flight; nothing else changes.
pub open spec fn after_begin(cache: CacheView, key: Seq<char>, now: nat) -> CacheView {
    if lookup_of(cache, key, now) is Compute {
        CacheView { pending: cache.pending.insert(key), ..cache }
    } else {
        cache
    }
}

/// The cache after the response for `key` was computed at time `now`.
pub open spec fn after_complete(
    cache: CacheView,
    key: Seq<char>,
    response: ResponseView,
    now: nat,
) -> CacheView {
    CacheView {
        stored: cache.stored.insert(key, (response, now)),
        pending: cache.pending.remove(key),
        ..cache
    }
}

/// The cache after the computation for `key` was given up.
pub open spec fn after_abandon(cache: CacheView, key: Seq<char>) -> CacheView {
    CacheView { pending: cache.pending.remove(key), ..cache }
}

/// The key of a request: its method, path and query string, joined so that
/// the key is the request line's target with the method in front.
pub open spec fn key_of(method: Seq<char>, path: Seq<char>, query: Seq<char>) -> Seq<char> {
    method + " "@ + path + "?"@ + query
}

/// Derives the cache key of a request from its method, path and full query
/// string, each taken as it is.
pub fn cache_key(method: &str, path: &str, query: &str) -> (key: String)
    ensures
        key@ == key_of(method@, path@, query@),
{
    String::from_str(method).concat(" ").concat(path).concat("?").concat(query)
}

/// Requests that differ in their query string have different keys: the
/// query is compared as written, with no reordering of parameters.
pub proof fn lemma_key_keeps_query(
    method: Seq<char>,
    path: Seq<char>,
    first: Seq<char>,
    second: Seq<char>,
)
    requires
        first != second,
    ensures
        key_of(method, path, first) != key_of(method, path, second),
{
    let front = method + " "@ + path + "?"@;
    let a = key_of(method, path, first);
    let b = key_of(method, path, second);
    assert(a.subrange(front.len() as int, a.len() as int) =~= first);
    assert(b.subrange(front.len() as int, b.len() as int) =~= second);
}

/// What an entry stores, as plain values.
pub open spec fn stored_view(entry: (Response, u64)) -> (ResponseView, nat) {
    (entry.0@, entry.1 as nat)
}

/// The response cache.
pub struct ResponseCache {
    lifespan: u64,
    stored: StringHashMap<(Response, u64)>,
    pending: StringHashMap<()>,
}

impl ResponseCache {
    /// The cache as plain values.
    pub closed spec fn view(&self) -> CacheView {
        CacheView {
            lifespan: self.lifespan as nat,
            stored: self.stored@.map_values(|entry: (Response, u64)| stored_view(entry)),
            pending: self.pending@.dom(),
        }
    }

    /// An empty cache whose entries live for `lifespan` time units.
    pub fn new(lifespan: u64) -> (cache: ResponseCache)
        ensures
            cache@ == (CacheView {
                lifespan: lifespan as nat,
                stored: Map::empty(),
                pending: Set::empty(),
            }),
    {
        let cache = ResponseCache {
            lifespan,
            stored: StringHashMap::new(),
            pending: StringHashMap::new(),
        };
        assert(cache@.stored =~= Map::empty());
        assert(cache@.pending =~= Set::empty());
        cache
    }

    /// The lifespan of an entry.
    pub fn lifespan(&self) -> (lifespan: u64)
        ensures
            lifespan == self@.lifespan,
    {
        self.lifespan
    }

    /// Tells a request for `key` at time `now` what to do, and records it
    /// as in flight where it is told to compute.
    pub fn begin(&mut self, key: &str, now: u64) -> (lookup: Lookup)
        ensures
            lookup@ == lookup_of(old(self)@, key@, now as nat),
            final(self)@ == after_begin(old(self)@, key@, now as nat),
    {
        let hit: Option<Response> = match self.stored.get(key) {
            Some(entry) => {
                if now < entry.1 || now - entry.1 < self.lifespan {
                    Some(entry.0.duplicate())
                } else {
                    None
                }
            },
            None => None,
        };
        if let Some(copy) = hit {
            Lookup::Hit(copy)
        } else if self.pending.contains_key(key) {
            Lookup::Join
        } else {
            let ghost before = self@;
            self.pending.insert(key.to_owned(), ());
            proof {
                assert(self@.pending =~= before.pending.insert(key@));
            }
            Lookup::Compute
        }
    }

    /// Stores `response` as computed for `key` at time `now`; the key is no
    /// longer in flight.
    pub fn complete(&mut self, key: &str, response: Response, now: u64)
        ensures
            final(self)@ == after_complete(old(self)@, key@, response@, now as nat),
    {
        let ghost before = self@;
        self.stored.insert(key.to_owned(), (response, now));
        self.pending.remove(key);
        proof {
            assert(self@.stored =~= before.stored.insert(key@, (response@, now as nat)));
            assert(self@.pending =~= before.pending.remove(key@));
        }
    }

    /// Answers a request for `key` at time `now` in one call: a live entry
    /// is returned as it was stored and `compute` is not run; otherwise
    /// `compute` is run once and what it returns is stored before it is
    /// handed out. `None` where a computation begun for the key has neither
    /// been completed nor given up, so that a second one must not start.
    pub fn get_or_compute<F: FnOnce() -> Response>(&mut self, key: &str, now: u64, compute: F) -> (r:
        Option<Response>)
        requires
            compute.requires(()),
        ensures
            match lookup_of(old(self)@, key@, now as nat) {
                LookupView::Hit(stored) => r is Some && r->Some_0@ == stored && final(self)@ == old(
                    self,
                )@,
                LookupView::Join => r is None && final(self)@ == old(self)@,
                LookupView::Compute => r is Some && exists|computed: Response|
                    #![trigger compute.ensures((), computed)]
                    compute.ensures((), computed) && computed@ == r->Some_0@ && final(self)@
                        == after_complete(old(self)@, key@, computed@, now as nat),
            },
    {
        let ghost before = self@;
        match self.begin(key, now) {
            Lookup::Hit(stored) => Some(stored),
            Lookup::Join => None,
            Lookup::Compute => {
                let computed = compute();
                let copy = computed.duplicate();
                self.complete(key, computed, now);
                proof {
                    assert(before.pending.insert(key@).remove(key@) =~= before.pending.remove(
                        key@,
                    ));
                }
                Some(copy)
            },
        }
    }

    /// Gives up the computation for `key`: nothing is stored, and the next
    /// request for the key computes afresh.
    pub fn abandon(&mut self, key: &str)
        ensures
            final(self)@ == after_abandon(old(self)@, key@),
    {
        let ghost before = self@;
        self.pending.remove(key);
        proof {
            assert(self@.pending =~= before.pending.remove(key@));
        }
    }
}

/// While the response for a key is being computed and no live entry
/// exists, every further request for that key joins the computation: from
/// the request that is told to compute until `complete` or `abandon`, no
/// other request for the key is told to compute.
pub proof fn lemma_one_computation_per_key(cache: CacheView, key: Seq<char>, first: nat, second: nat)
    requires
        lookup_of(cache, key, first) is Compute,
    ensures
        !(lookup_of(after_begin(cache, key, first), key, second) is Compute),
        !(lookup_of(
            after_begin(after_begin(cache, key, first), key, second),
            key,
            second,
        ) is Compute),
        after_begin(after_begin(cache, key, first), key, second) == after_begin(cache, key, first),
{
}

/// An entry stored at `stored_at` is served to every request before its
/// lifespan has passed, and to none from then on: such a request is told to
/// compute afresh.
pub proof fn lemma_entry_expires(
    cache: CacheView,
    key: Seq<char>,
    response: ResponseView,
    stored_at: nat,
    now: nat,
)
    ensures
        now < stored_at + cache.lifespan ==> lookup_of(
            after_complete(cache, key, response, stored_at),
            key,
            now,
        ) == LookupView::Hit(response),
        now >= stored_at + cache.lifespan ==> lookup_of(
            after_complete(cache, key, response, stored_at),
            key,
            now,
        ) is Compute,
{
}

/// Serving an entry leaves the cache as it was: however often a stored
/// response is served while it lives, each request gets the response as it
/// was stored, its cache-control directive included.
pub proof fn lemma_hits_are_stable(cache: CacheView, key: Seq<char>, first: nat, second: nat)
    requires
        lookup_of(cache, key, first) is Hit,
        is_live(cache, key, second),
    ensures
        after_begin(cache, key, first) == cache,
        lookup_of(after_begin(cache, key, first), key, second) == lookup_of(cache, key, first),
{
}

/// Requests for different keys do not affect each other: what a request is
/// told does not depend on the requests begun, completed or given up for
/// any other key.
pub proof fn lemma_keys_are_independent(
    cache: CacheView,
    key: Seq<char>,
    other: Seq<char>,
    response: ResponseView,
    at: nat,
    now: nat,
)
    requires
        key != other,
    ensures
        lookup_of(after_begin(cache, other, at), key, now) == lookup_of(cache, key, now),
        lookup_of(after_complete(cache, other, response, at), key, now) == lookup_of(
            cache,
            key,
            now,
        ),
        lookup_of(after_abandon(cache, other), key, now) == lookup_of(cache, key, now),
{
}

} // verus!
