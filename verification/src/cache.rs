//! The time-to-live cache in front of the release queries: one slot for the
//! list of repositories and one for the releases of each repository name.
//! An entry counts as absent once its deadline has passed; a read that
//! misses is settled by the caller's fetch, and only a fetch that succeeded
//! changes the cache. Time is a count of milliseconds handed in by the
//! caller, so the same reading decides expiry everywhere in one call.

use vstd::prelude::*;
use crate::release::{
    copy_releases, copy_repositories, LookupError, Release, ReleaseView, Repository,
    RepositoryView,
};
use crate::text::same_text;

verus! {

/// How long a stored listing stays valid: five minutes, in milliseconds.
pub const CACHE_TTL_MILLIS: u64 = 300_000;

/// A value together with the last instant at which it may still be read.
pub struct CacheEntry<T> {
    pub data: T,
    pub expires_at: u64,
}

impl<T> CacheEntry<T> {
    /// Whether an entry with this deadline is stale at `now`: exactly when
    /// `now` lies after the deadline.
    pub open spec fn expired_at(expires_at: u64, now: u64) -> bool {
        now > expires_at
    }

    /// An entry holding `data` that is valid from `now` for `ttl` more
    /// milliseconds.
    pub fn new(data: T, now: u64, ttl: u64) -> (entry: Self)
        requires
            now + ttl <= u64::MAX,
        ensures
            entry.data == data,
            entry.expires_at == now + ttl,
    {
        CacheEntry { data, expires_at: now + ttl }
    }

    /// Whether the entry must be treated as absent at `now`.
    pub fn is_expired(&self, now: u64) -> (expired: bool)
        ensures
            expired == Self::expired_at(self.expires_at, now),
    {
        now > self.expires_at
    }
}

/// The mathematical value of a cache entry: what it holds and until when.
pub ghost struct Cached<T> {
    pub data: T,
    pub expires_at: u64,
}

/// The mathematical value of a [`ReleaseCache`]: at most one list of
/// repositories, and at most one list of releases for each repository name.
pub ghost struct CacheView {
    pub repositories: Option<Cached<Seq<RepositoryView>>>,
    pub releases: Map<Seq<char>, Cached<Seq<ReleaseView>>>,
}

impl CacheView {
    /// The cache that holds nothing.
    pub open spec fn empty() -> CacheView {
        CacheView { repositories: None, releases: Map::empty() }
    }

    /// What a read of the repositories at `now` yields: the stored list
    /// while it has not expired, nothing otherwise.
    pub open spec fn read_repositories(self, now: u64) -> Option<Seq<RepositoryView>> {
        match self.repositories {
            Some(entry) => if now > entry.expires_at {
                None
            } else {
                Some(entry.data)
            },
            None => None,
        }
    }

    /// What a read of the releases of `name` at `now` yields: the stored
    /// list while it has not expired, nothing otherwise.
    pub open spec fn read_releases(self, name: Seq<char>, now: u64) -> Option<Seq<ReleaseView>> {
        if self.releases.dom().contains(name) && now <= self.releases[name].expires_at {
            Some(self.releases[name].data)
        } else {
            None
        }
    }

    /// The cache after `data` was stored as the repositories at `now`.
    pub open spec fn with_repositories(self, data: Seq<RepositoryView>, now: u64) -> CacheView {
        CacheView {
            repositories: Some(Cached { data, expires_at: (now + CACHE_TTL_MILLIS) as u64 }),
            releases: self.releases,
        }
    }

    /// The cache after a read of the repositories that missed was settled
    /// at `now`: what the fetch obtained is stored, and a fetch that failed
    /// changes nothing.
    pub open spec fn settled_repositories(
        self,
        fetched: Option<Seq<RepositoryView>>,
        now: u64,
    ) -> CacheView {
        match fetched {
            Some(data) => self.with_repositories(data, now),
            None => self,
        }
    }

    /// The cache after a read of the releases of `name` that missed was
    /// settled at `now`: what the fetch obtained is stored, and a fetch that
    /// failed changes nothing.
    pub open spec fn settled_releases(
        self,
        name: Seq<char>,
        fetched: Option<Seq<ReleaseView>>,
        now: u64,
    ) -> CacheView {
        match fetched {
            Some(data) => self.with_releases(name, data, now),
            None => self,
        }
    }

    /// The cache after `data` was stored as the releases of `name` at
    /// `now`: that one slot is replaced as a whole, all others stay.
    pub open spec fn with_releases(
        self,
        name: Seq<char>,
        data: Seq<ReleaseView>,
        now: u64,
    ) -> CacheView {
        CacheView {
            repositories: self.repositories,
            releases: self.releases.insert(
                name,
                Cached { data, expires_at: (now + CACHE_TTL_MILLIS) as u64 },
            ),
        }
    }
}

/// What a fetch obtained, by value: the list, or nothing where it failed.
pub open spec fn fetched_view<T: DeepView>(fetched: Result<Vec<T>, LookupError>) -> Option<
    Seq<T::V>,
> {
    match fetched {
        Ok(data) => Some(data.deep_view()),
        Err(_) => None,
    }
}

/// The releases cached for one repository name.
struct Slot {
    name: String,
    entry: CacheEntry<Vec<Release>>,
}

/// The value of the entry in `slot`.
spec fn cached_releases(slot: Slot) -> Cached<Seq<ReleaseView>> {
    Cached { data: slot.entry.data.deep_view(), expires_at: slot.entry.expires_at }
}

/// Whether no two of `slots` carry the same name.
spec fn distinct_names(slots: Seq<Slot>) -> bool {
    forall|i: int, j: int|
        0 <= i < slots.len() && 0 <= j < slots.len() && i != j ==> slots[i].name@ != slots[j].name@
}

/// Whether one of `slots` carries `name`.
spec fn names(slots: Seq<Slot>, name: Seq<char>) -> bool {
    exists|i: int| 0 <= i < slots.len() && slots[i].name@ == name
}

/// The position of a slot that carries `name`.
spec fn position_of(slots: Seq<Slot>, name: Seq<char>) -> int {
    choose|i: int| 0 <= i < slots.len() && slots[i].name@ == name
}

/// The map from names to entries that `slots` stand for.
spec fn slot_map(slots: Seq<Slot>) -> Map<Seq<char>, Cached<Seq<ReleaseView>>> {
    Map::new(
        |name: Seq<char>| names(slots, name),
        |name: Seq<char>| cached_releases(slots[position_of(slots, name)]),
    )
}

/// With distinct names, each slot is what the map holds under its name.
proof fn lemma_slot_map_at(slots: Seq<Slot>, i: int)
    requires
        distinct_names(slots),
        0 <= i < slots.len(),
    ensures
        slot_map(slots).dom().contains(slots[i].name@),
        slot_map(slots)[slots[i].name@] == cached_releases(slots[i]),
{
    assert(names(slots, slots[i].name@));
    assert(position_of(slots, slots[i].name@) == i);
}

/// Replacing the entry of a slot keeps the names distinct and changes the
/// map at that name only.
proof fn lemma_replaced_slot(before: Seq<Slot>, i: int, slot: Slot)
    requires
        distinct_names(before),
        0 <= i < before.len(),
        slot.name@ == before[i].name@,
    ensures
        distinct_names(before.update(i, slot)),
        slot_map(before.update(i, slot)) == slot_map(before).insert(
            slot.name@,
            cached_releases(slot),
        ),
{
    let after = before.update(i, slot);
    assert forall|a: int, b: int|
        0 <= a < after.len() && 0 <= b < after.len() && a != b implies after[a].name@
        != after[b].name@ by {
        assert(after[a].name@ == before[a].name@);
        assert(after[b].name@ == before[b].name@);
    }
    assert forall|key: Seq<char>| names(after, key) == names(before, key) by {
        if names(before, key) {
            let w = position_of(before, key);
            assert(after[w].name@ == key);
        }
        if names(after, key) {
            let w = position_of(after, key);
            assert(before[w].name@ == key);
        }
    }
    assert forall|key: Seq<char>| names(after, key) implies #[trigger] slot_map(after)[key]
        == slot_map(before).insert(slot.name@, cached_releases(slot))[key] by {
        let w = position_of(after, key);
        lemma_slot_map_at(after, w);
        if w != i {
            lemma_slot_map_at(before, w);
        }
    }
    assert(slot_map(after) =~= slot_map(before).insert(slot.name@, cached_releases(slot)));
}

/// Adding a slot under a name that no slot carries keeps the names
/// distinct and adds that name to the map.
proof fn lemma_added_slot(before: Seq<Slot>, slot: Slot)
    requires
        distinct_names(before),
        !names(before, slot.name@),
    ensures
        distinct_names(before.push(slot)),
        slot_map(before.push(slot)) == slot_map(before).insert(slot.name@, cached_releases(slot)),
{
    let after = before.push(slot);
    let last = before.len() as int;
    assert forall|a: int, b: int|
        0 <= a < after.len() && 0 <= b < after.len() && a != b implies after[a].name@
        != after[b].name@ by {
        if a < last {
            assert(after[a] == before[a]);
        }
        if b < last {
            assert(after[b] == before[b]);
        }
    }
    assert forall|key: Seq<char>|
        names(after, key) == (key == slot.name@ || names(before, key)) by {
        if names(before, key) {
            let w = position_of(before, key);
            assert(after[w].name@ == key);
        }
        if key == slot.name@ {
            assert(after[last].name@ == key);
        }
        if names(after, key) {
            let w = position_of(after, key);
            if w < last {
                assert(before[w].name@ == key);
            }
        }
    }
    assert forall|key: Seq<char>| names(after, key) implies #[trigger] slot_map(after)[key]
        == slot_map(before).insert(slot.name@, cached_releases(slot))[key] by {
        let w = position_of(after, key);
        lemma_slot_map_at(after, w);
        if w < last {
            assert(after[w] == before[w]);
            lemma_slot_map_at(before, w);
        }
    }
    assert(slot_map(after) =~= slot_map(before).insert(slot.name@, cached_releases(slot)));
}

/// The position of the slot that carries `name`, if there is one.
fn find_slot(slots: &Vec<Slot>, name: &str) -> (found: Option<usize>)
    ensures
        match found {
            Some(i) => i < slots.len() && slots[i as int].name@ == name@,
            None => !names(slots@, name@),
        },
{
    let mut i: usize = 0;
    while i < slots.len()
        invariant
            i <= slots.len(),
            forall|k: int| 0 <= k < i ==> slots[k].name@ != name@,
        decreases slots.len() - i,
    {
        if same_text(slots[i].name.as_str(), name) {
            return Some(i);
        }
        i += 1;
    }
    None
}

/// The process-wide cache of release metadata. It is made once and handed
/// to whoever needs it. Entries are replaced as a whole and never removed.
pub struct ReleaseCache {
    repositories: Option<CacheEntry<Vec<Repository>>>,
    slots: Vec<Slot>,
}

impl View for ReleaseCache {
    type V = CacheView;

    closed spec fn view(&self) -> CacheView {
        CacheView {
            repositories: match self.repositories {
                Some(entry) => Some(
                    Cached { data: entry.data.deep_view(), expires_at: entry.expires_at },
                ),
                None => None,
            },
            releases: slot_map(self.slots@),
        }
    }
}

impl ReleaseCache {
    /// Each repository name has at most one slot.
    #[verifier::type_invariant]
    spec fn one_slot_per_name(&self) -> bool {
        distinct_names(self.slots@)
    }

    /// A cache that holds nothing.
    pub fn new() -> (cache: ReleaseCache)
        ensures
            cache@ == CacheView::empty(),
    {
        let cache = ReleaseCache { repositories: None, slots: Vec::new() };
        assert(cache@.releases =~= Map::empty());
        cache
    }

    /// Reads the repositories at `now`: a copy of the stored list while it
    /// has not expired.
    pub fn lookup_repositories(&self, now: u64) -> (hit: Option<Vec<Repository>>)
        ensures
            hit.deep_view() == self@.read_repositories(now),
    {
        match &self.repositories {
            Some(entry) => {
                if entry.is_expired(now) {
                    None
                } else {
                    Some(copy_repositories(&entry.data))
                }
            },
            None => None,
        }
    }

    /// Reads the releases of `name` at `now`: a copy of the stored list
    /// while it has not expired.
    pub fn lookup_releases(&self, name: &str, now: u64) -> (hit: Option<Vec<Release>>)
        ensures
            hit.deep_view() == self@.read_releases(name@, now),
    {
        match find_slot(&self.slots, name) {
            Some(i) => {
                proof {
                    use_type_invariant(self);
                    lemma_slot_map_at(self.slots@, i as int);
                }
                if self.slots[i].entry.is_expired(now) {
                    None
                } else {
                    Some(copy_releases(&self.slots[i].entry.data))
                }
            },
            None => None,
        }
    }

    /// Stores `data` as the repositories, valid for five minutes from
    /// `now`.
    pub fn store_repositories(&mut self, data: Vec<Repository>, now: u64)
        requires
            now + CACHE_TTL_MILLIS <= u64::MAX,
        ensures
            final(self)@ == old(self)@.with_repositories(data.deep_view(), now),
    {
        proof {
            use_type_invariant(&*self);
        }
        self.repositories = Some(CacheEntry::new(data, now, CACHE_TTL_MILLIS));
    }

    /// Stores `data` as the releases of `name`, valid for five minutes
    /// from `now`, in place of whatever was stored for that name.
    pub fn store_releases(&mut self, name: &str, data: Vec<Release>, now: u64)
        requires
            now + CACHE_TTL_MILLIS <= u64::MAX,
        ensures
            final(self)@ == old(self)@.with_releases(name@, data.deep_view(), now),
    {
        proof {
            use_type_invariant(&*self);
        }
        let ghost before = self.slots@;
        let slot = Slot {
            name: name.to_owned(),
            entry: CacheEntry::new(data, now, CACHE_TTL_MILLIS),
        };
        let mut slots: Vec<Slot> = Vec::new();
        core::mem::swap(&mut self.slots, &mut slots);
        match find_slot(&slots, name) {
            Some(i) => {
                proof {
                    lemma_replaced_slot(before, i as int, slot);
                }
                slots.set(i, slot);
            },
            None => {
                proof {
                    lemma_added_slot(before, slot);
                }
                slots.push(slot);
            },
        }
        self.slots = slots;
    }

    /// Ends a read of the repositories that missed the cache. A list that
    /// was obtained is stored and returned; a failure is returned and
    /// leaves the cache as it was, so that the next read tries again.
    pub fn settle_repositories(
        &mut self,
        now: u64,
        fetched: Result<Vec<Repository>, LookupError>,
    ) -> (settled: Result<Vec<Repository>, LookupError>)
        requires
            fetched is Ok ==> now + CACHE_TTL_MILLIS <= u64::MAX,
        ensures
            final(self)@ == old(self)@.settled_repositories(fetched_view(fetched), now),
            match fetched {
                Ok(data) => settled is Ok && settled->Ok_0.deep_view() == data.deep_view(),
                Err(error) => settled == Err::<Vec<Repository>, LookupError>(error),
            },
    {
        match fetched {
            Ok(data) => {
                let copy = copy_repositories(&data);
                self.store_repositories(data, now);
                Ok(copy)
            },
            Err(error) => Err(error),
        }
    }

    /// Ends a read of the releases of `name` that missed the cache. A list
    /// that was obtained is stored and returned; a failure is returned and
    /// leaves the cache as it was, so that the next read tries again.
    pub fn settle_releases(
        &mut self,
        name: &str,
        now: u64,
        fetched: Result<Vec<Release>, LookupError>,
    ) -> (settled: Result<Vec<Release>, LookupError>)
        requires
            fetched is Ok ==> now + CACHE_TTL_MILLIS <= u64::MAX,
        ensures
            final(self)@ == old(self)@.settled_releases(name@, fetched_view(fetched), now),
            match fetched {
                Ok(data) => settled is Ok && settled->Ok_0.deep_view() == data.deep_view(),
                Err(error) => settled == Err::<Vec<Release>, LookupError>(error),
            },
    {
        match fetched {
            Ok(data) => {
                let copy = copy_releases(&data);
                self.store_releases(name, data, now);
                Ok(copy)
            },
            Err(error) => Err(error),
        }
    }
}

/// A list of releases stored at `stored_at` is what every read of the same
/// name yields up to its deadline, five minutes later: the stored value
/// itself, with no need for a fetch.
pub proof fn lemma_fresh_releases_are_served(
    cache: CacheView,
    name: Seq<char>,
    data: Seq<ReleaseView>,
    stored_at: u64,
    now: u64,
)
    requires
        stored_at + CACHE_TTL_MILLIS <= u64::MAX,
        now <= stored_at + CACHE_TTL_MILLIS,
    ensures
        cache.with_releases(name, data, stored_at).read_releases(name, now) == Some(data),
{
}

/// A list of repositories stored at `stored_at` is what every read yields
/// up to its deadline, five minutes later.
pub proof fn lemma_fresh_repositories_are_served(
    cache: CacheView,
    data: Seq<RepositoryView>,
    stored_at: u64,
    now: u64,
)
    requires
        stored_at + CACHE_TTL_MILLIS <= u64::MAX,
        now <= stored_at + CACHE_TTL_MILLIS,
    ensures
        cache.with_repositories(data, stored_at).read_repositories(now) == Some(data),
{
}

/// After its deadline an entry counts as absent: a read yields nothing, so
/// the caller has to fetch. Settling that one fetch at the time of the read
/// makes the fetched list the answer, and the next reads are served from
/// it.
pub proof fn lemma_expired_releases_are_fetched_once(
    cache: CacheView,
    name: Seq<char>,
    fetched: Seq<ReleaseView>,
    now: u64,
    later: u64,
)
    requires
        cache.releases.dom().contains(name),
        now > cache.releases[name].expires_at,
        now + CACHE_TTL_MILLIS <= u64::MAX,
        now <= later <= now + CACHE_TTL_MILLIS,
    ensures
        cache.read_releases(name, now) is None,
        cache.with_releases(name, fetched, now).read_releases(name, later) == Some(fetched),
{
}

/// After its deadline the list of repositories counts as absent, and one
/// fetch settled at the time of the read serves the reads that follow.
pub proof fn lemma_expired_repositories_are_fetched_once(
    cache: CacheView,
    fetched: Seq<RepositoryView>,
    now: u64,
    later: u64,
)
    requires
        cache.repositories is Some,
        now > cache.repositories->Some_0.expires_at,
        now + CACHE_TTL_MILLIS <= u64::MAX,
        now <= later <= now + CACHE_TTL_MILLIS,
    ensures
        cache.read_repositories(now) is None,
        cache.with_repositories(fetched, now).read_repositories(later) == Some(fetched),
{
}

/// Storing the releases of one name leaves every other name's slot, and the
/// repositories, as they were.
pub proof fn lemma_store_touches_one_slot(
    cache: CacheView,
    name: Seq<char>,
    data: Seq<ReleaseView>,
    stored_at: u64,
    other: Seq<char>,
    now: u64,
)
    requires
        other != name,
    ensures
        cache.with_releases(name, data, stored_at).read_releases(other, now) == cache.read_releases(
            other,
            now,
        ),
        cache.with_releases(name, data, stored_at).read_repositories(now) == cache.read_repositories(
            now,
        ),
{
}

/// A fetch that failed leaves the cache as it was, at whatever time it is
/// settled: no entry is replaced, removed or given a new deadline, and none
/// appears where there was none. Every read gives what it gave before, so a
/// read that missed misses again and the fetch is tried anew.
pub proof fn lemma_failed_fetch_changes_nothing(
    cache: CacheView,
    name: Seq<char>,
    settled_at: u64,
    other: Seq<char>,
    now: u64,
)
    ensures
        cache.settled_releases(name, None, settled_at) == cache,
        cache.settled_repositories(None, settled_at) == cache,
        cache.settled_releases(name, None, settled_at).releases.dom().contains(other)
            == cache.releases.dom().contains(other),
        cache.settled_releases(name, None, settled_at).read_releases(other, now)
            == cache.read_releases(other, now),
        cache.settled_repositories(None, settled_at).read_repositories(now)
            == cache.read_repositories(now),
{
}

/// A fetch that succeeded, settled at `now`, is the answer to every read of
/// that name for the next five minutes, whatever the cache held before.
pub proof fn lemma_settled_fetch_is_served(
    cache: CacheView,
    name: Seq<char>,
    fetched: Seq<ReleaseView>,
    repositories: Seq<RepositoryView>,
    now: u64,
    later: u64,
)
    requires
        now + CACHE_TTL_MILLIS <= u64::MAX,
        now <= later <= now + CACHE_TTL_MILLIS,
    ensures
        cache.settled_releases(name, Some(fetched), now).read_releases(name, later) == Some(
            fetched,
        ),
        cache.settled_repositories(Some(repositories), now).read_repositories(later) == Some(
            repositories,
        ),
        cache.settled_repositories(Some(repositories), now).repositories == Some(
            Cached { data: repositories, expires_at: (now + CACHE_TTL_MILLIS) as u64 },
        ),
{
}

} // verus!
