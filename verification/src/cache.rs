//! Read-through cache from a conversation to its recipients.
//!
//! An entry is a whole snapshot of the member list together with the instant
//! it was fetched at. Entries are replaced as a whole and never evicted: one
//! that has outlived the time to live is simply not used, and the next
//! refresh overwrites it.

use vstd::prelude::*;
use dashmap::DashMap;

verus! {

/// The concurrent map of dashmap, carried as an opaque value.
#[verifier::external_type_specification]
#[verifier::external_body]
#[verifier::reject_recursive_types(K)]
#[verifier::reject_recursive_types(V)]
#[verifier::reject_recursive_types(S)]
pub struct ExDashMap<K, V, S>(DashMap<K, V, S>);

/// The entries that a map of snapshots holds: for each conversation the member
/// list and the instant of the fetch.
pub uninterp spec fn snapshot_entries(map: DashMap<u128, (Vec<u128>, u64)>) -> Map<
    u128,
    (Seq<u128>, u64),
>;

/// The map that holds no snapshot.
pub open spec fn no_snapshots() -> Map<u128, (Seq<u128>, u64)> {
    Map::empty()
}

/// Calls `DashMap::new`, which returns a map without entries.
#[verifier::external_body]
fn snapshots_new() -> (created: DashMap<u128, (Vec<u128>, u64)>)
    ensures
        snapshot_entries(created) == no_snapshots(),
{
    DashMap::new()
}

/// Calls `DashMap::get`, which finds the entry stored under a key, and copies
/// the entry out. `Some` comes back exactly for a key that the map holds, with
/// the value stored under it.
#[verifier::external_body]
fn snapshots_get(map: &DashMap<u128, (Vec<u128>, u64)>, key: u128) -> (found: Option<
    (Vec<u128>, u64),
>)
    ensures
        match found {
            Some(entry) => snapshot_entries(*map).contains_key(key) && snapshot_entries(*map)[key]
                == (entry.0@, entry.1),
            None => !snapshot_entries(*map).contains_key(key),
        },
{
    match map.get(&key) {
        Some(entry) => Some((entry.0.clone(), entry.1)),
        None => None,
    }
}

/// Calls `DashMap::insert`, which stores a value under a key and replaces the
/// value that the key had, if any. All other entries stay as they were.
#[verifier::external_body]
fn snapshots_insert(
    map: &mut DashMap<u128, (Vec<u128>, u64)>,
    key: u128,
    members: Vec<u128>,
    fetched_at: u64,
)
    ensures
        snapshot_entries(*final(map)) == snapshot_entries(*old(map)).insert(
            key,
            (members@, fetched_at),
        ),
{
    map.insert(key, (members, fetched_at));
}

/// How long a snapshot may be used after its fetch, in nanoseconds.
pub const CACHE_TTL_NANOS: u64 = 1_000_000_000;

/// Time elapsed at `now` since `fetched_at`; zero if `now` lies before it.
pub open spec fn age_at(fetched_at: u64, now: u64) -> int {
    if now >= fetched_at {
        now - fetched_at
    } else {
        0
    }
}

/// Whether a snapshot fetched at `fetched_at` may still be used at `now`.
pub open spec fn is_fresh(fetched_at: u64, now: u64) -> bool {
    age_at(fetched_at, now) < CACHE_TTL_NANOS
}

/// What the cache answers for `conversation_id` at `now`: the recipients of a
/// fresh snapshot, or nothing where there is no snapshot or only a stale one.
pub open spec fn fresh_recipients(
    entries: Map<u128, (Seq<u128>, u64)>,
    conversation_id: u128,
    now: u64,
) -> Option<Seq<u128>> {
    if entries.contains_key(conversation_id) && is_fresh(entries[conversation_id].1, now) {
        Some(entries[conversation_id].0)
    } else {
        None
    }
}

/// Answer of the cache to one resolution.
#[derive(Debug, PartialEq, Eq)]
pub enum Resolution {
    /// A fresh snapshot exists; these are its recipients. Storage is not asked.
    Hit(Vec<u128>),
    /// No usable snapshot: storage has to be asked for the member list.
    Miss,
}

impl Resolution {
    /// The recipients that the answer carries, if it is a hit.
    pub open spec fn recipients(self) -> Option<Seq<u128>> {
        match self {
            Resolution::Hit(members) => Some(members@),
            Resolution::Miss => None,
        }
    }
}

/// Cache of member lists, each usable for `CACHE_TTL_NANOS` after its fetch.
pub struct MembershipCache {
    snapshots: DashMap<u128, (Vec<u128>, u64)>,
}

impl View for MembershipCache {
    type V = Map<u128, (Seq<u128>, u64)>;

    closed spec fn view(&self) -> Map<u128, (Seq<u128>, u64)> {
        snapshot_entries(self.snapshots)
    }
}

impl MembershipCache {
    /// A cache without snapshots.
    pub fn new() -> (cache: MembershipCache)
        ensures
            cache@ == no_snapshots(),
    {
        MembershipCache { snapshots: snapshots_new() }
    }

    /// Whether a snapshot fetched at `fetched_at` may still be used at `now`.
    pub fn fresh(fetched_at: u64, now: u64) -> (yes: bool)
        ensures
            yes == is_fresh(fetched_at, now),
    {
        now.saturating_sub(fetched_at) < CACHE_TTL_NANOS
    }

    /// Looks `conversation_id` up at the instant `now`. A hit carries the
    /// recipients of the snapshot; a miss means that storage must be asked and
    /// the answer handed to `refresh`. The cache itself is left as it is.
    pub fn resolve(&self, conversation_id: u128, now: u64) -> (answer: Resolution)
        ensures
            answer.recipients() == fresh_recipients(self@, conversation_id, now),
    {
        match snapshots_get(&self.snapshots, conversation_id) {
            Some(entry) => {
                if Self::fresh(entry.1, now) {
                    Resolution::Hit(entry.0)
                } else {
                    Resolution::Miss
                }
            },
            None => Resolution::Miss,
        }
    }

    /// Stores `members`, as fetched from storage at `now`, as the snapshot of
    /// `conversation_id`, in place of the one it had.
    pub fn refresh(&mut self, conversation_id: u128, members: Vec<u128>, now: u64)
        ensures
            final(self)@ == old(self)@.insert(conversation_id, (members@, now)),
    {
        snapshots_insert(&mut self.snapshots, conversation_id, members, now);
    }
}

/// While a snapshot is fresh, every resolution answers with its recipients:
/// two resolutions inside that window agree, and neither asks storage.
pub proof fn fresh_snapshot_answers_alike(
    entries: Map<u128, (Seq<u128>, u64)>,
    conversation_id: u128,
    first: u64,
    second: u64,
)
    requires
        entries.contains_key(conversation_id),
        is_fresh(entries[conversation_id].1, first),
        is_fresh(entries[conversation_id].1, second),
    ensures
        fresh_recipients(entries, conversation_id, first) == Some(entries[conversation_id].0),
        fresh_recipients(entries, conversation_id, second) == fresh_recipients(
            entries,
            conversation_id,
            first,
        ),
{
}

/// A refresh at `now` makes the stored list the answer for the whole time to
/// live that follows, and leaves every other conversation's answer as it was.
pub proof fn refresh_then_resolve(
    entries: Map<u128, (Seq<u128>, u64)>,
    conversation_id: u128,
    members: Seq<u128>,
    now: u64,
    later: u64,
    other: u128,
)
    requires
        now <= later,
        later - now < CACHE_TTL_NANOS,
        other != conversation_id,
    ensures
        fresh_recipients(entries.insert(conversation_id, (members, now)), conversation_id, later)
            == Some(members),
        fresh_recipients(entries.insert(conversation_id, (members, now)), other, later)
            == fresh_recipients(entries, other, later),
{
}

} // verus!
