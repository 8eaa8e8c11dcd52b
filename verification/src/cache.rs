//! Read-through user cache with a freshness window.
//!
//! The first chat message from an unseen user triggers a lookup against the
//! remote user directory; the result is cached with its fetch time. A later
//! message inside the freshness window is answered from the cache with no
//! further lookup; one after the window triggers exactly one new lookup,
//! which re-stamps the entry. Entries are only ever superseded, never
//! evicted: unbounded growth over distinct users is an accepted tradeoff.

use vstd::prelude::*;

verus! {

/// Seconds a cached user stays fresh: thirty minutes.
pub const USER_CACHE_TTL_SECS: u64 = 1800;

/// What the core keeps of a looked-up user: the id that keys the cache, and
/// the whole directory record rendered as one JSON value, forwarded to the
/// sink untouched.
pub struct UserRecord {
    pub id: String,
    pub json: String,
}

struct CacheEntry {
    id: String,
    user: UserRecord,
    fetched_at: u64,
}

/// Whether some entry is keyed by `id`.
spec fn has_key(entries: Seq<CacheEntry>, id: Seq<char>) -> bool {
    exists|i: int| #![trigger entries[i]] 0 <= i < entries.len() && entries[i].id@ == id
}

/// The entry keyed by `id`; meaningful only under unique keys.
spec fn entry_for(entries: Seq<CacheEntry>, id: Seq<char>) -> CacheEntry {
    entries[choose|i: int| #![trigger entries[i]] 0 <= i < entries.len() && entries[i].id@ == id]
}

/// The user cache, keyed by user id.
pub struct UserCache {
    entries: Vec<CacheEntry>,
    ttl: u64,
}

impl UserCache {
    /// Whether a user with this id has ever been cached (fresh or stale).
    pub closed spec fn contains_user(&self, id: Seq<char>) -> bool {
        has_key(self.entries@, id)
    }

    /// The cached record for `id`.
    pub closed spec fn user_for(&self, id: Seq<char>) -> UserRecord {
        entry_for(self.entries@, id).user
    }

    /// When the record for `id` was fetched.
    pub closed spec fn fetch_time(&self, id: Seq<char>) -> u64 {
        entry_for(self.entries@, id).fetched_at
    }

    /// The freshness window in seconds.
    pub closed spec fn ttl(&self) -> u64 {
        self.ttl
    }

    /// Each id keys at most one entry.
    pub closed spec fn wf(&self) -> bool {
        forall|i: int, j: int|
            0 <= i < j < self.entries@.len() ==> (#[trigger] self.entries@[i].id@)
                != (#[trigger] self.entries@[j].id@)
    }

    /// A cached user answers a message at `now` without a new lookup exactly
    /// when it was fetched at or before `now` and less than `ttl` seconds
    /// have passed since. A fetch time in the future counts as stale.
    pub open spec fn fresh_at(&self, id: Seq<char>, now: u64) -> bool {
        &&& self.contains_user(id)
        &&& self.fetch_time(id) <= now < self.fetch_time(id) + self.ttl()
    }

    /// An empty cache with the given freshness window.
    pub fn new(ttl: u64) -> (cache: UserCache)
        ensures
            cache.wf(),
            cache.ttl() == ttl,
            forall|id: Seq<char>| !cache.contains_user(id),
    {
        UserCache { entries: Vec::new(), ttl }
    }

    /// Whether `id` has ever been cached, fresh or stale. The caller uses
    /// this only to tell a first fetch from a refetch after expiry.
    pub fn contains(&self, id: &String) -> (known: bool)
        ensures
            known == self.contains_user(id@),
    {
        let mut i: usize = 0;
        while i < self.entries.len()
            invariant
                i <= self.entries@.len(),
                forall|j: int| 0 <= j < i ==> (#[trigger] self.entries@[j].id@) != id@,
            decreases self.entries@.len() - i,
        {
            if self.entries[i].id == *id {
                return true;
            }
            i += 1;
        }
        false
    }

    /// The cached record for `id` if it is still fresh at `now`; `None` on a
    /// miss or on an expired entry, in which case the caller must perform a
    /// lookup and `insert` the result.
    pub fn lookup(&self, id: &String, now: u64) -> (found: Option<&UserRecord>)
        requires
            self.wf(),
        ensures
            match found {
                Some(user) => self.fresh_at(id@, now) && *user == self.user_for(id@),
                None => !self.fresh_at(id@, now),
            },
    {
        let mut i: usize = 0;
        while i < self.entries.len()
            invariant
                self.wf(),
                i <= self.entries@.len(),
                forall|j: int| 0 <= j < i ==> (#[trigger] self.entries@[j].id@) != id@,
            decreases self.entries@.len() - i,
        {
            if self.entries[i].id == *id {
                proof {
                    let w = choose|w: int|
                        #![trigger self.entries@[w]]
                        0 <= w < self.entries@.len() && self.entries@[w].id@ == id@;
                    assert(w == i);
                }
                let entry = &self.entries[i];
                if entry.fetched_at <= now && now - entry.fetched_at < self.ttl {
                    return Some(&entry.user);
                } else {
                    return None;
                }
            }
            i += 1;
        }
        None
    }

    /// Cache `user` under `id` as fetched at `now`, superseding any earlier
    /// entry for `id` and touching no other.
    pub fn insert(&mut self, id: String, user: UserRecord, now: u64)
        requires
            old(self).wf(),
        ensures
            final(self).wf(),
            final(self).ttl() == old(self).ttl(),
            final(self).contains_user(id@),
            final(self).user_for(id@) == user,
            final(self).fetch_time(id@) == now,
            forall|other: Seq<char>|
                other != id@ ==> final(self).contains_user(other) == old(self).contains_user(other),
            forall|other: Seq<char>|
                other != id@ && old(self).contains_user(other) ==> final(self).user_for(other)
                    == old(self).user_for(other) && final(self).fetch_time(other) == old(
                    self,
                ).fetch_time(other),
    {
        let ghost old_entries = self.entries@;
        let ghost key = id@;
        let mut i: usize = 0;
        while i < self.entries.len()
            invariant
                old(self).wf(),
                self.entries@ == old_entries,
                self.ttl == old(self).ttl(),
                old_entries == old(self).entries@,
                key == id@,
                i <= self.entries@.len(),
                forall|j: int| 0 <= j < i ==> (#[trigger] self.entries@[j].id@) != key,
            decreases self.entries@.len() - i,
        {
            if self.entries[i].id == id {
                self.entries[i] = CacheEntry { id, user, fetched_at: now };
                proof {
                    lemma_keyed_views(old_entries, self.entries@, key, i as int);
                }
                return ;
            }
            i += 1;
        }
        self.entries.push(CacheEntry { id, user, fetched_at: now });
        proof {
            let n = old_entries.len() as int;
            assert(self.entries@[n].id@ == key);
            assert(!has_key(old_entries, key));
            lemma_keyed_views(old_entries, self.entries@, key, n);
        }
    }
}

/// After replacing or appending the entry for `key` at index `at`, leaving
/// every other index untouched, every id other than `key` keys exactly what
/// it keyed before, `key` keys the entry at `at`, and unique keys survive.
proof fn lemma_keyed_views(before: Seq<CacheEntry>, after: Seq<CacheEntry>, key: Seq<char>, at: int)
    requires
        forall|i: int, j: int|
            0 <= i < j < before.len() ==> (#[trigger] before[i].id@) != (#[trigger] before[j].id@),
        0 <= at < after.len(),
        at <= before.len(),
        at < before.len() ==> after.len() == before.len() && before[at].id@ == key,
        at == before.len() ==> after.len() == before.len() + 1 && !has_key(before, key),
        after[at].id@ == key,
        forall|i: int| 0 <= i < before.len() && i != at ==> (#[trigger] after[i]) == before[i],
    ensures
        forall|i: int, j: int|
            0 <= i < j < after.len() ==> (#[trigger] after[i].id@) != (#[trigger] after[j].id@),
        has_key(after, key),
        entry_for(after, key) == after[at],
        forall|other: Seq<char>|
            other != key ==> has_key(after, other) == has_key(before, other),
        forall|other: Seq<char>|
            other != key && has_key(before, other) ==> entry_for(after, other) == entry_for(
                before,
                other,
            ),
{
    assert forall|i: int, j: int| 0 <= i < j < after.len() implies (#[trigger] after[i].id@)
        != (#[trigger] after[j].id@) by {
        if i != at && j != at {
            assert(after[i] == before[i] && after[j] == before[j]);
        } else if i == at {
            if at < before.len() {
                assert(after[j] == before[j] && before[at].id@ == key);
            } else {
                assert(false);
            }
        } else {
            assert(after[i] == before[i]);
            if at == before.len() && after[i].id@ == key {
                assert(has_key(before, key));
            }
        }
    }
    assert(entry_for(after, key) == after[at]) by {
        let w = choose|w: int| #![trigger after[w]] 0 <= w < after.len() && after[w].id@ == key;
        if w != at {
            assert(after[w] == before[w]);
            if at == before.len() {
                assert(has_key(before, key));
            }
        }
    }
    assert forall|other: Seq<char>| other != key implies has_key(after, other) == has_key(
        before,
        other,
    ) by {
        if has_key(after, other) {
            let w = choose|w: int|
                #![trigger after[w]]
                0 <= w < after.len() && after[w].id@ == other;
            assert(w != at && w < before.len());
            assert(before[w] == after[w]);
        }
        if has_key(before, other) {
            let w = choose|w: int|
                #![trigger before[w]]
                0 <= w < before.len() && before[w].id@ == other;
            assert(w != at);
            assert(after[w] == before[w]);
        }
    }
    assert forall|other: Seq<char>| other != key && has_key(before, other) implies entry_for(
        after,
        other,
    ) == entry_for(before, other) by {
        let wa = choose|w: int| #![trigger after[w]] 0 <= w < after.len() && after[w].id@ == other;
        let wb = choose|w: int|
            #![trigger before[w]]
            0 <= w < before.len() && before[w].id@ == other;
        assert(wa != at && after[wa] == before[wa]);
        assert(wa == wb || before[wa].id@ != before[wb].id@);
    }
}

} // verus!
