//! An expiring key-value store: each entry carries an expiration timestamp,
//! stamped at insertion time from a fixed time-to-live, and checked lazily
//! at read time. Nothing is ever swept in the background.

use vstd::prelude::*;
use crate::clock::now_millis;

verus! {

/// `a + b` clamped to the range of `i64`. Expiration timestamps are stamped
/// with this total form of addition so that no clock value can overflow.
pub open spec fn sat_add_i64(a: int, b: int) -> int {
    if a + b > i64::MAX {
        i64::MAX as int
    } else if a + b < i64::MIN {
        i64::MIN as int
    } else {
        a + b
    }
}

/// Executable saturating addition on `i64`, exact against `sat_add_i64`.
fn add_millis(a: i64, b: i64) -> (r: i64)
    ensures
        r as int == sat_add_i64(a as int, b as int),
{
    match a.checked_add(b) {
        Some(s) => s,
        None => {
            if b > 0 {
                i64::MAX
            } else {
                i64::MIN
            }
        },
    }
}

/// A value together with its time-to-live and the timestamp at which it
/// goes stale. The value is replaced wholesale on overwrite, never edited.
pub struct CachedValue<E> {
    pub value: E,
    pub duration: i64,
    pub expire_time: i64,
}

impl<E> CachedValue<E> {
    /// A fresh entry stamped at `now`: it stays fresh until `now + duration`.
    pub fn new_at(value: E, duration: i64, now: i64) -> (r: CachedValue<E>)
        ensures
            r.value == value,
            r.duration == duration,
            r.expire_time as int == sat_add_i64(now as int, duration as int),
    {
        CachedValue { value, duration, expire_time: add_millis(now, duration) }
    }

    /// A fresh entry stamped from the wall clock. The exact expiration is a
    /// function of the clock; `new_at` states it for every clock value.
    pub fn new(value: E, duration: i64) -> (r: CachedValue<E>)
        ensures
            r.value == value,
            r.duration == duration,
    {
        let now = now_millis();
        CachedValue::new_at(value, duration, now)
    }

    /// Replace the value and restamp the expiration relative to `now`.
    pub fn update_at(&mut self, value: E, now: i64)
        ensures
            final(self).value == value,
            final(self).duration == old(self).duration,
            final(self).expire_time as int == sat_add_i64(
                now as int,
                old(self).duration as int,
            ),
    {
        self.value = value;
        self.update_expiration_at(now);
    }

    /// Replace the value and restamp the expiration from the wall clock.
    pub fn update(&mut self, value: E)
        ensures
            final(self).value == value,
            final(self).duration == old(self).duration,
    {
        let now = now_millis();
        self.update_at(value, now);
    }

    /// An entry that is already stale, whatever the clock says: a placeholder
    /// that forces the first read to fetch.
    pub fn new_expired(value: E, duration: i64) -> (r: CachedValue<E>)
        ensures
            r.value == value,
            r.duration == duration,
            r.expire_time == 0i64,
    {
        CachedValue { value, duration, expire_time: 0 }
    }

    /// Force the entry stale by dropping its expiration to the epoch.
    pub fn force_expire(&mut self)
        ensures
            final(self).value == old(self).value,
            final(self).duration == old(self).duration,
            final(self).expire_time == 0i64,
    {
        self.expire_time = 0;
    }

    /// Whether the entry is stale at time `now`: strictly past its stamp.
    pub fn expired_at(&self, now: i64) -> (r: bool)
        ensures
            r == (now > self.expire_time),
    {
        now > self.expire_time
    }

    /// Whether the entry is stale right now, by the wall clock.
    /// `expired_at` states the answer for every clock value.
    pub fn expired(&self) -> bool {
        let now = now_millis();
        self.expired_at(now)
    }

    /// Restamp the expiration relative to `now`, keeping the value.
    pub fn update_expiration_at(&mut self, now: i64)
        ensures
            final(self).value == old(self).value,
            final(self).duration == old(self).duration,
            final(self).expire_time as int == sat_add_i64(
                now as int,
                old(self).duration as int,
            ),
    {
        self.expire_time = add_millis(now, self.duration);
    }

    /// Restamp the expiration from the wall clock, keeping the value.
    pub fn update_expiration(&mut self)
        ensures
            final(self).value == old(self).value,
            final(self).duration == old(self).duration,
    {
        let now = now_millis();
        self.update_expiration_at(now);
    }
}

/// The mapping that a list of keyed entries denotes: the first entry under a
/// key is the one that counts, later ones are shadowed.
spec fn assoc_map<V>(s: Seq<(String, CachedValue<V>)>) -> Map<
    Seq<char>,
    CachedValue<V>,
>
    decreases s.len(),
{
    if s.len() == 0 {
        Map::empty()
    } else {
        assoc_map(s.drop_first()).insert(s[0].0@, s[0].1)
    }
}

/// A key is in the mapping exactly when some entry carries it.
proof fn lemma_assoc_contains<V>(s: Seq<(String, CachedValue<V>)>, k: Seq<char>)
    ensures
        assoc_map(s).contains_key(k) <==> exists|i: int| 0 <= i < s.len() && s[i].0@ == k,
    decreases s.len(),
{
    if s.len() > 0 {
        lemma_assoc_contains(s.drop_first(), k);
        if s[0].0@ != k && assoc_map(s).contains_key(k) {
            let j = choose|j: int| 0 <= j < s.drop_first().len() && s.drop_first()[j].0@ == k;
            assert(s[j + 1].0@ == k);
        }
        if exists|i: int| 0 <= i < s.len() && s[i].0@ == k {
            let i = choose|i: int| 0 <= i < s.len() && s[i].0@ == k;
            if i > 0 {
                assert(s.drop_first()[i - 1].0@ == k);
            }
        }
    }
}

/// The mapping holds the first entry under a key: entries behind it do not
/// show through.
proof fn lemma_assoc_first_match<V>(s: Seq<(String, CachedValue<V>)>, k: Seq<char>, i: int)
    requires
        0 <= i < s.len(),
        s[i].0@ == k,
        forall|j: int| 0 <= j < i ==> s[j].0@ != k,
    ensures
        assoc_map(s).contains_key(k),
        assoc_map(s)[k] == s[i].1,
    decreases s.len(),
{
    if i > 0 {
        assert(s.drop_first()[i - 1].0@ == k);
        assert(forall|j: int| 0 <= j < i - 1 ==> s.drop_first()[j].0@ != k);
        lemma_assoc_first_match(s.drop_first(), k, i - 1);
    }
}

/// Appending an entry under a key that no entry carries yet adds exactly
/// that binding to the mapping.
proof fn lemma_assoc_push<V>(s: Seq<(String, CachedValue<V>)>, p: (String, CachedValue<V>))
    requires
        forall|j: int| 0 <= j < s.len() ==> s[j].0@ != p.0@,
    ensures
        assoc_map(s.push(p)) =~= assoc_map(s).insert(p.0@, p.1),
    decreases s.len(),
{
    if s.len() == 0 {
        assert(s.push(p).drop_first() =~= s);
        assert(assoc_map(s.push(p)) =~= assoc_map(s).insert(p.0@, p.1));
    } else {
        let t = s.drop_first().push(p);
        assert(s.push(p).drop_first() =~= t);
        lemma_assoc_push(s.drop_first(), p);
        assert(s.push(p)[0] == s[0]);
        assert(assoc_map(s.push(p)) == assoc_map(t).insert(s[0].0@, s[0].1));
        assert(s[0].0@ != p.0@);
        assert(assoc_map(s.push(p)) =~= assoc_map(s).insert(p.0@, p.1));
    }
}

/// Overwriting the first entry under a key, in place and under the same key,
/// rebinds that key in the mapping and moves nothing else.
proof fn lemma_assoc_update<V>(
    s: Seq<(String, CachedValue<V>)>,
    i: int,
    p: (String, CachedValue<V>),
)
    requires
        0 <= i < s.len(),
        s[i].0@ == p.0@,
        forall|j: int| 0 <= j < i ==> s[j].0@ != p.0@,
    ensures
        assoc_map(s.update(i, p)) =~= assoc_map(s).insert(p.0@, p.1),
    decreases s.len(),
{
    if i == 0 {
        assert(s.update(0, p).drop_first() =~= s.drop_first());
    } else {
        assert(s.update(i, p).drop_first() =~= s.drop_first().update(i - 1, p));
        assert(s.drop_first()[i - 1].0@ == p.0@);
        assert(forall|j: int| 0 <= j < i - 1 ==> s.drop_first()[j].0@ != p.0@);
        lemma_assoc_update(s.drop_first(), i - 1, p);
    }
}

/// Whether the entry under key `k` is to be treated as stale at time `now`:
/// an absent key and a timed-out one read the same, both send the caller
/// back to the origin.
pub open spec fn map_expired_at<V>(
    m: Map<Seq<char>, CachedValue<V>>,
    k: Seq<char>,
    now: int,
) -> bool {
    !m.contains_key(k) || now > m[k].expire_time
}

/// The mapping after an insert-or-overwrite of `value` under `k`, stamped
/// at time `now` with time-to-live `ttl`.
pub open spec fn map_after_set<V>(
    m: Map<Seq<char>, CachedValue<V>>,
    k: Seq<char>,
    value: V,
    ttl: i64,
    now: int,
) -> Map<Seq<char>, CachedValue<V>> {
    m.insert(
        k,
        (CachedValue { value, duration: ttl, expire_time: sat_add_i64(now, ttl as int) as i64 }),
    )
}

/// Cache-aside correctness: after `value` is stored under `k` at time
/// `t_set`, the key reads as not expired and yields exactly `value` at every
/// time up to `t_set` plus the time-to-live.
pub proof fn lemma_cache_aside<V>(
    m: Map<Seq<char>, CachedValue<V>>,
    k: Seq<char>,
    value: V,
    ttl: i64,
    t_set: int,
    t_read: int,
)
    requires
        t_read <= sat_add_i64(t_set, ttl as int),
    ensures
        !map_expired_at(map_after_set(m, k, value, ttl, t_set), k, t_read),
        map_after_set(m, k, value, ttl, t_set)[k].value == value,
{
}

/// Lazy expiry, absent half: a key that was never stored reads as expired
/// at every time.
pub proof fn lemma_never_set_expired<V>(
    m: Map<Seq<char>, CachedValue<V>>,
    k: Seq<char>,
    now: int,
)
    requires
        !m.contains_key(k),
    ensures
        map_expired_at(m, k, now),
{
}

/// Lazy expiry, zero half: a key stored with a time-to-live of zero reads
/// as expired at every time strictly past the stamping tick.
pub proof fn lemma_zero_ttl_expires<V>(
    m: Map<Seq<char>, CachedValue<V>>,
    k: Seq<char>,
    value: V,
    t_set: int,
    t_read: int,
)
    requires
        i64::MIN <= t_set <= i64::MAX,
        t_read > t_set,
    ensures
        map_expired_at(map_after_set(m, k, value, 0i64, t_set), k, t_read),
{
}

/// Overwrite resets the time-to-live: storing under the same key twice
/// leaves exactly what a single store at the second time would, so the
/// expiration is relative to the second call's timestamp alone.
pub proof fn lemma_overwrite_resets_ttl<V>(
    m: Map<Seq<char>, CachedValue<V>>,
    k: Seq<char>,
    v1: V,
    v2: V,
    ttl: i64,
    t1: int,
    t2: int,
)
    ensures
        map_after_set(map_after_set(m, k, v1, ttl, t1), k, v2, ttl, t2) =~= map_after_set(
            m,
            k,
            v2,
            ttl,
            t2,
        ),
        map_after_set(map_after_set(m, k, v1, ttl, t1), k, v2, ttl, t2)[k].expire_time as int
            == sat_add_i64(t2, ttl as int),
{
}

/// A store of string-keyed entries that share one configured time-to-live,
/// stamped per entry at insertion time. Expiry is evaluated lazily at read
/// time; entries are only ever replaced, never swept.
pub struct Cache<V> {
    entries: Vec<(String, CachedValue<V>)>,
    duration: i64,
}

impl<V> Cache<V> {
    /// The mapping from key to entry that the store currently denotes.
    pub closed spec fn contents(self) -> Map<Seq<char>, CachedValue<V>> {
        assoc_map(self.entries@)
    }

    /// The time-to-live stamped on every inserted entry.
    pub closed spec fn ttl(self) -> i64 {
        self.duration
    }

    /// An empty store whose entries will live for `expire_time` milliseconds.
    pub fn new(expire_time: i64) -> (r: Cache<V>)
        ensures
            r.contents() == Map::<Seq<char>, CachedValue<V>>::empty(),
            r.ttl() == expire_time,
    {
        Cache { entries: Vec::new(), duration: expire_time }
    }

    /// Insert or overwrite the entry under `key`, stamping its expiration
    /// at `now + ttl`. An overwrite restamps relative to this call alone.
    #[verifier::loop_isolation(false)]
    pub fn set_at(&mut self, key: String, value: V, now: i64)
        ensures
            final(self).contents() == map_after_set(
                old(self).contents(),
                key@,
                value,
                old(self).ttl(),
                now as int,
            ),
            final(self).ttl() == old(self).ttl(),
    {
        let entry = CachedValue::new_at(value, self.duration, now);
        let ghost orig = self.entries@;
        let mut i: usize = 0;
        while i < self.entries.len()
            invariant
                0 <= i <= self.entries.len(),
                self.entries@ == orig,
                self.duration == old(self).duration,
                forall|j: int| 0 <= j < i ==> orig[j].0@ != key@,
            decreases self.entries.len() - i,
        {
            if self.entries[i].0 == key {
                self.entries.set(i, (key, entry));
                proof {
                    lemma_assoc_update(orig, i as int, (key, entry));
                }
                return ;
            }
            i += 1;
        }
        self.entries.push((key, entry));
        proof {
            lemma_assoc_push(orig, (key, entry));
        }
    }

    /// Insert or overwrite the entry under `key`, stamped from the wall
    /// clock. `set_at` states the outcome for every clock value.
    pub fn set(&mut self, key: String, value: V)
        ensures
            final(self).ttl() == old(self).ttl(),
            final(self).contents().contains_key(key@),
            final(self).contents()[key@].value == value,
            final(self).contents()[key@].duration == old(self).ttl(),
            exists|t: int|
                final(self).contents() == map_after_set(
                    old(self).contents(),
                    key@,
                    value,
                    old(self).ttl(),
                    t,
                ),
    {
        let now = now_millis();
        self.set_at(key, value, now);
    }

    /// The entry under `key`, whatever its expiration state: callers judge
    /// staleness themselves, or ask `is_expired_at`.
    #[verifier::loop_isolation(false)]
    pub fn get(&self, key: &String) -> (r: Option<&CachedValue<V>>)
        ensures
            r is Some <==> self.contents().contains_key(key@),
            r matches Some(entry) ==> *entry == self.contents()[key@],
    {
        let ghost s = self.entries@;
        let mut i: usize = 0;
        while i < self.entries.len()
            invariant
                0 <= i <= self.entries.len(),
                self.entries@ == s,
                forall|j: int| 0 <= j < i ==> s[j].0@ != key@,
            decreases self.entries.len() - i,
        {
            if self.entries[i].0 == *key {
                proof {
                    lemma_assoc_first_match(s, key@, i as int);
                }
                return Some(&self.entries[i].1);
            }
            i += 1;
        }
        proof {
            lemma_assoc_contains(s, key@);
        }
        None
    }

    /// Whether the entry under `key` is stale at time `now`. An absent key
    /// reads as stale: missing and timed-out are treated alike, since every
    /// caller answers both the same way, by fetching and repopulating.
    pub fn is_expired_at(&self, key: &String, now: i64) -> (r: bool)
        ensures
            r == map_expired_at(self.contents(), key@, now as int),
    {
        match self.get(key) {
            None => true,
            Some(entry) => entry.expired_at(now),
        }
    }

    /// Whether the entry under `key` is stale right now, by the wall clock.
    /// `is_expired_at` states the answer for every clock value.
    pub fn is_expired(&self, key: &String) -> (r: bool)
        ensures
            !self.contents().contains_key(key@) ==> r,
    {
        let now = now_millis();
        self.is_expired_at(key, now)
    }
}

} // verus!
