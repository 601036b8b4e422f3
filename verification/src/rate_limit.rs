//! In-memory sliding-window rate limiting.
//!
//! Each key holds the timestamps (ms) of its recent requests; expired
//! timestamps are pruned when the key is checked.

use vstd::prelude::*;
use crate::text::{decimal, push_decimal, str_eq, trim_chars, chars_of, split_chars, split_on, string_from_chars, trimmed, views};
use crate::keyed::{distinct_keys, lemma_lookup_index, lemma_lookup_push, lemma_lookup_update, lookup};

verus! {

broadcast use vstd::string::group_string_axioms;

/// Outcome of a rate limit check.
#[derive(Debug, Clone, Copy, PartialEq, Eq, Structural)]
pub struct RateLimitResult {
    /// Whether the request is allowed.
    pub success: bool,
    /// Attempts left in the current window.
    pub remaining: u32,
    /// When the oldest request in the window leaves it (epoch ms).
    pub reset_at_ms: u64,
}

#[derive(Debug, Clone, Copy)]
pub struct RateLimitConfig {
    pub max_attempts: u32,
    pub window_ms: u64,
}

/// 5 attempts per 15 minutes: login and change-password.
pub fn login_rate_limit() -> (c: RateLimitConfig)
    ensures
        c.max_attempts == 5 && c.window_ms == 900_000,
{
    RateLimitConfig { max_attempts: 5, window_ms: 900_000 }
}

/// 100 requests per minute: authenticated API routes.
pub fn api_rate_limit() -> (c: RateLimitConfig)
    ensures
        c.max_attempts == 100 && c.window_ms == 60_000,
{
    RateLimitConfig { max_attempts: 100, window_ms: 60_000 }
}

/// 50 requests per minute: webhook endpoints.
pub fn webhook_rate_limit() -> (c: RateLimitConfig)
    ensures
        c.max_attempts == 50 && c.window_ms == 60_000,
{
    RateLimitConfig { max_attempts: 50, window_ms: 60_000 }
}

/// 30 requests per minute: public endpoints.
pub fn public_rate_limit() -> (c: RateLimitConfig)
    ensures
        c.max_attempts == 30 && c.window_ms == 60_000,
{
    RateLimitConfig { max_attempts: 30, window_ms: 60_000 }
}

/// The current time in ms since the Unix epoch (`SystemTime::now`), or 0 if
/// the clock reads earlier than the epoch. Nothing is claimed of the value.
#[verifier::external_body]
fn now_ms() -> (t: u64) {
    std::time::SystemTime::now()
        .duration_since(std::time::UNIX_EPOCH)
        .map(|d| d.as_millis() as u64)
        .unwrap_or(0)
}

/// Per-key request timestamps.
pub struct RateLimiter {
    entries: Vec<(String, Vec<u64>)>,
}

/// The keys and timestamps held by a list of stored entries.
pub open spec fn entry_views(v: Seq<(String, Vec<u64>)>) -> Seq<(Seq<char>, Seq<u64>)> {
    v.map_values(|e: (String, Vec<u64>)| (e.0@, e.1@))
}

/// Timestamps newer than `cutoff`.
pub open spec fn newer_than(stamps: Seq<u64>, cutoff: u64) -> Seq<u64> {
    stamps.filter(|t: u64| t > cutoff)
}

/// `now - window`, or 0.
pub open spec fn cutoff_of(now: u64, window_ms: u64) -> u64 {
    if now >= window_ms { (now - window_ms) as u64 } else { 0 }
}

/// The requests of `key` still in the window ending at `now`.
pub open spec fn in_window(entries: Seq<(Seq<char>, Seq<u64>)>, key: Seq<char>, window_ms: u64, now: u64) -> Seq<u64> {
    match lookup(entries, key) {
        Some(s) => newer_than(s, cutoff_of(now, window_ms)),
        None => Seq::<u64>::empty(),
    }
}

pub open spec fn sat_add(a: u64, b: u64) -> u64 {
    if a + b <= u64::MAX { (a + b) as u64 } else { u64::MAX }
}

/// What a request for `key` at time `now`, with at most `max_attempts` per
/// `window_ms`, answers (`r`) and leaves stored (`after`, from `before`):
/// refused with nothing stored when the window is full, else allowed with
/// `now` stored for `key` and every other key kept.
pub open spec fn check_outcome(
    before: Seq<(Seq<char>, Seq<u64>)>,
    after: Seq<(Seq<char>, Seq<u64>)>,
    key: Seq<char>,
    max_attempts: u32,
    window_ms: u64,
    now: u64,
    r: RateLimitResult,
) -> bool {
    let valid = in_window(before, key, window_ms, now);
    if valid.len() >= max_attempts {
        &&& r == RateLimitResult { success: false, remaining: 0, reset_at_ms: sat_add(valid[0], window_ms) }
        &&& after == before
    } else {
        let stored = valid.push(now);
        &&& r == RateLimitResult {
            success: true,
            remaining: (max_attempts - stored.len()) as u32,
            reset_at_ms: sat_add(stored[0], window_ms),
        }
        &&& lookup(after, key) == Some(stored)
        &&& forall|k: Seq<char>| k != key ==> #[trigger] lookup(after, k) == lookup(before, k)
        &&& after.len() == before.len() + (if lookup(before, key) is Some { 0int } else { 1int })
    }
}

/// What removing the keys with no request newer than `max_age_ms` before
/// `now` leaves stored (`after`, from `before`): each key keeps its newer
/// requests, and a key left with none is gone.
pub open spec fn cleanup_outcome(
    before: Seq<(Seq<char>, Seq<u64>)>,
    after: Seq<(Seq<char>, Seq<u64>)>,
    max_age_ms: u64,
    now: u64,
) -> bool {
    forall|k: Seq<char>| #[trigger] lookup(after, k) == match lookup(before, k) {
        Some(s) => if newer_than(s, cutoff_of(now, max_age_ms)).len() > 0 {
            Some(newer_than(s, cutoff_of(now, max_age_ms)))
        } else {
            None
        },
        None => None::<Seq<u64>>,
    }
}

impl RateLimiter {
    /// The stored timestamps per key.
    pub closed spec fn entries(&self) -> Seq<(Seq<char>, Seq<u64>)> {
        entry_views(self.entries@)
    }

    /// Every key is stored once.
    #[verifier::type_invariant]
    spec fn keys_distinct(self) -> bool {
        distinct_keys(entry_views(self.entries@))
    }

    /// An empty limiter.
    pub fn new() -> (r: RateLimiter)
        ensures
            r.entries() == Seq::<(Seq<char>, Seq<u64>)>::empty(),
    {
        let v: Vec<(String, Vec<u64>)> = Vec::new();
        assert(entry_views(v@) =~= Seq::<(Seq<char>, Seq<u64>)>::empty());
        RateLimiter { entries: v }
    }

    fn find(&self, key: &str) -> (r: Option<usize>)
        requires
            distinct_keys(self.entries()),
        ensures
            match r {
                Some(i) => i < self.entries().len() && self.entries()[i as int].0 == key@
                    && lookup(self.entries(), key@) == Some(self.entries()[i as int].1),
                None => lookup(self.entries(), key@) is None,
            },
    {
        proof {
            lemma_lookup_index(self.entries(), key@);
        }
        let mut i: usize = 0;
        while i < self.entries.len()
            invariant
                distinct_keys(self.entries()),
                0 <= i <= self.entries@.len(),
                self.entries().len() == self.entries@.len(),
                forall|j: int| 0 <= j < i ==> self.entries()[j].0 != key@,
                match lookup(self.entries(), key@) {
                    Some(s) => exists|k: int| 0 <= k < self.entries().len() && self.entries()[k].0 == key@ && self.entries()[k].1 == s,
                    None => forall|k: int| 0 <= k < self.entries().len() ==> self.entries()[k].0 != key@,
                },
                forall|k: int| 0 <= k < self.entries().len() && self.entries()[k].0 == key@ ==> lookup(self.entries(), key@) == Some(self.entries()[k].1),
            decreases self.entries.len() - i,
        {
            assert(self.entries()[i as int].0 == self.entries@[i as int].0@);
            if str_eq(self.entries[i].0.as_str(), key) {
                return Some(i);
            }
            i = i + 1;
        }
        None
    }

    /// Checks and records a request for `key` at time `now`.
    ///
    /// Timestamps older than the window are dropped; when `max_attempts`
    /// requests remain in the window the request is refused and nothing is
    /// stored, otherwise `now` is stored and the request allowed.
    pub fn check_at(&mut self, key: &str, max_attempts: u32, window_ms: u64, now: u64) -> (r: RateLimitResult)
        requires
            max_attempts >= 1 || in_window(old(self).entries(), key@, window_ms, now).len() >= 1,
        ensures
            ({
                let valid = in_window(old(self).entries(), key@, window_ms, now);
                if valid.len() >= max_attempts {
                    &&& r == RateLimitResult { success: false, remaining: 0, reset_at_ms: sat_add(valid[0], window_ms) }
                    &&& final(self).entries() == old(self).entries()
                } else {
                    let stored = valid.push(now);
                    &&& r == RateLimitResult {
                        success: true,
                        remaining: (max_attempts - stored.len()) as u32,
                        reset_at_ms: sat_add(stored[0], window_ms),
                    }
                    &&& lookup(final(self).entries(), key@) == Some(stored)
                    &&& forall|k: Seq<char>| k != key@ ==> #[trigger] lookup(final(self).entries(), k) == lookup(old(self).entries(), k)
                    &&& final(self).entries().len() == old(self).entries().len()
                        + (if lookup(old(self).entries(), key@) is Some { 0int } else { 1int })
                }
            }),
    {
        proof {
            use_type_invariant(&*self);
        }
        let cutoff = if now >= window_ms { now - window_ms } else { 0 };
        let found = self.find(key);
        let mut valid: Vec<u64> = Vec::new();
        let ghost stamps = match lookup(self.entries(), key@) {
            Some(s) => s,
            None => Seq::<u64>::empty(),
        };
        proof {
            assert(Seq::<u64>::empty().filter(|t: u64| t > cutoff) =~= Seq::<u64>::empty()) by {
                reveal(Seq::filter);
            }
        }
        if let Some(idx) = found {
            let list = &self.entries[idx].1;
            assert(list@ == stamps);
            let mut i: usize = 0;
            while i < list.len()
                invariant
                    0 <= i <= list@.len(),
                    valid@ == list@.subrange(0, i as int).filter(|t: u64| t > cutoff),
                decreases list.len() - i,
            {
                proof {
                    reveal(Seq::filter);
                    assert(list@.subrange(0, i + 1).drop_last() == list@.subrange(0, i as int));
                }
                if list[i] > cutoff {
                    valid.push(list[i]);
                }
                i = i + 1;
            }
            assert(list@.subrange(0, list@.len() as int) == list@);
        }
        assert(valid@ == in_window(old(self).entries(), key@, window_ms, now));
        if valid.len() >= max_attempts as usize {
            let oldest = valid[0];
            return RateLimitResult { success: false, remaining: 0, reset_at_ms: oldest.saturating_add(window_ms) };
        }
        valid.push(now);
        let remaining = max_attempts - valid.len() as u32;
        let oldest = valid[0];
        let ghost stored = valid@;
        let ghost old_entries = self.entries();
        let mut es: Vec<(String, Vec<u64>)> = Vec::new();
        proof {
            assert(entry_views(es@) =~= Seq::<(Seq<char>, Seq<u64>)>::empty());
        }
        std::mem::swap(&mut es, &mut self.entries);
        assert(entry_views(es@) == old_entries);
        match found {
            Some(idx) => {
                let k = key.to_string();
                es.set(idx, (k, valid));
                proof {
                    assert(entry_views(es@) =~= old_entries.update(idx as int, (key@, stored)));
                    assert forall|o: Seq<char>| o != key@ implies lookup(entry_views(es@), o) == lookup(old_entries, o) by {
                        lemma_lookup_update(old_entries, idx as int, key@, stored, o);
                    }
                    lemma_lookup_update(old_entries, idx as int, key@, stored, key@);
                }
            },
            None => {
                let k = key.to_string();
                es.push((k, valid));
                proof {
                    assert(entry_views(es@) =~= old_entries.push((key@, stored)));
                    assert forall|o: Seq<char>| o != key@ implies lookup(entry_views(es@), o) == lookup(old_entries, o) by {
                        lemma_lookup_push(old_entries, key@, stored, o);
                    }
                    lemma_lookup_push(old_entries, key@, stored, key@);
                }
            },
        }
        self.entries = es;
        RateLimitResult { success: true, remaining, reset_at_ms: oldest.saturating_add(window_ms) }
    }

    /// Checks and records a request for `key` at the current time. Whatever
    /// the clock reads, the outcome is that of `check_at` at that time.
    pub fn check(&mut self, key: &str, max_attempts: u32, window_ms: u64) -> (r: RateLimitResult)
        requires
            max_attempts >= 1,
        ensures
            r.success ==> (lookup(final(self).entries(), key@) matches Some(s) && s.len() <= max_attempts
                && r.remaining == max_attempts - s.len()),
            !r.success ==> r.remaining == 0 && final(self).entries() == old(self).entries(),
            forall|k: Seq<char>| k != key@ ==> #[trigger] lookup(final(self).entries(), k) == lookup(old(self).entries(), k),
            exists|now: u64| #[trigger] check_outcome(old(self).entries(), final(self).entries(), key@, max_attempts, window_ms, now, r),
    {
        let now = now_ms();
        let r = self.check_at(key, max_attempts, window_ms, now);
        assert(check_outcome(old(self).entries(), self.entries(), key@, max_attempts, window_ms, now, r));
        r
    }

    /// `check` with a preset limit.
    pub fn check_config(&mut self, key: &str, config: RateLimitConfig) -> (r: RateLimitResult)
        requires
            config.max_attempts >= 1,
        ensures
            r.success ==> (lookup(final(self).entries(), key@) matches Some(s) && s.len() <= config.max_attempts
                && r.remaining == config.max_attempts - s.len()),
            !r.success ==> r.remaining == 0 && final(self).entries() == old(self).entries(),
            forall|k: Seq<char>| k != key@ ==> #[trigger] lookup(final(self).entries(), k) == lookup(old(self).entries(), k),
            exists|now: u64| #[trigger] check_outcome(old(self).entries(), final(self).entries(), key@,
                config.max_attempts, config.window_ms, now, r),
    {
        self.check(key, config.max_attempts, config.window_ms)
    }

    /// Removes every key with no request in the window ending at `now`.
    pub fn cleanup_at(&mut self, max_age_ms: u64, now: u64)
        ensures
            forall|k: Seq<char>| #[trigger] lookup(final(self).entries(), k) == match lookup(old(self).entries(), k) {
                Some(s) => if newer_than(s, cutoff_of(now, max_age_ms)).len() > 0 {
                    Some(newer_than(s, cutoff_of(now, max_age_ms)))
                } else {
                    None
                },
                None => None::<Seq<u64>>,
            },
            final(self).entries().len() <= old(self).entries().len(),
    {
        proof {
            use_type_invariant(&*self);
        }
        let cutoff = if now >= max_age_ms { now - max_age_ms } else { 0 };
        let ghost old_entries = self.entries();
        let mut kept: Vec<(String, Vec<u64>)> = Vec::new();
        let mut i: usize = 0;
        while i < self.entries.len()
            invariant
                old_entries == self.entries(),
                distinct_keys(old_entries),
                0 <= i <= self.entries@.len(),
                old_entries.len() == self.entries@.len(),
                kept@.len() <= i,
                distinct_keys(entry_views(kept@)),
                forall|k: Seq<char>| #[trigger] lookup(entry_views(kept@), k)
                    == match lookup(old_entries.subrange(0, i as int), k) {
                        Some(s) => if newer_than(s, cutoff).len() > 0 { Some(newer_than(s, cutoff)) } else { None },
                        None => None::<Seq<u64>>,
                    },
                forall|j: int| 0 <= j < kept@.len() ==> exists|m: int| 0 <= m < i && #[trigger] kept@[j].0@ == old_entries[m].0,
            decreases self.entries.len() - i,
        {
            let list = &self.entries[i].1;
            let mut valid: Vec<u64> = Vec::new();
            let mut t: usize = 0;
            while t < list.len()
                invariant
                    0 <= t <= list@.len(),
                    valid@ == list@.subrange(0, t as int).filter(|x: u64| x > cutoff),
                decreases list.len() - t,
            {
                proof {
                    reveal(Seq::filter);
                    assert(list@.subrange(0, t + 1).drop_last() == list@.subrange(0, t as int));
                }
                if list[t] > cutoff {
                    valid.push(list[t]);
                }
                t = t + 1;
            }
            assert(list@.subrange(0, list@.len() as int) == list@);
            let ghost kv = entry_views(kept@);
            let ghost key_i = old_entries[i as int].0;
            let ghost pre = old_entries.subrange(0, i as int);
            let ghost next = old_entries.subrange(0, i + 1);
            proof {
                assert(next.drop_last() == pre);
                assert(next.last() == old_entries[i as int]);
                assert(old_entries[i as int].0 == self.entries@[i as int].0@);
                assert(old_entries[i as int].1 == list@);
                assert(lookup(pre, key_i) is None) by {
                    lemma_lookup_index(pre, key_i);
                    if lookup(pre, key_i) is Some {
                        let m = choose|m: int| 0 <= m < pre.len() && pre[m].0 == key_i;
                        assert(old_entries[m].0 != old_entries[i as int].0);
                    }
                }
                assert(lookup(kv, key_i) is None);
            }
            if valid.len() > 0 {
                let k = self.entries[i].0.clone();
                kept.push((k, valid));
                proof {
                    let kv2 = entry_views(kept@);
                    assert(kv2 =~= kv.push((key_i, newer_than(list@, cutoff))));
                    assert forall|o: Seq<char>| o != key_i implies lookup(kv2, o) == lookup(kv, o) by {
                        lemma_lookup_push(kv, key_i, newer_than(list@, cutoff), o);
                    }
                    lemma_lookup_push(kv, key_i, newer_than(list@, cutoff), key_i);
                    assert forall|j: int| 0 <= j < kept@.len() implies exists|m: int| 0 <= m < i + 1 && #[trigger] kept@[j].0@ == old_entries[m].0 by {
                        if j == kept@.len() - 1 {
                            assert(kept@[j].0@ == old_entries[i as int].0);
                        }
                    }
                }
            }
            i = i + 1;
        }
        assert(old_entries.subrange(0, old_entries.len() as int) == old_entries);
        self.entries = kept;
    }

    /// Removes every key with no request in the last `max_age_ms` ms. Whatever
    /// the clock reads, the outcome is that of `cleanup_at` at that time.
    pub fn cleanup(&mut self, max_age_ms: u64)
        ensures
            forall|k: Seq<char>| #[trigger] lookup(final(self).entries(), k) matches Some(s) ==> (s.len() > 0
                && lookup(old(self).entries(), k) is Some),
            exists|now: u64| #[trigger] cleanup_outcome(old(self).entries(), final(self).entries(), max_age_ms, now),
            final(self).entries().len() <= old(self).entries().len(),
    {
        let now = now_ms();
        self.cleanup_at(max_age_ms, now);
        assert(cleanup_outcome(old(self).entries(), self.entries(), max_age_ms, now));
    }

    /// Removes every entry.
    pub fn clear(&mut self)
        ensures
            final(self).entries() == Seq::<(Seq<char>, Seq<u64>)>::empty(),
    {
        let v: Vec<(String, Vec<u64>)> = Vec::new();
        assert(entry_views(v@) =~= Seq::<(Seq<char>, Seq<u64>)>::empty());
        self.entries = v;
    }

    /// Number of keys currently stored.
    pub fn store_size(&self) -> (n: usize)
        ensures
            n == self.entries().len(),
    {
        self.entries.len()
    }
}

// ---------------------------------------------------------------------------
// Keys
// ---------------------------------------------------------------------------

/// `<prefix>:<ip>`, the IP being the first entry of `X-Forwarded-For`
/// (trimmed), else the real IP, else `unknown`.
pub open spec fn rate_limit_key_spec(prefix: Seq<char>, forwarded_for: Option<Seq<char>>, real_ip: Option<Seq<char>>) -> Seq<char> {
    let ip = match forwarded_for {
        Some(ff) => trimmed(split_on(ff, ',')[0]),
        None => match real_ip {
            Some(r) => r,
            None => "unknown"@,
        },
    };
    prefix + seq![':'] + ip
}

/// The rate-limit key for a client address.
pub fn rate_limit_key(prefix: &str, forwarded_for: Option<&str>, real_ip: Option<&str>) -> (r: String)
    ensures
        r@ == rate_limit_key_spec(prefix@,
            match forwarded_for { Some(f) => Some(f@), None => None },
            match real_ip { Some(x) => Some(x@), None => None }),
{
    let mut r = prefix.to_string();
    r.append(":");
    proof {
        reveal_strlit(":");
    }
    match forwarded_for {
        Some(ff) => {
            let parts = split_chars(&chars_of(ff), ',');
            proof {
                crate::text::lemma_split_nonempty(ff@, ',');
                assert(views(parts@)[0] == parts@[0]@);
            }
            let first = trim_chars(&parts[0]);
            let s = string_from_chars(&first);
            r.append(s.as_str());
        },
        None => match real_ip {
            Some(ip) => r.append(ip),
            None => r.append("unknown"),
        },
    }
    r
}

/// `<prefix>:user:<user_id>`
pub fn rate_limit_key_for_user(user_id: &str, prefix: &str) -> (r: String)
    ensures
        r@ == prefix@ + ":user:"@ + user_id@,
{
    let mut r = prefix.to_string();
    r.append(":user:");
    r.append(user_id);
    r
}

} // verus!
