//! Sliding-window admission control keyed by (subject, route).
//!
//! On every check the limiter increments, in one atomic store
//! transaction, a global counter named by the key and a windowed
//! counter named by the key and the current window's boundaries, both
//! with the timeframe as their time-to-live. The windowed counter's
//! post-increment value alone decides admission; old windows simply
//! expire in the store. `Limiter::check` is that algorithm against a
//! [`CounterStore`]; a deployment against an external store performs
//! the same two increments remotely and hands the windowed count to
//! [`Limiter::admission`].

use vstd::prelude::*;
use crate::decimal::{spec_decimal, u64_to_decimal};
use crate::errors::GatewayError;
use crate::settings::RateLimitSettings;
use crate::store::{spec_bump, spec_sat_add, CounterStore};

verus! {

/// The key one subject's requests to one route are counted under.
pub open spec fn spec_rate_limit_key(sub: Seq<char>, route: Seq<char>) -> Seq<char> {
    sub + ":"@ + route
}

/// The start of the window that ends just after `now`.
pub open spec fn spec_window_start(timeframe: u64, now: u64) -> u64 {
    if timeframe <= now {
        (now - timeframe) as u64
    } else {
        0
    }
}

/// The name of the windowed counter: the key followed by the window's
/// boundaries `[now - timeframe, now + 1]`.
pub open spec fn spec_window_key(key: Seq<char>, timeframe: u64, now: u64) -> Seq<char> {
    key + ":"@ + spec_decimal(spec_window_start(timeframe, now) as nat) + ":"@ + spec_decimal(
        spec_sat_add(now, 1) as nat,
    )
}

/// What is left of the quota once the windowed counter reads `count`.
pub open spec fn spec_remaining(limit: usize, count: u64) -> usize {
    if (count as int) < (limit as int) {
        (limit - count) as usize
    } else {
        0
    }
}

/// The admission decision on a windowed count: the call is admitted
/// with the remaining quota while the count — which includes this call
/// — is within the limit (the last admitted call returns zero
/// remaining), and rejected only once the count exceeds it. Under a
/// limit of N, exactly N calls per window are admitted.
pub open spec fn spec_admit(limit: usize, count: u64) -> Result<usize, GatewayError> {
    if (count as int) <= (limit as int) {
        Ok(spec_remaining(limit, count))
    } else {
        Err(GatewayError::RateLimitExceeded)
    }
}

/// Derives the counter key for one subject on one route.
pub fn rate_limit_key(sub: &str, route: &str) -> (r: String)
    ensures
        r@ == spec_rate_limit_key(sub@, route@),
{
    let mut s = sub.to_owned();
    s.append(":");
    s.append(route);
    s
}

/// Sliding-window rate limiter.
#[derive(Debug, Clone)]
pub struct Limiter {
    limit: usize,
    timeframe_seconds: usize,
}

impl Limiter {
    /// The number of requests allowed within one timeframe.
    pub closed spec fn spec_limit(self) -> usize {
        self.limit
    }

    /// The window length, in seconds.
    pub closed spec fn spec_timeframe(self) -> usize {
        self.timeframe_seconds
    }

    /// Creates a new rate limiter.
    pub fn new(settings: &RateLimitSettings) -> (r: Self)
        ensures
            r.spec_limit() == settings.limit,
            r.spec_timeframe() == settings.timeframe_seconds,
    {
        Limiter { limit: settings.limit, timeframe_seconds: settings.timeframe_seconds }
    }

    /// The name of the windowed counter for `key` at instant `now`.
    pub fn window_key(&self, key: &str, now: u64) -> (r: String)
        ensures
            r@ == spec_window_key(key@, self.spec_timeframe() as u64, now),
    {
        let timeframe = self.timeframe_seconds as u64;
        let start = if timeframe <= now {
            now - timeframe
        } else {
            0
        };
        let end = if now < u64::MAX {
            now + 1
        } else {
            u64::MAX
        };
        let mut s = key.to_owned();
        s.append(":");
        s.append(u64_to_decimal(start).as_str());
        s.append(":");
        s.append(u64_to_decimal(end).as_str());
        s
    }

    /// Decides admission from the windowed counter's post-increment
    /// value: the remaining quota while the count is within the limit
    /// (zero on the last admitted call), `RateLimitExceeded` once the
    /// count exceeds it.
    pub fn admission(&self, window_count: u64) -> (r: Result<usize, GatewayError>)
        ensures
            r == spec_admit(self.spec_limit(), window_count),
    {
        let limit = self.limit as u64;
        if window_count <= limit {
            Ok((limit - window_count) as usize)
        } else {
            Err(GatewayError::RateLimitExceeded)
        }
    }

    /// Checks whether the rate limit is exceeded, counting this call.
    /// Returns the number of requests remaining in the timeframe.
    ///
    /// In one atomic step against the store this increments the global
    /// counter named `key` and the windowed counter for the current
    /// window, resets both counters' time-to-live to the timeframe, and
    /// decides admission on the windowed counter's new value. No other
    /// counter changes.
    pub fn check(&self, store: &mut CounterStore, key: &String, now: u64) -> (r: Result<
        usize,
        GatewayError,
    >)
        requires
            old(store).wf(),
        ensures
            final(store).wf(),
            r == spec_admit(
                self.spec_limit(),
                spec_bump(
                    old(store).live_value(
                        spec_window_key(key@, self.spec_timeframe() as u64, now),
                        now,
                    ),
                ),
            ),
            final(store).has_counter(key@),
            final(store).counter(key@).value == spec_bump(old(store).live_value(key@, now)),
            final(store).counter(key@).expires_at == spec_sat_add(
                now,
                self.spec_timeframe() as u64,
            ),
            final(store).has_counter(spec_window_key(key@, self.spec_timeframe() as u64, now)),
            final(store).counter(spec_window_key(key@, self.spec_timeframe() as u64, now)).value
                == spec_bump(
                old(store).live_value(spec_window_key(key@, self.spec_timeframe() as u64, now), now),
            ),
            final(store).counter(
                spec_window_key(key@, self.spec_timeframe() as u64, now),
            ).expires_at == spec_sat_add(now, self.spec_timeframe() as u64),
            forall|n: Seq<char>|
                n != key@ && n != spec_window_key(key@, self.spec_timeframe() as u64, now)
                    ==> final(store).counter_state(n) == old(store).counter_state(n),
    {
        let timeframe = self.timeframe_seconds as u64;
        let wkey = self.window_key(key.as_str(), now);
        proof {
            reveal_strlit(":");
            crate::decimal::lemma_decimal_nonempty(
                spec_window_start(self.spec_timeframe() as u64, now) as nat,
            );
            crate::decimal::lemma_decimal_nonempty(spec_sat_add(now, 1) as nat);
            assert(wkey@.len() >= key@.len() + 4);
        }
        let _global_count = store.incr_with_ttl(key, now, timeframe);
        let ghost mid = *store;
        let window_count = store.incr_with_ttl(&wkey, now, timeframe);
        proof {
            assert(key@ != wkey@);
            assert(store.counter_state(key@) == mid.counter_state(key@));
            assert(mid.counter_state(wkey@) == old(store).counter_state(wkey@));
        }
        self.admission(window_count)
    }
}

/// Distinct prefixes stay distinct under a common suffix.
proof fn lemma_append_keeps_distinct(a: Seq<char>, b: Seq<char>, t: Seq<char>)
    requires
        a != b,
    ensures
        a + t != b + t,
{
    if a + t == b + t {
        if a.len() == b.len() {
            assert forall|i: int| 0 <= i < a.len() implies a[i] == b[i] by {
                assert((a + t)[i] == (b + t)[i]);
            }
            assert(a =~= b);
        } else {
            assert((a + t).len() != (b + t).len());
        }
    }
}

/// Within one window the quota runs down one admission at a time: the
/// call that finds the windowed counter at `i` (counting itself) is
/// admitted with `limit - i` remaining while `i` is within the limit,
/// the remainder strictly decreases from call to call and reaches zero
/// on the last admitted call — the `limit`-th — and every later call
/// in the window is rejected with `RateLimitExceeded`.
pub proof fn lemma_quota_schedule(limit: usize, i: u64)
    requires
        1 <= i,
    ensures
        (i as int) <= (limit as int) ==> spec_admit(limit, i) == Ok::<usize, GatewayError>(
            ((limit as int - i as int) as usize),
        ),
        1 < i && (i as int) <= (limit as int) ==> spec_remaining(limit, i) < spec_remaining(
            limit,
            (i - 1) as u64,
        ),
        (limit as int) < (i as int) ==> spec_admit(limit, i) == Err::<usize, GatewayError>(
            GatewayError::RateLimitExceeded,
        ),
{
}

/// Once the store has let a key's windowed counter expire — however
/// exhausted it was — the next check restarts the count at one and is
/// admitted with `limit - 1` remaining, exactly as the first request
/// for a fresh key (which the same statement covers: a key with no
/// windowed counter at all) always is, for any limit of at least one.
pub proof fn lemma_expiry_readmits(
    limit: usize,
    store: CounterStore,
    window_name: Seq<char>,
    now: u64,
)
    requires
        1 <= limit,
        store.has_counter(window_name) ==> store.counter(window_name).expires_at <= now,
    ensures
        store.live_value(window_name, now) == 0,
        spec_admit(limit, spec_bump(store.live_value(window_name, now))) == Ok::<
            usize,
            GatewayError,
        >((limit - 1) as usize),
{
}

/// Two distinct subjects on the same route never share a budget: their
/// counter names differ, and a check by one subject — which touches
/// only that subject's two counters — leaves the other subject's
/// windowed counter, and with it the other subject's admission
/// outcome, exactly as it was. The two side conditions exclude the
/// degenerate subjects whose identifier embeds the other's whole
/// counter name, colons and window numerals included.
pub proof fn lemma_subjects_isolated(
    limit: usize,
    timeframe: u64,
    now: u64,
    sub_a: Seq<char>,
    sub_b: Seq<char>,
    route: Seq<char>,
    s_pre: CounterStore,
    s_post: CounterStore,
)
    requires
        sub_a != sub_b,
        spec_rate_limit_key(sub_a, route) != spec_window_key(
            spec_rate_limit_key(sub_b, route),
            timeframe,
            now,
        ),
        forall|n: Seq<char>|
            n != spec_rate_limit_key(sub_a, route) && n != spec_window_key(
                spec_rate_limit_key(sub_a, route),
                timeframe,
                now,
            ) ==> s_post.counter_state(n) == s_pre.counter_state(n),
    ensures
        spec_rate_limit_key(sub_a, route) != spec_rate_limit_key(sub_b, route),
        spec_window_key(spec_rate_limit_key(sub_a, route), timeframe, now) != spec_window_key(
            spec_rate_limit_key(sub_b, route),
            timeframe,
            now,
        ),
        s_post.live_value(spec_window_key(spec_rate_limit_key(sub_b, route), timeframe, now), now)
            == s_pre.live_value(
            spec_window_key(spec_rate_limit_key(sub_b, route), timeframe, now),
            now,
        ),
        spec_admit(
            limit,
            spec_bump(
                s_post.live_value(
                    spec_window_key(spec_rate_limit_key(sub_b, route), timeframe, now),
                    now,
                ),
            ),
        ) == spec_admit(
            limit,
            spec_bump(
                s_pre.live_value(
                    spec_window_key(spec_rate_limit_key(sub_b, route), timeframe, now),
                    now,
                ),
            ),
        ),
{
    let ka = spec_rate_limit_key(sub_a, route);
    let kb = spec_rate_limit_key(sub_b, route);
    let mid = ":"@ + route;
    assert(ka =~= sub_a + mid);
    assert(kb =~= sub_b + mid);
    lemma_append_keeps_distinct(sub_a, sub_b, mid);
    let win = ":"@ + spec_decimal(spec_window_start(timeframe, now) as nat) + ":"@ + spec_decimal(
        spec_sat_add(now, 1) as nat,
    );
    assert(spec_window_key(ka, timeframe, now) =~= ka + win);
    assert(spec_window_key(kb, timeframe, now) =~= kb + win);
    lemma_append_keeps_distinct(ka, kb, win);
}

} // verus!
