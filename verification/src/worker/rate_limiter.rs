//! Per-queue rate limiting with token buckets.
//!
//! Rates are held in micro-requests per second and time in nanoseconds, so
//! that the bucket arithmetic is exact: a bucket's contents are counted in
//! units of `10^-15` tokens, which is what one nanosecond of refill at one
//! micro-request per second adds.

use vstd::prelude::*;
use std::time::Duration;
use std::time::Instant;

verus! {

/// One request per second, in micro-requests per second.
pub const MICRO_RPS_PER_RPS: u64 = 1_000_000;

/// Nanoseconds in a second.
pub const NANOS_PER_SEC: u128 = 1_000_000_000;

/// One whole token, in bucket units (`10^-15` tokens).
pub const ONE_TOKEN: u128 = 1_000_000_000_000_000;

#[verifier::external_type_specification]
#[verifier::external_body]
pub struct ExInstant(std::time::Instant);

/// The abstract state of one bucket.
pub struct BucketView {
    /// Refill rate in micro-requests per second.
    pub rate: int,
    /// Capacity in bucket units.
    pub capacity: int,
    /// Current contents in bucket units.
    pub tokens: int,
    /// Time of the last refill, in nanoseconds since the limiter's epoch.
    pub last_refill: int,
}

/// Bucket capacity: the rate, but at least one request per second, held
/// for one second.
pub open spec fn capacity_for(rate: int) -> int {
    (if rate > MICRO_RPS_PER_RPS { rate } else { MICRO_RPS_PER_RPS as int }) * NANOS_PER_SEC
}

/// A fresh bucket is full.
pub open spec fn new_bucket(rate: int, now: int) -> BucketView {
    BucketView { rate, capacity: capacity_for(rate), tokens: capacity_for(rate), last_refill: now }
}

/// A changed rate changes the capacity; the contents are kept.
pub open spec fn with_rate(b: BucketView, rate: int) -> BucketView {
    if b.rate != rate {
        BucketView { rate, capacity: capacity_for(rate), ..b }
    } else {
        b
    }
}

/// Refill: add `elapsed * rate` units (elapsed never negative), up to the
/// capacity, and move the refill time to `now`.
pub open spec fn refilled(b: BucketView, now: int) -> BucketView {
    let elapsed = if now > b.last_refill { now - b.last_refill } else { 0 };
    let t = b.tokens + elapsed * b.rate;
    BucketView { tokens: if t < b.capacity { t } else { b.capacity }, last_refill: now, ..b }
}

/// One acquisition: refill, then take a whole token if there is one.
pub open spec fn acquire(b: BucketView, now: int) -> (bool, BucketView) {
    let r = refilled(b, now);
    if r.tokens >= ONE_TOKEN {
        (true, BucketView { tokens: r.tokens - ONE_TOKEN, ..r })
    } else {
        (false, r)
    }
}

/// One rate-limited check of a queue whose bucket was `prev`: the bucket is
/// created full if missing, takes the current rate, and is asked for a token.
pub open spec fn check_spec(prev: Option<BucketView>, rate: int, now: int) -> (bool, BucketView) {
    let b0 = match prev {
        Some(b) => b,
        None => new_bucket(rate, now),
    };
    acquire(with_rate(b0, rate), now)
}

/// One check of queue `name` against the buckets `before` at time `now`:
/// whether it passes, and the buckets after it. A queue without a positive
/// rate passes and changes nothing; otherwise its bucket is replaced by the
/// outcome of `check_spec`.
pub open spec fn check_apply(
    before: Map<Seq<char>, BucketView>,
    name: Seq<char>,
    rate: Option<u64>,
    now: int,
) -> (bool, Map<Seq<char>, BucketView>) {
    match rate {
        Some(r) if r > 0 => {
            let (res, b) = check_spec(
                if before.contains_key(name) { Some(before[name]) } else { None },
                r as int,
                now,
            );
            (res, before.insert(name, b))
        },
        _ => (true, before),
    }
}

/// A check at time `now` turned `before` into `after`, answering `ok`.
pub open spec fn check_outcome(
    before: Map<Seq<char>, BucketView>,
    name: Seq<char>,
    rate: Option<u64>,
    now: int,
    ok: bool,
    after: Map<Seq<char>, BucketView>,
) -> bool {
    (ok, after) == check_apply(before, name, rate, now)
}

/// A bucket at rest: a positive rate, the capacity that goes with it, and
/// contents within the capacity.
pub open spec fn bucket_wf(b: BucketView) -> bool {
    &&& 0 < b.rate <= u64::MAX
    &&& b.capacity == capacity_for(b.rate)
    &&& 0 <= b.tokens <= b.capacity
    &&& 0 <= b.last_refill <= u128::MAX
}

struct TokenBucket {
    rate: u64,
    capacity: u128,
    tokens: u128,
    last_refill: u128,
}

impl TokenBucket {
    spec fn view(&self) -> BucketView {
        BucketView {
            rate: self.rate as int,
            capacity: self.capacity as int,
            tokens: self.tokens as int,
            last_refill: self.last_refill as int,
        }
    }

    fn capacity_of(rate: u64) -> (c: u128)
        ensures
            c == capacity_for(rate as int),
    {
        let r: u64 = if rate > MICRO_RPS_PER_RPS { rate } else { MICRO_RPS_PER_RPS };
        assert((r as int) * (NANOS_PER_SEC as int) <= (u64::MAX as int) * 1_000_000_000) by (nonlinear_arith)
            requires r <= u64::MAX;
        (r as u128) * NANOS_PER_SEC
    }

    fn new(rate: u64, now: u128) -> (b: Self)
        requires
            rate > 0,
        ensures
            b.view() == new_bucket(rate as int, now as int),
            bucket_wf(b.view()),
    {
        let c = Self::capacity_of(rate);
        TokenBucket { rate, capacity: c, tokens: c, last_refill: now }
    }

    fn update_rate(&mut self, rate: u64)
        requires
            rate > 0,
            bucket_wf(old(self).view()),
        ensures
            final(self).view() == with_rate(old(self).view(), rate as int),
            0 < final(self).view().rate,
            final(self).view().capacity == capacity_for(final(self).view().rate),
            final(self).view().tokens <= capacity_for(u64::MAX as int),
    {
        if self.rate != rate {
            self.rate = rate;
            self.capacity = Self::capacity_of(rate);
        }
        let ghost r0 = old(self).view().rate;
        assert(capacity_for(r0) <= capacity_for(u64::MAX as int)) by (nonlinear_arith)
            requires 0 < r0 <= u64::MAX;
    }

    fn refill(&mut self, now: u128)
        requires
            0 < old(self).view().rate,
            old(self).view().capacity == capacity_for(old(self).view().rate),
            old(self).view().tokens <= capacity_for(u64::MAX as int),
            old(self).view().rate <= u64::MAX,
        ensures
            final(self).view() == refilled(old(self).view(), now as int),
            bucket_wf(final(self).view()),
    {
        let elapsed: u128 = if now > self.last_refill { now - self.last_refill } else { 0 };
        let ghost t = self.tokens as int + elapsed as int * self.rate as int;
        if self.tokens >= self.capacity {
            assert(t >= self.capacity) by (nonlinear_arith)
                requires t == self.tokens as int + elapsed as int * self.rate as int, self.tokens >= self.capacity, elapsed >= 0, self.rate >= 0;
            self.tokens = self.capacity;
        } else {
            let room: u128 = self.capacity - self.tokens;
            let rate: u128 = self.rate as u128;
            let steps: u128 = room / rate;
            if elapsed > steps {
                assert(elapsed as int * rate as int >= (steps as int + 1) * rate as int) by (nonlinear_arith)
                    requires elapsed > steps, rate > 0;
                assert((steps as int + 1) * rate as int > room as int) by (nonlinear_arith)
                    requires steps == room / rate, rate > 0;
                self.tokens = self.capacity;
            } else {
                assert(elapsed as int * rate as int <= steps as int * rate as int) by (nonlinear_arith)
                    requires elapsed <= steps, rate > 0;
                assert(steps as int * rate as int <= room as int) by (nonlinear_arith)
                    requires steps == room / rate, rate > 0;
                let added: u128 = elapsed * rate;
                self.tokens = self.tokens + added;
            }
        }
        self.last_refill = now;
    }

    fn try_acquire(&mut self, now: u128) -> (ok: bool)
        requires
            0 < old(self).view().rate,
            old(self).view().capacity == capacity_for(old(self).view().rate),
            old(self).view().tokens <= capacity_for(u64::MAX as int),
            old(self).view().rate <= u64::MAX,
        ensures
            (ok, final(self).view()) == acquire(old(self).view(), now as int),
            bucket_wf(final(self).view()),
    {
        self.refill(now);
        if self.tokens >= ONE_TOKEN {
            self.tokens = self.tokens - ONE_TOKEN;
            true
        } else {
            false
        }
    }
}

struct NamedBucket {
    name: String,
    bucket: TokenBucket,
}

/// Per-queue token buckets, created on first use of a rate-limited queue.
pub struct RateLimiter {
    epoch: Instant,
    buckets: Vec<NamedBucket>,
}

/// Reads the monotonic clock: `Instant::now`. Its result is the time, so
/// nothing is stated of it.
#[verifier::external_body]
fn instant_now() -> Instant {
    Instant::now()
}

/// `Instant::elapsed`: the time since `t`. Its result is the time, so
/// nothing is stated of it.
#[verifier::external_body]
fn elapsed_since(t: &Instant) -> Duration {
    t.elapsed()
}

/// `Duration::as_nanos`: whole nanoseconds in `d`. `Duration` is opaque
/// here, so nothing is stated of the number.
#[verifier::external_body]
fn duration_nanos(d: &Duration) -> u128 {
    d.as_nanos()
}

/// The buckets of a bucket list, by queue name.
spec fn buckets_view(s: Seq<NamedBucket>) -> Map<Seq<char>, BucketView> {
    Map::new(
        |k: Seq<char>| exists|i: int| 0 <= i < s.len() && s[i].name@ == k,
        |k: Seq<char>| {
            let i = choose|i: int| 0 <= i < s.len() && s[i].name@ == k;
            s[i].bucket.view()
        },
    )
}

/// A bucket list names each queue at most once and holds buckets at rest.
spec fn buckets_wf(s: Seq<NamedBucket>) -> bool {
    &&& forall|i: int, j: int| 0 <= i < j < s.len() ==> s[i].name@ != s[j].name@
    &&& forall|i: int| 0 <= i < s.len() ==> bucket_wf(#[trigger] s[i].bucket.view())
}

proof fn lemma_view_at(s: Seq<NamedBucket>, i: int)
    requires
        buckets_wf(s),
        0 <= i < s.len(),
    ensures
        buckets_view(s).contains_key(s[i].name@),
        buckets_view(s)[s[i].name@] == s[i].bucket.view(),
{
    let k = s[i].name@;
    assert(exists|j: int| 0 <= j < s.len() && s[j].name@ == k);
    let c = choose|j: int| 0 <= j < s.len() && s[j].name@ == k;
    if c != i {
        if c < i {
            assert(s[c].name@ != s[i].name@);
        } else {
            assert(s[i].name@ != s[c].name@);
        }
    }
}

proof fn lemma_update(s: Seq<NamedBucket>, i: int, nb: NamedBucket)
    requires
        buckets_wf(s),
        0 <= i < s.len(),
        nb.name@ == s[i].name@,
        bucket_wf(nb.bucket.view()),
    ensures
        buckets_wf(s.update(i, nb)),
        buckets_view(s.update(i, nb)) == buckets_view(s).insert(nb.name@, nb.bucket.view()),
{
    let t = s.update(i, nb);
    assert(buckets_wf(t));
    let m1 = buckets_view(t);
    let m2 = buckets_view(s).insert(nb.name@, nb.bucket.view());
    assert forall|k: Seq<char>| m1.contains_key(k) <==> m2.contains_key(k) by {
        if m1.contains_key(k) {
            let j = choose|j: int| 0 <= j < t.len() && t[j].name@ == k;
            if j != i {
                assert(s[j].name@ == k);
            }
        }
        if m2.contains_key(k) && k != nb.name@ {
            let j = choose|j: int| 0 <= j < s.len() && s[j].name@ == k;
            assert(t[j].name@ == k);
        }
        if k == nb.name@ {
            assert(t[i].name@ == k);
        }
    }
    assert forall|k: Seq<char>| m1.contains_key(k) implies m1[k] == m2[k] by {
        let j = choose|j: int| 0 <= j < t.len() && t[j].name@ == k;
        lemma_view_at(t, j);
        if j != i {
            assert(s[j] == t[j]);
            lemma_view_at(s, j);
        }
    }
    assert(m1 =~= m2);
}

proof fn lemma_push(s: Seq<NamedBucket>, nb: NamedBucket)
    requires
        buckets_wf(s),
        !buckets_view(s).contains_key(nb.name@),
        bucket_wf(nb.bucket.view()),
    ensures
        buckets_wf(s.push(nb)),
        buckets_view(s.push(nb)) == buckets_view(s).insert(nb.name@, nb.bucket.view()),
{
    let t = s.push(nb);
    let n = s.len() as int;
    assert forall|i: int, j: int| 0 <= i < j < t.len() implies t[i].name@ != t[j].name@ by {
        if j == n {
            if s[i].name@ == nb.name@ {
                assert(buckets_view(s).contains_key(nb.name@));
            }
        }
    }
    assert(buckets_wf(t));
    let m1 = buckets_view(t);
    let m2 = buckets_view(s).insert(nb.name@, nb.bucket.view());
    assert forall|k: Seq<char>| m1.contains_key(k) <==> m2.contains_key(k) by {
        if m1.contains_key(k) {
            let j = choose|j: int| 0 <= j < t.len() && t[j].name@ == k;
            if j < n {
                assert(s[j].name@ == k);
            }
        }
        if m2.contains_key(k) && k != nb.name@ {
            let j = choose|j: int| 0 <= j < s.len() && s[j].name@ == k;
            assert(t[j].name@ == k);
        }
        if k == nb.name@ {
            assert(t[n].name@ == k);
        }
    }
    assert forall|k: Seq<char>| m1.contains_key(k) implies m1[k] == m2[k] by {
        let j = choose|j: int| 0 <= j < t.len() && t[j].name@ == k;
        lemma_view_at(t, j);
        if j < n {
            assert(s[j] == t[j]);
            lemma_view_at(s, j);
        }
    }
    assert(m1 =~= m2);
}

impl View for RateLimiter {
    type V = Map<Seq<char>, BucketView>;

    /// The buckets by queue name.
    closed spec fn view(&self) -> Map<Seq<char>, BucketView> {
        buckets_view(self.buckets@)
    }
}

/// The index of the bucket of queue `name`, if it has one.
fn find_bucket(buckets: &Vec<NamedBucket>, name: &str) -> (r: Option<usize>)
    requires
        buckets_wf(buckets@),
    ensures
        match r {
            Some(i) => i < buckets@.len() && buckets@[i as int].name@ == name@,
            None => !buckets_view(buckets@).contains_key(name@),
        },
{
    let ghost s = buckets@;
    let mut i: usize = 0;
    while i < buckets.len()
        invariant
            i <= buckets@.len(),
            forall|j: int| 0 <= j < i ==> buckets@[j].name@ != name@,
        decreases buckets@.len() - i,
    {
        if crate::text::str_eq(buckets[i].name.as_str(), name) {
            assert(buckets@[i as int].name@ == name@);
            return Some(i);
        }
        i = i + 1;
    }
    proof {
        if buckets_view(s).contains_key(name@) {
            let j = choose|j: int| 0 <= j < s.len() && s[j].name@ == name@;
            assert(s[j].name@ != name@);
        }
    }
    None
}

impl RateLimiter {
    /// Every queue has at most one bucket, and every bucket is at rest.
    #[verifier::type_invariant]
    spec fn wf(&self) -> bool {
        buckets_wf(self.buckets@)
    }

    /// An empty limiter, timing from now.
    pub fn new() -> (l: Self)
        ensures
            l@ == Map::<Seq<char>, BucketView>::empty(),
    {
        let l = RateLimiter { epoch: instant_now(), buckets: Vec::new() };
        assert(l@ =~= Map::<Seq<char>, BucketView>::empty());
        l
    }

    /// Whether a job may be taken from queue `name` at time `now` (nanoseconds
    /// since the limiter's epoch). A queue without a positive rate limit
    /// (`rate_micro_rps` in micro-requests per second) always passes and
    /// leaves the buckets alone; otherwise its bucket (created full when
    /// missing) takes the current rate and is asked for one token.
    pub fn check_queue_at(&mut self, name: &str, rate_micro_rps: Option<u64>, now: u128) -> (ok: bool)
        ensures
            check_outcome(old(self)@, name@, rate_micro_rps, now as int, ok, final(self)@),
    {
        proof {
            use_type_invariant(&*self);
        }
        let rate: u64 = match rate_micro_rps {
            Some(r) => r,
            None => 0,
        };
        if rate == 0 {
            return true;
        }
        let mut buckets: Vec<NamedBucket> = Vec::new();
        std::mem::swap(&mut buckets, &mut self.buckets);
        let ghost old_buckets = buckets@;
        let ok = match find_bucket(&buckets, name) {
            Some(i) => {
                proof {
                    lemma_view_at(old_buckets, i as int);
                }
                let mut nb = buckets.remove(i);
                nb.bucket.update_rate(rate);
                let ok = nb.bucket.try_acquire(now);
                buckets.insert(i, nb);
                proof {
                    assert(buckets@ =~= old_buckets.update(i as int, nb));
                    lemma_update(old_buckets, i as int, nb);
                }
                ok
            },
            None => {
                let mut b = TokenBucket::new(rate, now);
                b.update_rate(rate);
                let ok = b.try_acquire(now);
                let nb = NamedBucket { name: String::from_str(name), bucket: b };
                buckets.push(nb);
                proof {
                    lemma_push(old_buckets, nb);
                }
                ok
            },
        };
        self.buckets = buckets;
        ok
    }

    /// Whether a job may be taken from queue `name` now; see `check_queue_at`.
    pub fn check_queue(&mut self, name: &str, rate_micro_rps: Option<u64>) -> (ok: bool)
        ensures
            exists|now: int| #[trigger] check_outcome(old(self)@, name@, rate_micro_rps, now, ok, final(self)@),
    {
        let now = duration_nanos(&elapsed_since(&self.epoch));
        self.check_queue_at(name, rate_micro_rps, now)
    }
}

/// The bucket of a queue after `k` checks at the same instant, starting
/// from `prev` (`None`: the queue had no bucket).
pub open spec fn after_checks(prev: Option<BucketView>, rate: int, now: int, k: nat) -> Option<BucketView>
    decreases k,
{
    if k == 0 {
        prev
    } else {
        Some(check_spec(after_checks(prev, rate, now, (k - 1) as nat), rate, now).1)
    }
}

/// Whether the check after `k` earlier checks at the same instant passes.
pub open spec fn nth_check_passes(prev: Option<BucketView>, rate: int, now: int, k: nat) -> bool {
    check_spec(after_checks(prev, rate, now, k), rate, now).0
}

/// The burst a fresh bucket allows: its capacity in whole tokens, that is,
/// the rate in whole requests per second, but at least one.
pub open spec fn burst_size(rate: int) -> int {
    (if rate > MICRO_RPS_PER_RPS { rate } else { MICRO_RPS_PER_RPS as int }) / (MICRO_RPS_PER_RPS as int)
}

proof fn lemma_burst_arith(rate: int)
    requires
        0 < rate,
    ensures
        burst_size(rate) >= 1,
        capacity_for(rate) - burst_size(rate) * ONE_TOKEN < ONE_TOKEN,
        capacity_for(rate) - burst_size(rate) * ONE_TOKEN >= 0,
{
    let m: int = if rate > MICRO_RPS_PER_RPS { rate } else { MICRO_RPS_PER_RPS as int };
    let b = m / 1_000_000;
    let rem = m % 1_000_000;
    assert(m == b * 1_000_000 + rem && 0 <= rem < 1_000_000);
    assert(b >= 1);
    assert(capacity_for(rate) == m * 1_000_000_000);
    assert(m * 1_000_000_000 == b * 1_000_000_000_000_000 + rem * 1_000_000_000) by (nonlinear_arith)
        requires m == b * 1_000_000 + rem;
    assert(rem * 1_000_000_000 < 1_000_000_000_000_000) by (nonlinear_arith)
        requires 0 <= rem < 1_000_000;
    assert(rem * 1_000_000_000 >= 0) by (nonlinear_arith)
        requires 0 <= rem;
}

proof fn lemma_after_checks_fresh(rate: int, now: int, k: nat)
    requires
        0 < rate,
        k >= 1,
    ensures
        after_checks(None, rate, now, k) == Some(BucketView {
            rate,
            capacity: capacity_for(rate),
            tokens: capacity_for(rate) - (if k < burst_size(rate) { k as int } else { burst_size(rate) }) * ONE_TOKEN,
            last_refill: now,
        }),
    decreases k,
{
    lemma_burst_arith(rate);
    let cap = capacity_for(rate);
    let bs = burst_size(rate);
    if k == 1 {
        assert(after_checks(None, rate, now, 0) == None::<BucketView>);
        assert(cap >= ONE_TOKEN) by (nonlinear_arith)
            requires cap - bs * ONE_TOKEN >= 0, bs >= 1;
    } else {
        lemma_after_checks_fresh(rate, now, (k - 1) as nat);
        let m: int = if k - 1 < bs { k - 1 } else { bs };
        let prev = after_checks(None, rate, now, (k - 1) as nat).unwrap();
        assert(prev.tokens == cap - m * ONE_TOKEN);
        if m < bs {
            assert(cap - m * ONE_TOKEN >= ONE_TOKEN) by (nonlinear_arith)
                requires cap - bs * ONE_TOKEN >= 0, m < bs, m >= 1;
            assert(cap - m * ONE_TOKEN - ONE_TOKEN == cap - (m + 1) * ONE_TOKEN) by (nonlinear_arith);
        } else {
            assert(m == bs);
        }
    }
}

/// A queue seen for the first time admits a burst of exactly
/// `burst_size(rate)` jobs at one instant: check number `k` (counting from
/// zero) passes if and only if `k < burst_size(rate)`.
pub proof fn fresh_bucket_burst(rate: int, now: int, k: nat)
    requires
        0 < rate,
    ensures
        nth_check_passes(None, rate, now, k) <==> k < burst_size(rate),
{
    lemma_burst_arith(rate);
    let cap = capacity_for(rate);
    let bs = burst_size(rate);
    if k == 0 {
        assert(cap >= ONE_TOKEN) by (nonlinear_arith)
            requires cap - bs * ONE_TOKEN >= 0, bs >= 1;
    } else {
        lemma_after_checks_fresh(rate, now, k);
        let m: int = if k < bs { k as int } else { bs };
        if m < bs {
            assert(cap - m * ONE_TOKEN >= ONE_TOKEN) by (nonlinear_arith)
                requires cap - bs * ONE_TOKEN >= 0, m < bs;
        }
    }
}

/// Tokens refill with time: once a bucket at rest has waited long enough to
/// earn one whole token at its rate, the next check with that rate passes,
/// however empty the bucket was.
pub proof fn waiting_one_token_time_admits(b: BucketView, now: int)
    requires
        bucket_wf(b),
        now >= b.last_refill,
        (now - b.last_refill) * b.rate >= ONE_TOKEN,
    ensures
        check_spec(Some(b), b.rate, now).0,
{
    let e = now - b.last_refill;
    assert(b.tokens + e * b.rate >= ONE_TOKEN);
    assert(b.capacity >= ONE_TOKEN) by (nonlinear_arith)
        requires b.capacity == capacity_for(b.rate), 0 < b.rate;
}

/// After any check of a rate-limited queue, its bucket runs at the rate of
/// that check, with the capacity that rate gives, and is at rest.
pub proof fn check_applies_current_rate(prev: Option<BucketView>, rate: int, now: int)
    requires
        0 < rate <= u64::MAX,
        0 <= now <= u128::MAX,
        prev matches Some(b) ==> bucket_wf(b),
    ensures
        check_spec(prev, rate, now).1.rate == rate,
        check_spec(prev, rate, now).1.capacity == capacity_for(rate),
        bucket_wf(check_spec(prev, rate, now).1),
{
    let b0 = match prev {
        Some(b) => b,
        None => new_bucket(rate, now),
    };
    let b1 = with_rate(b0, rate);
    let e = if now > b1.last_refill { now - b1.last_refill } else { 0 };
    assert(e * b1.rate >= 0) by (nonlinear_arith)
        requires e >= 0, b1.rate > 0;
    assert(b0.tokens >= 0);
}

/// The outcome of checks of one queue at the times `times`, in order,
/// starting from the bucket `prev`: how many passed, and the bucket after.
pub open spec fn run_checks(prev: Option<BucketView>, rate: int, times: Seq<int>) -> (nat, Option<BucketView>)
    decreases times.len(),
{
    if times.len() == 0 {
        (0, prev)
    } else {
        let (passed, b) = run_checks(prev, rate, times.drop_last());
        let (ok, b2) = check_spec(b, rate, times.last());
        (if ok { passed + 1 } else { passed }, Some(b2))
    }
}

/// Times that never go backwards, as the monotonic clock gives them.
pub open spec fn nondecreasing(times: Seq<int>) -> bool {
    forall|i: int, j: int| 0 <= i <= j < times.len() ==> times[i] <= times[j]
}

proof fn lemma_run_checks_budget(rate: int, times: Seq<int>)
    requires
        0 < rate,
        times.len() >= 1,
        nondecreasing(times),
    ensures
        ({
            let (passed, b) = run_checks(None, rate, times);
            &&& b is Some
            &&& b->0.rate == rate
            &&& b->0.capacity == capacity_for(rate)
            &&& b->0.last_refill == times.last()
            &&& b->0.tokens >= 0
            &&& b->0.tokens + passed * ONE_TOKEN <= capacity_for(rate) + (times.last() - times[0]) * rate
        }),
    decreases times.len(),
{
    let cap = capacity_for(rate);
    if times.len() == 1 {
        assert(times.drop_last().len() == 0);
        assert(run_checks(None, rate, times.drop_last()) == (0nat, None::<BucketView>));
        assert(times.last() == times[0]);
    } else {
        let ts = times.drop_last();
        assert(nondecreasing(ts));
        lemma_run_checks_budget(rate, ts);
        let (p, b) = run_checks(None, rate, ts);
        let bb = b->0;
        let t = times.last();
        let t0 = times[0];
        assert(ts[0] == t0);
        assert(ts.last() == times[times.len() - 2]);
        assert(bb.last_refill <= t);
        let e = t - bb.last_refill;
        assert(e * rate >= 0) by (nonlinear_arith)
            requires e >= 0, rate > 0;
        assert((bb.last_refill - t0) * rate + e * rate == (t - t0) * rate) by (nonlinear_arith)
            requires e == t - bb.last_refill;
        assert(with_rate(bb, rate) == bb);
    }
}

/// The rate limit holds over every interval: from the check that creates a
/// queue's bucket at time `times[0]`, the checks at later times up to
/// `times.last()` pass at most `max(rate, 1) + rate * T` times, `T` being
/// the length of the interval in seconds (in the units here: passes times
/// `ONE_TOKEN` is at most the capacity plus nanoseconds times
/// micro-requests per second).
pub proof fn passes_within_interval_bound(rate: int, times: Seq<int>)
    requires
        0 < rate,
        times.len() >= 1,
        nondecreasing(times),
    ensures
        run_checks(None, rate, times).0 * ONE_TOKEN <= capacity_for(rate) + (times.last() - times[0]) * rate,
{
    lemma_run_checks_budget(rate, times);
}

/// How many of the answers are `true`.
pub open spec fn count_passes(oks: Seq<bool>) -> nat
    decreases oks.len(),
{
    if oks.len() == 0 {
        0
    } else {
        count_passes(oks.drop_last()) + (if oks.last() { 1nat } else { 0nat })
    }
}

/// The bucket of queue `name` in a limiter's view, if it has one.
pub open spec fn bucket_of(view: Map<Seq<char>, BucketView>, name: Seq<char>) -> Option<BucketView> {
    if view.contains_key(name) { Some(view[name]) } else { None }
}

proof fn lemma_calls_follow_run_checks(
    name: Seq<char>,
    rate: u64,
    views: Seq<Map<Seq<char>, BucketView>>,
    times: Seq<int>,
    oks: Seq<bool>,
    k: int,
)
    requires
        0 < rate,
        views.len() == times.len() + 1,
        oks.len() == times.len(),
        !views[0].contains_key(name),
        forall|j: int| 0 <= j < times.len() ==> #[trigger] check_outcome(
            views[j], name, Some(rate), times[j], oks[j], views[j + 1]),
        0 <= k <= times.len(),
    ensures
        run_checks(None, rate as int, times.take(k)) == (count_passes(oks.take(k)), bucket_of(views[k], name)),
    decreases k,
{
    if k == 0 {
        assert(times.take(0) =~= Seq::<int>::empty());
        assert(oks.take(0) =~= Seq::<bool>::empty());
    } else {
        lemma_calls_follow_run_checks(name, rate, views, times, oks, k - 1);
        let j = k - 1;
        assert(check_outcome(views[j], name, Some(rate), times[j], oks[j], views[j + 1]));
        assert(times.take(k).drop_last() =~= times.take(k - 1));
        assert(oks.take(k).drop_last() =~= oks.take(k - 1));
        assert(times.take(k).last() == times[k - 1]);
        assert(oks.take(k).last() == oks[k - 1]);
    }
}

/// Successive checks of one queue on the limiter itself, each answered by
/// `check_queue_at` (or `check_queue`) at a time no earlier than the one
/// before, with a constant positive rate, starting where the queue has no
/// bucket yet: from the first check to the last, the passes are no more
/// than the burst plus what the rate refills in the meantime, that is
/// passes <= max(rate, 1 request/s) * 1 s + rate * elapsed.
pub proof fn limiter_passes_within_interval_bound(
    name: Seq<char>,
    rate: u64,
    views: Seq<Map<Seq<char>, BucketView>>,
    times: Seq<int>,
    oks: Seq<bool>,
)
    requires
        0 < rate,
        times.len() >= 1,
        nondecreasing(times),
        views.len() == times.len() + 1,
        oks.len() == times.len(),
        !views[0].contains_key(name),
        forall|j: int| 0 <= j < times.len() ==> #[trigger] check_outcome(
            views[j], name, Some(rate), times[j], oks[j], views[j + 1]),
    ensures
        count_passes(oks) * ONE_TOKEN <= capacity_for(rate as int) + (times.last() - times[0]) * rate,
{
    lemma_calls_follow_run_checks(name, rate, views, times, oks, times.len() as int);
    assert(times.take(times.len() as int) =~= times);
    assert(oks.take(oks.len() as int) =~= oks);
    passes_within_interval_bound(rate as int, times);
}

} // verus!
