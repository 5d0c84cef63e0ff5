//! Retry backoff: the delay before a failed job becomes visible again.

use vstd::prelude::*;
use crate::text::str_eq;
use rand::Rng;

verus! {

/// Parts per million: the unit in which jitter is drawn.
pub const PPM: i64 = 1_000_000;

/// Jitter spans `[-JITTER_SPAN_PPM, JITTER_SPAN_PPM)` parts per million,
/// that is, up to 30% either way.
pub const JITTER_SPAN_PPM: i64 = 300_000;

/// Clamps an integer into the `i64` range, as saturating arithmetic does.
pub open spec fn sat_i64(x: int) -> int {
    if x > i64::MAX { i64::MAX as int } else if x < i64::MIN { i64::MIN as int } else { x }
}

/// Two to the power `e`.
pub open spec fn pow2(e: nat) -> nat
    decreases e,
{
    if e == 0 { 1 } else { 2 * pow2((e - 1) as nat) }
}

/// `2_i64.saturating_pow(e)`: `2^e`, or `i64::MAX` once that overflows.
pub open spec fn sat_pow2(e: nat) -> int {
    if e >= 63 { i64::MAX as int } else { pow2(e) as int }
}

/// The backoff strategy names that are not exponential.
pub open spec fn is_linear(backoff: Seq<char>) -> bool {
    backoff == "linear"@
}

pub open spec fn is_fixed(backoff: Seq<char>) -> bool {
    backoff == "fixed"@
}

/// The exponent of the exponential strategy: `max(attempt - 1, 0)`.
pub open spec fn exponent(attempt: int) -> nat {
    if attempt - 1 > 0 { (attempt - 1) as nat } else { 0 }
}

/// The delay before jitter: `base * attempt` for "linear", `base` for
/// "fixed", and `base * 2^(attempt - 1)` (saturating) for every other name.
pub open spec fn raw_delay(attempt: int, backoff: Seq<char>, base: int) -> int {
    if is_linear(backoff) {
        base * attempt
    } else if is_fixed(backoff) {
        base
    } else {
        sat_i64(base * sat_pow2(exponent(attempt)))
    }
}

/// Division that rounds toward zero, as a float-to-integer cast does.
pub open spec fn trunc_div(a: int, d: int) -> int {
    if a >= 0 { a / d } else { -((-a) / d) }
}

/// The raw delay scaled by `(1 + jitter / 10^6)`, rounded toward zero.
pub open spec fn jittered(raw: int, jitter_ppm: int) -> int {
    trunc_div(raw * (PPM + jitter_ppm), PPM as int)
}

/// The delay after jitter, capped at `max_delay` and floored at zero.
pub open spec fn capped(x: int, max_delay: int) -> int {
    let m = if x < max_delay { x } else { max_delay };
    if m < 0 { 0 } else { m }
}

/// The full delay for one jitter draw.
pub open spec fn delay_spec(attempt: int, backoff: Seq<char>, base: int, max_delay: int, jitter_ppm: int) -> int {
    capped(jittered(raw_delay(attempt, backoff, base), jitter_ppm), max_delay)
}

/// A jitter draw that the delay computation accepts.
pub open spec fn jitter_in_range(j: int) -> bool {
    -JITTER_SPAN_PPM <= j < JITTER_SPAN_PPM
}

/// The inputs on which the delay is defined: the exponent
/// `attempt - 1` must not overflow when the strategy is exponential.
pub open spec fn delay_inputs_ok(attempt: int, backoff: Seq<char>) -> bool {
    !is_linear(backoff) && !is_fixed(backoff) ==> attempt > i32::MIN
}

/// `2_i64.saturating_pow(exp)`.
fn saturating_pow2(exp: u32) -> (r: i64)
    ensures
        r == sat_pow2(exp as nat),
        r >= 1,
{
    if exp >= 63 {
        return i64::MAX;
    }
    let mut p: i64 = 1;
    let mut k: u32 = 0;
    while k < exp
        invariant
            k <= exp < 63,
            p == pow2(k as nat),
            1 <= p,
        decreases exp - k,
    {
        proof {
            lemma_pow2_bound(k as nat);
        }
        p = p * 2;
        k = k + 1;
    }
    p
}

proof fn lemma_pow2_monotone(a: nat, b: nat)
    requires
        a <= b,
    ensures
        pow2(a) <= pow2(b),
    decreases b,
{
    if a < b {
        lemma_pow2_monotone(a, (b - 1) as nat);
    }
}

proof fn lemma_pow2_bound(k: nat)
    requires
        k < 62,
    ensures
        2 * pow2(k) <= 0x4000_0000_0000_0000,
        pow2(k) >= 1,
        pow2(k + 1) == 2 * pow2(k),
{
    reveal_with_fuel(pow2, 63);
    assert(pow2(62) == 0x4000_0000_0000_0000);
    lemma_pow2_monotone(k + 1, 62);
    lemma_pow2_monotone(0, k);
}

/// The delay before jitter for a strategy, attempt and base delay.
pub fn raw_delay_ms(attempt: i32, backoff: &str, base_delay_ms: i32) -> (r: i64)
    requires
        delay_inputs_ok(attempt as int, backoff@),
    ensures
        r == raw_delay(attempt as int, backoff@, base_delay_ms as int),
{
    if str_eq(backoff, "linear") {
        assert((base_delay_ms as int) * (attempt as int) <= 0x4000_0000_0000_0000) by (nonlinear_arith)
            requires
                i32::MIN <= base_delay_ms <= i32::MAX,
                i32::MIN <= attempt <= i32::MAX,
        ;
        assert((base_delay_ms as int) * (attempt as int) >= -0x4000_0000_0000_0000) by (nonlinear_arith)
            requires
                i32::MIN <= base_delay_ms <= i32::MAX,
                i32::MIN <= attempt <= i32::MAX,
        ;
        (base_delay_ms as i64) * (attempt as i64)
    } else if str_eq(backoff, "fixed") {
        base_delay_ms as i64
    } else {
        let e: i32 = attempt - 1;
        let exp: u32 = if e > 0 { e as u32 } else { 0 };
        assert(exp as nat == exponent(attempt as int));
        let p = saturating_pow2(exp);
        assert((base_delay_ms as int) * (p as int) <= 0x8000_0000 * 0x8000_0000_0000_0000) by (nonlinear_arith)
            requires
                i32::MIN <= base_delay_ms <= i32::MAX,
                1 <= p <= i64::MAX,
        ;
        assert((base_delay_ms as int) * (p as int) >= -0x8000_0000 * 0x8000_0000_0000_0000) by (nonlinear_arith)
            requires
                i32::MIN <= base_delay_ms <= i32::MAX,
                1 <= p <= i64::MAX,
        ;
        let wide: i128 = (base_delay_ms as i128) * (p as i128);
        if wide > (i64::MAX as i128) {
            i64::MAX
        } else if wide < (i64::MIN as i128) {
            i64::MIN
        } else {
            wide as i64
        }
    }
}

/// The delay for a given jitter draw: the raw delay scaled by
/// `1 + jitter_ppm / 10^6`, rounded toward zero, capped at `max_delay_ms`
/// and floored at zero.
pub fn delay_for_jitter(attempt: i32, backoff: &str, base_delay_ms: i32, max_delay_ms: i32, jitter_ppm: i64) -> (r: i64)
    requires
        delay_inputs_ok(attempt as int, backoff@),
        jitter_in_range(jitter_ppm as int),
    ensures
        r == delay_spec(attempt as int, backoff@, base_delay_ms as int, max_delay_ms as int, jitter_ppm as int),
        0 <= r,
        r <= max_delay_ms || r == 0,
{
    let raw = raw_delay_ms(attempt, backoff, base_delay_ms);
    let factor: i128 = (PPM as i128) + (jitter_ppm as i128);
    assert(0 < factor < 2 * PPM);
    assert((raw as int) * (factor as int) <= 0x8000_0000_0000_0000 * 2_000_000) by (nonlinear_arith)
        requires
            i64::MIN <= raw <= i64::MAX,
            0 < factor < 2_000_000,
    ;
    assert((raw as int) * (factor as int) >= -0x8000_0000_0000_0000 * 2_000_000) by (nonlinear_arith)
        requires
            i64::MIN <= raw <= i64::MAX,
            0 < factor < 2_000_000,
    ;
    let product: i128 = (raw as i128) * factor;
    let with_jitter: i128 = if product >= 0 {
        product / (PPM as i128)
    } else {
        let q: i128 = (0i128 - product) / (PPM as i128);
        0i128 - q
    };
    assert(with_jitter == jittered(raw as int, jitter_ppm as int));
    let m: i128 = if with_jitter < (max_delay_ms as i128) { with_jitter } else { max_delay_ms as i128 };
    if m < 0 {
        0
    } else {
        m as i64
    }
}

/// Draws a number from rand's thread-local generator: `Rng::gen_range` on
/// the half-open range `lo..hi`, which its documentation says the result
/// lies in (and which must not be empty, or it panics). Which number comes
/// out is chance, so nothing more is stated.
#[verifier::external_body]
fn draw_in_range(lo: i64, hi: i64) -> (r: i64)
    requires
        lo < hi,
    ensures
        lo <= r < hi,
{
    rand::thread_rng().gen_range(lo..hi)
}

/// Computes the delay in milliseconds before a failed job is retried: the
/// strategy's raw delay ("linear": `base * attempt`, "fixed": `base`, any
/// other name: `base * 2^(attempt-1)`), with up to 30% random jitter either
/// way, capped at `max_delay_ms` and never negative.
pub fn compute_delay_ms(attempt: i32, backoff: &str, base_delay_ms: i32, max_delay_ms: i32) -> (r: i64)
    requires
        delay_inputs_ok(attempt as int, backoff@),
    ensures
        exists|j: int| jitter_in_range(j)
            && r == delay_spec(attempt as int, backoff@, base_delay_ms as int, max_delay_ms as int, j),
        0 <= r,
        r <= max_delay_ms || r == 0,
{
    let j = draw_in_range(-JITTER_SPAN_PPM, JITTER_SPAN_PPM);
    delay_for_jitter(attempt, backoff, base_delay_ms, max_delay_ms, j)
}

/// Every retry delay lies between zero and the cap (or is zero when the cap
/// is not positive), whatever the strategy, attempt and jitter.
pub proof fn delay_is_bounded(attempt: int, backoff: Seq<char>, base: int, max_delay: int, j: int)
    ensures
        0 <= delay_spec(attempt, backoff, base, max_delay, j),
        delay_spec(attempt, backoff, base, max_delay, j) <= max_delay
            || delay_spec(attempt, backoff, base, max_delay, j) == 0,
{
}

/// Jitter moves a non-negative raw delay by at most 30% either way: the
/// jittered delay `d` satisfies `7 * raw - 10 < 10 * d <= 13 * raw`.
pub proof fn jitter_within_thirty_percent(raw: int, j: int)
    requires
        raw >= 0,
        jitter_in_range(j),
    ensures
        10 * jittered(raw, j) <= 13 * raw,
        10 * jittered(raw, j) > 7 * raw - 10,
{
    let p = raw * (PPM + j);
    assert(p >= 0) by (nonlinear_arith)
        requires raw >= 0, PPM + j > 0, p == raw * (PPM + j);
    assert(p * 10 <= raw * 13 * PPM) by (nonlinear_arith)
        requires raw >= 0, p == raw * (PPM + j), j < JITTER_SPAN_PPM, PPM == 1_000_000, JITTER_SPAN_PPM == 300_000;
    assert(p * 10 >= raw * 7 * PPM) by (nonlinear_arith)
        requires raw >= 0, p == raw * (PPM + j), j >= -JITTER_SPAN_PPM, PPM == 1_000_000, JITTER_SPAN_PPM == 300_000;
    let q = p / (PPM as int);
    assert(q * PPM <= p < q * PPM + PPM);
    assert(10 * q <= 13 * raw) by (nonlinear_arith)
        requires q * 1_000_000 <= p, p * 10 <= raw * 13 * 1_000_000;
    assert(10 * q > 7 * raw - 10) by (nonlinear_arith)
        requires p < q * 1_000_000 + 1_000_000, p * 10 >= raw * 7 * 1_000_000;
}

/// Without jitter, a raw delay inside `[0, max_delay]` is used as it is: the
/// documented formulas hold exactly.
pub proof fn no_jitter_keeps_raw_delay(attempt: int, backoff: Seq<char>, base: int, max_delay: int)
    requires
        0 <= raw_delay(attempt, backoff, base) <= max_delay,
    ensures
        delay_spec(attempt, backoff, base, max_delay, 0) == raw_delay(attempt, backoff, base),
{
    let raw = raw_delay(attempt, backoff, base);
    assert(raw * (PPM + 0) == raw * PPM);
    assert((raw * PPM) / (PPM as int) == raw) by (nonlinear_arith)
        requires PPM == 1_000_000;
}

/// The exponential strategy waits the base delay times two to the power
/// `attempt - 1`: for a first or later attempt and a non-negative base,
/// whenever `base * 2^(attempt - 1)` fits in an `i64`, that is exactly the
/// delay before jitter; the power saturates only where the `i64` would
/// overflow.
pub proof fn exponential_delay_is_base_times_power_of_two(attempt: int, backoff: Seq<char>, base: int)
    requires
        !is_linear(backoff),
        !is_fixed(backoff),
        attempt >= 1,
        base >= 0,
        base * pow2((attempt - 1) as nat) <= i64::MAX,
    ensures
        raw_delay(attempt, backoff, base) == base * pow2((attempt - 1) as nat),
{
    let e = (attempt - 1) as nat;
    assert(exponent(attempt) == e);
    if base > 0 && e >= 63 {
        reveal_with_fuel(pow2, 64);
        assert(pow2(63) == 0x8000_0000_0000_0000);
        lemma_pow2_monotone(63, e);
        assert(base * pow2(e) >= pow2(e)) by (nonlinear_arith)
            requires base >= 1;
        assert(false);
    }
    if base == 0 {
        assert(base * sat_pow2(e) == 0);
        assert(base * pow2(e) == 0);
    }
}

/// Each further attempt of the exponential strategy doubles the delay
/// before jitter, as long as the doubled delay fits in an `i64`.
pub proof fn exponential_delay_doubles_per_attempt(attempt: int, backoff: Seq<char>, base: int)
    requires
        !is_linear(backoff),
        !is_fixed(backoff),
        attempt >= 1,
        base >= 0,
        base * pow2(attempt as nat) <= i64::MAX,
    ensures
        raw_delay(attempt + 1, backoff, base) == 2 * raw_delay(attempt, backoff, base),
{
    let e = (attempt - 1) as nat;
    assert(pow2(attempt as nat) == 2 * pow2(e));
    assert(base * pow2(attempt as nat) == 2 * (base * pow2(e))) by (nonlinear_arith)
        requires pow2(attempt as nat) == 2 * pow2(e);
    assert(base * pow2(e) >= 0) by (nonlinear_arith)
        requires base >= 0;
    exponential_delay_is_base_times_power_of_two(attempt, backoff, base);
    exponential_delay_is_base_times_power_of_two(attempt + 1, backoff, base);
}

/// Whatever the strategy, the first attempt waits exactly the base delay
/// before jitter.
pub proof fn first_attempt_waits_base_delay(backoff: Seq<char>, base: int)
    requires
        i64::MIN <= base <= i64::MAX,
    ensures
        raw_delay(1, backoff, base) == base,
{
    assert(exponent(1) == 0);
    assert(pow2(0) == 1);
}

/// The linear strategy adds the base delay with each further attempt, and
/// the fixed strategy waits the same delay on every attempt.
pub proof fn linear_adds_base_and_fixed_stays(attempt: int, base: int)
    ensures
        raw_delay(attempt + 1, "linear"@, base) == raw_delay(attempt, "linear"@, base) + base,
        raw_delay(attempt + 1, "fixed"@, base) == raw_delay(attempt, "fixed"@, base),
{
    reveal_strlit("linear");
    reveal_strlit("fixed");
    assert("linear"@ != "fixed"@) by {
        assert("linear"@.len() != "fixed"@.len());
    }
    assert(base * (attempt + 1) == base * attempt + base) by (nonlinear_arith);
}

} // verus!
