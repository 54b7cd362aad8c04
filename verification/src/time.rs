//! Points in time and spans of time.
//!
//! Both are fixed-point counts of nanoseconds with 32 fractional bits, so one
//! unit is 2^-32 ns. Local clocks and wire formats alike convert to this unit
//! without loss.

use vstd::arithmetic::power2::pow2;
use vstd::prelude::*;

verus! {

/// Units in one nanosecond.
pub const UNITS_PER_NANO: i128 = 0x1_0000_0000;

/// Units in one second.
pub const UNITS_PER_SECOND: i128 = 4_294_967_296_000_000_000;

/// One tenth of a nanosecond, to the nearest unit.
pub const TENTH_NANO: i128 = 429_496_730;

/// The largest log interval whose span still fits a [`Duration`].
pub const MAX_LOG_INTERVAL: i8 = 65;

/// The furthest a local clock reading may lie from the epoch: 2^122 units,
/// which is 2^90 ns. Sums and differences of a few such readings with times
/// taken from messages stay inside 128 bits.
pub const LOCAL_LIMIT: i128 = 0x400_0000_0000_0000_0000_0000_0000_0000;

/// A span of time, possibly negative.
#[derive(Clone, Copy, PartialEq, Eq, Structural, Debug)]
pub struct Duration {
    pub units: i128,
}

/// A point in time, counted from the epoch of the clock that gave it.
#[derive(Clone, Copy, PartialEq, Eq, Structural, Debug)]
pub struct Instant {
    pub units: i128,
}

/// The name that socket and clock code use for an [`Instant`].
pub type Time = Instant;

impl View for Duration {
    type V = int;

    open spec fn view(&self) -> int {
        self.units as int
    }
}

impl View for Instant {
    type V = int;

    open spec fn view(&self) -> int {
        self.units as int
    }
}

/// Whether a number of units fits the machine representation.
pub open spec fn fits(units: int) -> bool {
    i128::MIN <= units <= i128::MAX
}

/// Half of a span, rounded towards zero.
pub open spec fn half(span: int) -> int {
    if span >= 0 {
        span / 2
    } else {
        -((-span) / 2)
    }
}

/// The quotient `n / d` rounded to the nearest integer, and to the even one of
/// two integers that are equally near.
pub open spec fn nearest(n: int, d: int) -> int {
    let q = n / d;
    let r = n % d;
    if 2 * r < d || (2 * r == d && q % 2 == 0) {
        q
    } else {
        q + 1
    }
}

/// 2^`log` seconds in units, to the nearest unit.
pub open spec fn log_interval_units(log: int) -> int {
    if log >= 0 {
        UNITS_PER_SECOND * pow2(log as nat)
    } else {
        nearest(UNITS_PER_SECOND as int, pow2((-log) as nat) as int)
    }
}

proof fn lemma_pow2_at_most(n: nat)
    requires
        n <= 65,
    ensures
        0 < pow2(n) <= 0x2_0000_0000_0000_0000,
{
    vstd::arithmetic::power2::lemma2_to64();
    vstd::arithmetic::power2::lemma2_to64_rest();
    vstd::arithmetic::power2::lemma_pow2_unfold(65);
    vstd::arithmetic::power2::lemma_pow2_pos(n);
    if n < 65 {
        vstd::arithmetic::power2::lemma_pow2_strictly_increases(n, 65);
    }
}

impl Duration {
    /// The span of 2^`log_interval` seconds.
    pub fn from_log_interval(log_interval: i8) -> (span: Duration)
        requires
            log_interval <= MAX_LOG_INTERVAL,
        ensures
            span@ == log_interval_units(log_interval as int),
    {
        if log_interval >= 0 {
            let mut units: i128 = UNITS_PER_SECOND;
            let mut i: i8 = 0;
            proof {
                vstd::arithmetic::power2::lemma2_to64();
            }
            while i < log_interval
                invariant
                    0 <= i <= log_interval <= 65,
                    units == UNITS_PER_SECOND * pow2(i as nat),
                decreases log_interval - i,
            {
                proof {
                    lemma_pow2_at_most((i + 1) as nat);
                    vstd::arithmetic::power2::lemma_pow2_unfold((i + 1) as nat);
                }
                units = units * 2;
                i = i + 1;
            }
            Duration { units }
        } else if log_interval < -63 {
            proof {
                let d = pow2((-log_interval) as nat) as int;
                vstd::arithmetic::power2::lemma2_to64_rest();
                vstd::arithmetic::power2::lemma_pow2_strictly_increases(
                    63,
                    (-log_interval) as nat,
                );
                vstd::arithmetic::div_mod::lemma_small_mod(UNITS_PER_SECOND as nat, d as nat);
                vstd::arithmetic::div_mod::lemma_basic_div(UNITS_PER_SECOND as int, d);
            }
            Duration { units: 0 }
        } else {
            let mut d: i128 = 1;
            let mut i: i8 = 0;
            proof {
                vstd::arithmetic::power2::lemma2_to64();
            }
            while i > log_interval
                invariant
                    -63 <= log_interval <= i <= 0,
                    d == pow2((-i) as nat),
                decreases i - log_interval,
            {
                proof {
                    lemma_pow2_at_most((1 - i) as nat);
                    vstd::arithmetic::power2::lemma_pow2_unfold((1 - i) as nat);
                }
                d = d * 2;
                i = i - 1;
            }
            proof {
                lemma_pow2_at_most((-log_interval) as nat);
            }
            let q: i128 = UNITS_PER_SECOND / d;
            let r: i128 = UNITS_PER_SECOND % d;
            if 2 * r < d || (2 * r == d && q % 2 == 0) {
                Duration { units: q }
            } else {
                Duration { units: q + 1 }
            }
        }
    }

    /// The sum of two spans.
    pub fn plus(self, other: Duration) -> (sum: Duration)
        requires
            fits(self@ + other@),
        ensures
            sum@ == self@ + other@,
    {
        Duration { units: self.units + other.units }
    }

    /// The difference of two spans.
    pub fn minus(self, other: Duration) -> (difference: Duration)
        requires
            fits(self@ - other@),
        ensures
            difference@ == self@ - other@,
    {
        Duration { units: self.units - other.units }
    }

    /// The same span in the other direction.
    pub fn negated(self) -> (opposite: Duration)
        requires
            fits(-self@),
        ensures
            opposite@ == -self@,
    {
        Duration { units: -self.units }
    }

    /// Half of this span, rounded towards zero.
    pub fn halved(self) -> (part: Duration)
        ensures
            part@ == half(self@),
    {
        Duration { units: self.units / 2 }
    }
}

impl Instant {
    /// Whether a reading of a local clock lies close enough to the epoch.
    pub open spec fn is_local(self) -> bool {
        -LOCAL_LIMIT <= self@ <= LOCAL_LIMIT
    }

    /// The executable form of [`Instant::is_local`].
    pub fn check_local(self) -> (local: bool)
        ensures
            local == self.is_local(),
    {
        -LOCAL_LIMIT <= self.units && self.units <= LOCAL_LIMIT
    }

    /// The instant that lies `span` later.
    pub fn plus(self, span: Duration) -> (later: Instant)
        requires
            fits(self@ + span@),
        ensures
            later@ == self@ + span@,
    {
        Instant { units: self.units + span.units }
    }

    /// The instant that lies `span` earlier.
    pub fn minus(self, span: Duration) -> (earlier: Instant)
        requires
            fits(self@ - span@),
        ensures
            earlier@ == self@ - span@,
    {
        Instant { units: self.units - span.units }
    }

    /// The span from `start` to this instant.
    pub fn since(self, start: Instant) -> (span: Duration)
        requires
            fits(self@ - start@),
        ensures
            span@ == self@ - start@,
    {
        Duration { units: self.units - start.units }
    }
}

impl Default for Instant {
    fn default() -> (epoch: Instant)
        ensures
            epoch@ == 0,
    {
        Instant { units: 0 }
    }
}

/// Spans and instants count units, one for one; a nanosecond has 2^32 of them, and
/// a reading is local up to 2^122 of them from the epoch.
pub proof fn law_units(span: Duration, instant: Instant)
    ensures
        span@ == span.units,
        instant@ == instant.units,
        instant.is_local() <==> -5_316_911_983_139_663_491_615_228_241_121_378_304 <= instant.units
            <= 5_316_911_983_139_663_491_615_228_241_121_378_304,
{
}

/// What can be computed is what 128 bits with a sign hold.
pub proof fn law_fits(units: int)
    ensures
        fits(units) <==> -170_141_183_460_469_231_731_687_303_715_884_105_728 <= units
            <= 170_141_183_460_469_231_731_687_303_715_884_105_727,
{
}

/// Twice the half of a span is the span, or falls short of it by one unit, on the
/// side of zero.
pub proof fn law_half(span: int)
    ensures
        span >= 0 ==> 0 <= span - 2 * half(span) <= 1,
        span <= 0 ==> -1 <= span - 2 * half(span) <= 0,
        half(-span) == -half(span),
{
}

/// From one second on, each log interval is twice the one before it.
pub proof fn law_log_intervals_double(log: int)
    requires
        log >= 0,
    ensures
        log_interval_units(0) == 4_294_967_296_000_000_000,
        log_interval_units(log + 1) == 2 * log_interval_units(log),
{
    vstd::arithmetic::power2::lemma2_to64();
    vstd::arithmetic::power2::lemma_pow2_unfold((log + 1) as nat);
    let n = pow2(log as nat) as int;
    assert(UNITS_PER_SECOND * (2 * n) == 2 * (UNITS_PER_SECOND * n)) by (nonlinear_arith);
}

/// Below one second, 2^-`log` times a log interval comes as close to a second as
/// whole units allow, and of two that come equally close it is the even one.
pub proof fn law_short_log_intervals(log: int)
    requires
        log < 0,
    ensures
        ({
            let parts = pow2((-log) as nat) as int;
            let units = log_interval_units(log);
            let error = units * parts - 4_294_967_296_000_000_000;
            &&& -parts <= 2 * error <= parts
            &&& (2 * error == parts || 2 * error == -parts) ==> units % 2 == 0
        }),
{
    let d = pow2((-log) as nat) as int;
    let n = UNITS_PER_SECOND as int;
    vstd::arithmetic::power2::lemma_pow2_pos((-log) as nat);
    vstd::arithmetic::div_mod::lemma_fundamental_div_mod(n, d);
    vstd::arithmetic::div_mod::lemma_mod_bound(n, d);
    let q = n / d;
    assert(d * q == q * d) by (nonlinear_arith);
    assert((q + 1) * d == q * d + d) by (nonlinear_arith);
}

} // verus!
