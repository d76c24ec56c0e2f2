//! Exact arithmetic on presentation times and tick instants.
//!
//! Tick `k` of a queue that runs at `num / den` frames per second is presented
//! at `k * den / num` seconds. A frame belongs to tick `k` when its
//! presentation time lies within half a tick period of that instant. All
//! comparisons are made on cross-multiplied integers, so nothing is rounded.

use crate::types::Framerate;
use vstd::arithmetic::div_mod::lemma_fundamental_div_mod;
use vstd::arithmetic::div_mod::lemma_mod_bound;
use vstd::prelude::*;

verus! {

/// The last tick index that the queue can reach; it keeps every product below
/// within 128 bits.
pub const MAX_TICK: u64 = 0x3FFF_FFFF_FFFF_FFFF;

/// Nanoseconds in a second.
pub const NANOS_PER_SECOND: u64 = 1_000_000_000;

/// A presentation time: the rational `num / den` seconds.
#[derive(Debug, Clone, Copy, PartialEq, Eq, Structural)]
pub struct Pts {
    pub num: i64,
    pub den: u32,
}

impl Pts {
    /// A presentation time needs a denominator.
    pub open spec fn is_valid(self) -> bool {
        self.den > 0
    }

    pub fn check_valid(&self) -> (valid: bool)
        ensures
            valid == self.is_valid(),
    {
        self.den > 0
    }

    /// `self` is not earlier than `other`.
    pub open spec fn at_or_after(self, other: Pts) -> bool {
        self.num * other.den >= other.num * self.den
    }

    /// Decides [`Pts::at_or_after`].
    pub fn is_at_or_after(&self, other: &Pts) -> (later: bool)
        ensures
            later == self.at_or_after(*other),
    {
        scale(self.num as i128, other.den as u64) >= scale(other.num as i128, self.den as u64)
    }
}

/// Presentation time of a tick: the rational `num / den` seconds, with
/// `num = tick * framerate.den` and `den = framerate.num`.
#[derive(Debug, Clone, Copy, PartialEq, Eq, Structural)]
pub struct TickPts {
    pub num: u128,
    pub den: u32,
}

/// Presentation time of tick `tick` at `framerate`.
pub open spec fn tick_pts(tick: nat, framerate: Framerate) -> TickPts {
    TickPts { num: (tick * framerate.den) as u128, den: framerate.num }
}

/// `pts` is no later than the end of the window of tick `tick`, which is half
/// a period after the tick's instant.
pub open spec fn not_after_window(pts: Pts, tick: int, framerate: Framerate) -> bool {
    2 * framerate.num * pts.num <= (2 * tick + 1) * (framerate.den * pts.den)
}

/// `pts` is no earlier than the start of the window of tick `tick`, which is
/// half a period before the tick's instant.
pub open spec fn not_before_window(pts: Pts, tick: int, framerate: Framerate) -> bool {
    2 * framerate.num * pts.num >= (2 * tick - 1) * (framerate.den * pts.den)
}

/// `pts` lies in the window of tick `tick`, both ends included.
pub open spec fn in_window(pts: Pts, tick: int, framerate: Framerate) -> bool {
    not_before_window(pts, tick, framerate) && not_after_window(pts, tick, framerate)
}

/// At wall-clock time `now` the instant of tick `tick` has come, for a queue
/// started at `started_at` (both in nanoseconds).
pub open spec fn tick_is_due(now: int, started_at: int, tick: int, framerate: Framerate) -> bool {
    now >= started_at && (now - started_at) * framerate.num >= tick * (framerate.den
        * NANOS_PER_SECOND)
}

/// At wall-clock time `now` tick `tick` is late by at least `timeout`
/// nanoseconds.
pub open spec fn tick_is_overdue(
    now: int,
    started_at: int,
    tick: int,
    framerate: Framerate,
    timeout: int,
) -> bool {
    now >= started_at + timeout && (now - started_at - timeout) * framerate.num >= tick * (
    framerate.den * NANOS_PER_SECOND)
}

/// `at` is the instant of tick `tick`: the first wall-clock time at which
/// the tick is due.
pub open spec fn is_instant_of_tick(
    at: int,
    started_at: int,
    tick: int,
    framerate: Framerate,
) -> bool {
    &&& tick_is_due(at, started_at, tick, framerate)
    &&& forall|earlier: int|
        earlier < at ==> !#[trigger] tick_is_due(earlier, started_at, tick, framerate)
}

/// An input last heard of at `last_seen` has been silent for longer than
/// `timeout` at `now`.
pub open spec fn silent_for_longer(now: int, last_seen: int, timeout: int) -> bool {
    now - last_seen > timeout
}

proof fn lemma_product_range(a: int, b: int, bound_a: int, bound_b: int)
    requires
        -bound_a <= a <= bound_a,
        0 <= b <= bound_b,
    ensures
        -(bound_a * bound_b) <= a * b <= bound_a * bound_b,
{
    assert(a * b <= bound_a * bound_b) by (nonlinear_arith)
        requires
            -bound_a <= a <= bound_a,
            0 <= b <= bound_b,
    ;
    assert(-(bound_a * bound_b) <= a * b) by (nonlinear_arith)
        requires
            -bound_a <= a <= bound_a,
            0 <= b <= bound_b,
    ;
}

/// `a * b`, for a factor `a` of at most 64 bits.
fn scale(a: i128, b: u64) -> (product: i128)
    requires
        -0x8000_0000_0000_0000 <= a <= 0x8000_0000_0000_0000,
    ensures
        product == a * b,
{
    proof {
        lemma_product_range(a as int, b as int, 0x8000_0000_0000_0000, 0xFFFF_FFFF_FFFF_FFFF);
        assert(0x8000_0000_0000_0000int * 0xFFFF_FFFF_FFFF_FFFFint
            == 0x7FFF_FFFF_FFFF_FFFF_8000_0000_0000_0000int);
    }
    a * (b as i128)
}

/// `a * b` without loss.
fn widen(a: u64, b: u64) -> (product: u128)
    ensures
        product == a * b,
{
    proof {
        lemma_product_range(a as int, b as int, 0xFFFF_FFFF_FFFF_FFFF, 0xFFFF_FFFF_FFFF_FFFF);
        assert(0xFFFF_FFFF_FFFF_FFFFint * 0xFFFF_FFFF_FFFF_FFFFint
            == 0xFFFF_FFFF_FFFF_FFFE_0000_0000_0000_0001int);
    }
    (a as u128) * (b as u128)
}

/// `a * b` for two factors of 32 bits.
fn times(a: u32, b: u32) -> (product: u64)
    ensures
        product == a * b,
{
    proof {
        lemma_product_range(a as int, b as int, 0xFFFF_FFFF, 0xFFFF_FFFF);
        assert(0xFFFF_FFFFint * 0xFFFF_FFFFint == 0xFFFF_FFFE_0000_0001int);
    }
    (a as u64) * (b as u64)
}

/// Decides [`not_after_window`].
pub fn is_not_after_window(pts: &Pts, tick: u64, framerate: &Framerate) -> (holds: bool)
    requires
        tick <= MAX_TICK,
    ensures
        holds == not_after_window(*pts, tick as int, *framerate),
{
    let left: i128 = scale(pts.num as i128, 2 * (framerate.num as u64));
    let right: i128 = scale(2 * (tick as i128) + 1, times(framerate.den, pts.den));
    assert(left == 2 * framerate.num * pts.num) by (nonlinear_arith)
        requires
            left == pts.num * (2 * framerate.num),
    ;
    left <= right
}

/// Decides [`not_before_window`].
pub fn is_not_before_window(pts: &Pts, tick: u64, framerate: &Framerate) -> (holds: bool)
    requires
        tick <= MAX_TICK,
    ensures
        holds == not_before_window(*pts, tick as int, *framerate),
{
    let left: i128 = scale(pts.num as i128, 2 * (framerate.num as u64));
    let right: i128 = scale(2 * (tick as i128) - 1, times(framerate.den, pts.den));
    assert(left == 2 * framerate.num * pts.num) by (nonlinear_arith)
        requires
            left == pts.num * (2 * framerate.num),
    ;
    left >= right
}

/// Decides [`in_window`].
pub fn is_in_window(pts: &Pts, tick: u64, framerate: &Framerate) -> (holds: bool)
    requires
        tick <= MAX_TICK,
    ensures
        holds == in_window(*pts, tick as int, *framerate),
{
    is_not_before_window(pts, tick, framerate) && is_not_after_window(pts, tick, framerate)
}

/// Decides [`tick_is_due`].
pub fn is_tick_due(now: u64, started_at: u64, tick: u64, framerate: &Framerate) -> (due: bool)
    requires
        tick <= MAX_TICK,
    ensures
        due == tick_is_due(now as int, started_at as int, tick as int, *framerate),
{
    if now < started_at {
        return false;
    }
    let elapsed: u128 = widen(now - started_at, framerate.num as u64);
    let needed: u128 = widen(tick, times(framerate.den, NANOS_PER_SECOND as u32));
    elapsed >= needed
}

/// Decides [`tick_is_overdue`].
pub fn is_tick_overdue(
    now: u64,
    started_at: u64,
    tick: u64,
    framerate: &Framerate,
    timeout: u64,
) -> (overdue: bool)
    requires
        tick <= MAX_TICK,
    ensures
        overdue == tick_is_overdue(
            now as int,
            started_at as int,
            tick as int,
            *framerate,
            timeout as int,
        ),
{
    if now < started_at || now - started_at < timeout {
        return false;
    }
    let elapsed: u128 = widen(now - started_at - timeout, framerate.num as u64);
    let needed: u128 = widen(tick, times(framerate.den, NANOS_PER_SECOND as u32));
    elapsed >= needed
}

proof fn lemma_too_early(elapsed: int, wait: int, rate: int, needed: int)
    requires
        rate > 0,
        elapsed < wait,
        (wait - 1) * rate < needed,
    ensures
        elapsed * rate < needed,
{
    assert(elapsed * rate <= (wait - 1) * rate) by (nonlinear_arith)
        requires
            elapsed <= wait - 1,
            rate > 0,
    ;
}

/// The instant of tick `tick`, where the clock reaches it: the wall-clock
/// time, rounded up to the nanosecond, that lies `tick * den / num` seconds
/// after the start.
pub fn instant_of_tick(started_at: u64, tick: u64, framerate: &Framerate) -> (instant: Option<u64>)
    requires
        tick <= MAX_TICK,
        framerate.is_valid(),
    ensures
        match instant {
            Some(at) => is_instant_of_tick(at as int, started_at as int, tick as int, *framerate),
            None => forall|at: int|
                at <= u64::MAX ==> !#[trigger] tick_is_due(
                    at,
                    started_at as int,
                    tick as int,
                    *framerate,
                ),
        },
{
    let needed: u128 = widen(tick, times(framerate.den, NANOS_PER_SECOND as u32));
    let rate: u128 = framerate.num as u128;
    let whole: u128 = needed / rate;
    let rest: u128 = needed % rate;
    proof {
        lemma_fundamental_div_mod(needed as int, rate as int);
        lemma_mod_bound(needed as int, rate as int);
        assert(needed == rate * whole + rest);
        assert(whole <= needed) by (nonlinear_arith)
            requires
                needed == rate * whole + rest,
                rate >= 1,
                rest >= 0,
                whole >= 0,
        ;
        assert(needed <= 0x3FFF_FFFF_FFFF_FFFF * 0xFFFF_FFFF_FFFF_FFFF) by (nonlinear_arith)
            requires
                needed == tick * (framerate.den * NANOS_PER_SECOND),
                tick <= 0x3FFF_FFFF_FFFF_FFFF,
                framerate.den * NANOS_PER_SECOND <= 0xFFFF_FFFF_FFFF_FFFF,
        ;
    }
    let wait: u128 = if rest == 0 {
        whole
    } else {
        whole + 1
    };
    assert(wait * rate >= needed) by (nonlinear_arith)
        requires
            needed == rate * whole + rest,
            rest < rate,
            wait == if rest == 0 {
                whole
            } else {
                (whole + 1) as u128
            },
    ;
    assert((wait - 1) * rate < needed) by (nonlinear_arith)
        requires
            needed == rate * whole + rest,
            0 <= rest < rate,
            wait == if rest == 0 {
                whole
            } else {
                (whole + 1) as u128
            },
    ;
    if wait > (u64::MAX - started_at) as u128 {
        assert forall|at: int| at <= u64::MAX implies !#[trigger] tick_is_due(
            at,
            started_at as int,
            tick as int,
            *framerate,
        ) by {
            if at >= started_at {
                lemma_too_early(at - started_at, wait as int, rate as int, needed as int);
            }
        }
        return None;
    }
    let at: u64 = started_at + wait as u64;
    assert forall|earlier: int| earlier < at implies !#[trigger] tick_is_due(
        earlier,
        started_at as int,
        tick as int,
        *framerate,
    ) by {
        if earlier >= started_at {
            lemma_too_early(earlier - started_at, wait as int, rate as int, needed as int);
        }
    }
    Some(at)
}

/// Decides [`silent_for_longer`].
pub fn is_silent_for_longer(now: u64, last_seen: u64, timeout: u64) -> (silent: bool)
    ensures
        silent == silent_for_longer(now as int, last_seen as int, timeout as int),
{
    now > last_seen && now - last_seen > timeout
}

/// Presentation time of tick `tick`.
pub fn pts_of_tick(tick: u64, framerate: &Framerate) -> (pts: TickPts)
    ensures
        pts == tick_pts(tick as nat, *framerate),
{
    TickPts { num: widen(tick, framerate.den as u64), den: framerate.num }
}

} // verus!
