//! Cursor jitter: small random moves of the cursor around an anchor point,
//! paused for a while when the user moves the cursor by hand.
//!
//! Time is counted in nanoseconds on a monotonic clock.

use vstd::prelude::*;
use crate::worker::ClickRate;

verus! {

#[verifier::external_type_specification]
#[verifier::external_body]
pub struct ExRng(fastrand::Rng);

/// `fastrand::Rng::new`: a generator seeded from the thread-local one.
/// Nothing is stated of its state.
#[verifier::external_body]
fn new_rng() -> fastrand::Rng {
    fastrand::Rng::new()
}

/// `fastrand::Rng::i32` on the range `low..=high`: the crate draws
/// `low + (n mod (high - low + 1))`, so the result lies in the range. Which
/// number comes out depends on the generator's state and is not stated.
#[verifier::external_body]
fn random_in_range(rng: &mut fastrand::Rng, low: i32, high: i32) -> (r: i32)
    requires
        low <= high,
    ensures
        low <= r <= high,
{
    rng.i32(low..=high)
}

/// A point on the screen.
#[derive(Clone, Copy, Debug, PartialEq, Eq, Structural)]
pub struct ScreenPoint {
    pub x: i32,
    pub y: i32,
}

/// The widest jitter radius of any rate.
pub const MAX_JITTER_RADIUS: i32 = 6;

/// How long the jitter pauses after the cursor was moved by hand.
pub const MANUAL_MOVE_PAUSE_NS: u64 = 700_000_000;

/// How long the jitter waits when the cursor position cannot be read.
pub const CURSOR_RETRY_NS: u64 = 100_000_000;

/// The longest span that is added to a clock reading.
pub const LONGEST_SPAN_NS: u64 = 1_000_000_000;

/// A coordinate far enough from the ends of `i32` for a jitter offset.
pub open spec fn safe_coordinate(v: i32) -> bool {
    i32::MIN + MAX_JITTER_RADIUS <= v <= i32::MAX - MAX_JITTER_RADIUS
}

pub open spec fn safe_point(p: ScreenPoint) -> bool {
    safe_coordinate(p.x) && safe_coordinate(p.y)
}

/// Whether a point leaves room for a jitter offset.
pub fn is_safe_point(p: ScreenPoint) -> (r: bool)
    ensures
        r == safe_point(p),
{
    let lo = i32::MIN + MAX_JITTER_RADIUS;
    let hi = i32::MAX - MAX_JITTER_RADIUS;
    lo <= p.x && p.x <= hi && lo <= p.y && p.y <= hi
}

/// Milliseconds between jitter moves at each rate.
pub open spec fn interval_ms(rate: ClickRate) -> u64 {
    match rate {
        ClickRate::Slow => 180,
        ClickRate::Normal => 125,
        ClickRate::Fast => 95,
        ClickRate::Rapid => 78,
        ClickRate::Turbo => 64,
        ClickRate::Extreme => 50,
        ClickRate::Maximum => 42,
        ClickRate::Fps => 85,
    }
}

/// How far the cursor may stray from its anchor at each rate.
pub open spec fn radius(rate: ClickRate) -> i32 {
    match rate {
        ClickRate::Slow => 1,
        ClickRate::Normal => 2,
        ClickRate::Fast => 2,
        ClickRate::Rapid => 3,
        ClickRate::Turbo => 4,
        ClickRate::Extreme => 5,
        ClickRate::Maximum => 6,
        ClickRate::Fps => 3,
    }
}

/// `abs` of an integer.
pub open spec fn abs(v: int) -> int {
    if v < 0 {
        -v
    } else {
        v
    }
}

/// The Chebyshev distance of two points: the larger of the two coordinate
/// differences.
pub open spec fn distance(a: ScreenPoint, b: ScreenPoint) -> int {
    let dx = abs(a.x - b.x);
    let dy = abs(a.y - b.y);
    if dx >= dy {
        dx
    } else {
        dy
    }
}

/// Half of `s`, rounded toward zero (integer division by two).
pub open spec fn half_toward_zero(s: int) -> int {
    if s >= 0 {
        s / 2
    } else {
        -((-s) / 2)
    }
}

/// The faster a rate clicks, the more often the cursor is nudged and the
/// farther it may stray: among the rates with a fixed pace, more clicks per
/// second mean a shorter pause and a radius at least as large; the maximum
/// rate has the shortest pause and the largest radius of all. Every radius is
/// between one and six pixels.
pub proof fn lemma_jitter_follows_pace(a: ClickRate, b: ClickRate)
    ensures
        1 <= radius(a) <= 6,
        0 < interval_ms(a),
        a.clicks_per_second() matches Some(ca) && b.clicks_per_second() matches Some(cb) && ca
            < cb ==> interval_ms(b) < interval_ms(a) && radius(a) <= radius(b),
        a != ClickRate::Maximum ==> interval_ms(ClickRate::Maximum) < interval_ms(a) && radius(a)
            < radius(ClickRate::Maximum),
{
}

/// Chebyshev distance is a distance: never negative, zero exactly between
/// equal points, the same both ways, and at least each coordinate's gap.
pub proof fn lemma_distance_laws(a: ScreenPoint, b: ScreenPoint)
    ensures
        distance(a, b) >= 0,
        distance(a, b) == 0 <==> a == b,
        distance(a, b) == distance(b, a),
        a.x - b.x <= distance(a, b) && b.x - a.x <= distance(a, b),
        a.y - b.y <= distance(a, b) && b.y - a.y <= distance(a, b),
        distance(a, b) == a.x - b.x || distance(a, b) == b.x - a.x || distance(a, b) == a.y - b.y
            || distance(a, b) == b.y - a.y,
{
}

/// Halving toward zero keeps the sign, drops at most one, and never grows.
pub proof fn lemma_half_toward_zero(s: int)
    ensures
        s >= 0 ==> 0 <= 2 * half_toward_zero(s) <= s && s - 2 * half_toward_zero(s) <= 1,
        s < 0 ==> s <= 2 * half_toward_zero(s) <= 0 && 2 * half_toward_zero(s) - s <= 1,
        half_toward_zero(-s) == -half_toward_zero(s),
{
}

/// The pause between jitter moves.
pub fn jitter_interval_ms(rate: ClickRate) -> (r: u64)
    ensures
        r == interval_ms(rate),
{
    match rate {
        ClickRate::Slow => 180,
        ClickRate::Normal => 125,
        ClickRate::Fast => 95,
        ClickRate::Rapid => 78,
        ClickRate::Turbo => 64,
        ClickRate::Extreme => 50,
        ClickRate::Maximum => 42,
        ClickRate::Fps => 85,
    }
}

/// The jitter radius.
pub fn jitter_radius(rate: ClickRate) -> (r: i32)
    ensures
        r == radius(rate),
        1 <= r <= MAX_JITTER_RADIUS,
{
    match rate {
        ClickRate::Slow => 1,
        ClickRate::Normal => 2,
        ClickRate::Fast => 2,
        ClickRate::Rapid => 3,
        ClickRate::Turbo => 4,
        ClickRate::Extreme => 5,
        ClickRate::Maximum => 6,
        ClickRate::Fps => 3,
    }
}

/// How far the cursor may be found from where the jitter put it before the
/// move counts as the user's.
pub fn manual_move_tolerance(rate: ClickRate) -> (r: i32)
    ensures
        r == radius(rate) + 2,
{
    jitter_radius(rate) + 2
}

/// The Chebyshev distance of two points.
pub fn point_distance(a: ScreenPoint, b: ScreenPoint) -> (r: i64)
    ensures
        r == distance(a, b),
{
    let dx0: i64 = a.x as i64 - b.x as i64;
    let dy0: i64 = a.y as i64 - b.y as i64;
    let dx: i64 = if dx0 < 0 {
        -dx0
    } else {
        dx0
    };
    let dy: i64 = if dy0 < 0 {
        -dy0
    } else {
        dy0
    };
    if dx >= dy {
        dx
    } else {
        dy
    }
}

/// The mean of two offsets, rounded toward zero.
pub fn combine_offsets(a: i32, b: i32) -> (r: i32)
    requires
        -0x3fff_ffff <= a <= 0x3fff_ffff,
        -0x3fff_ffff <= b <= 0x3fff_ffff,
    ensures
        r == half_toward_zero(a + b),
{
    let s = a + b;
    if s >= 0 {
        s / 2
    } else {
        -((-s) / 2)
    }
}

/// A random offset of at most `radius` either way, leaning toward zero
/// (the mean of two uniform draws); zero for a radius that is not positive.
fn biased_offset(rng: &mut fastrand::Rng, radius: i32) -> (r: i32)
    requires
        radius <= MAX_JITTER_RADIUS,
    ensures
        radius <= 0 ==> r == 0,
        radius > 0 ==> -radius <= r <= radius,
{
    if radius <= 0 {
        return 0;
    }
    let a = random_in_range(rng, -radius, radius);
    let b = random_in_range(rng, -radius, radius);
    combine_offsets(a, b)
}

/// The cursor jitter's state.
pub struct CursorJitter {
    /// The random source of the offsets.
    pub rng: fastrand::Rng,
    /// The point that the jitter moves around.
    pub anchor: Option<ScreenPoint>,
    /// Where the jitter last put the cursor.
    pub expected: Option<ScreenPoint>,
    /// Until when the jitter pauses after a move by hand.
    pub pause_until: Option<u64>,
    /// When the next move is due.
    pub next_jitter_at: u64,
}

/// What `begin_tick` does: with jitter switched off the state is reset and
/// no move is due; during a pause nothing changes and no move is due; an
/// ended pause is cleared together with the anchor and the last move; a
/// move is due once its time has come. The generator is left alone.
pub open spec fn begin_tick_post(
    before: CursorJitter,
    enabled: bool,
    now_ns: u64,
    after: CursorJitter,
    due: bool,
) -> bool {
    &&& after.rng == before.rng
    &&& !enabled ==> {
        &&& !due
        &&& after.anchor is None
        &&& after.expected is None
        &&& after.pause_until is None
        &&& after.next_jitter_at == now_ns
    }
    &&& enabled ==> match before.pause_until {
        Some(p) => if now_ns < p {
            &&& !due
            &&& after.anchor == before.anchor
            &&& after.expected == before.expected
            &&& after.pause_until == before.pause_until
            &&& after.next_jitter_at == before.next_jitter_at
        } else {
            &&& due == (now_ns >= before.next_jitter_at)
            &&& after.anchor is None
            &&& after.expected is None
            &&& after.pause_until is None
            &&& after.next_jitter_at == before.next_jitter_at
        },
        None => {
            &&& due == (now_ns >= before.next_jitter_at)
            &&& after.anchor == before.anchor
            &&& after.expected == before.expected
            &&& after.pause_until is None
            &&& after.next_jitter_at == before.next_jitter_at
        },
    }
}

/// Whether a cursor found at `current` was moved by hand: it is farther than
/// the tolerance from where the jitter last put it.
pub open spec fn moved_by_hand(before: CursorJitter, rate: ClickRate, current: ScreenPoint) -> bool {
    match before.expected {
        Some(e) => distance(current, e) > radius(rate) + 2,
        None => false,
    }
}

/// The point that a move goes around: the anchor, or the current position
/// when there is none.
pub open spec fn move_anchor(before: CursorJitter, current: ScreenPoint) -> ScreenPoint {
    match before.anchor {
        Some(a) => a,
        None => current,
    }
}

/// What `plan_move` does: without a position it retries later; after a
/// move by hand it pauses and anchors at the new position; otherwise it
/// anchors and aims within the rate's radius of the anchor. Only the last
/// case draws from the generator.
pub open spec fn plan_move_post(
    before: CursorJitter,
    rate: ClickRate,
    now_ns: u64,
    cursor: Option<ScreenPoint>,
    after: CursorJitter,
    target: Option<ScreenPoint>,
) -> bool {
    match cursor {
        None => {
            &&& target is None
            &&& after.rng == before.rng
            &&& after.next_jitter_at == now_ns + CURSOR_RETRY_NS
            &&& after.anchor == before.anchor
            &&& after.expected == before.expected
            &&& after.pause_until == before.pause_until
        },
        Some(current) => if moved_by_hand(before, rate, current) {
            &&& target is None
            &&& after.rng == before.rng
            &&& after.pause_until == Some((now_ns + MANUAL_MOVE_PAUSE_NS) as u64)
            &&& after.anchor == Some(current)
            &&& after.expected is None
            &&& after.next_jitter_at == now_ns + MANUAL_MOVE_PAUSE_NS
        } else {
            let anchor = move_anchor(before, current);
            &&& after.anchor == Some(anchor)
            &&& target matches Some(t) && abs(t.x - anchor.x) <= radius(rate) && abs(t.y - anchor.y)
                <= radius(rate)
            &&& after.expected == before.expected
            &&& after.pause_until == before.pause_until
            &&& after.next_jitter_at == before.next_jitter_at
        },
    }
}

/// What `record_move` does: the last move (none, if setting the cursor
/// failed) and the time of the next move are recorded; nothing else changes.
pub open spec fn record_move_post(
    before: CursorJitter,
    rate: ClickRate,
    now_ns: u64,
    target: ScreenPoint,
    placed: bool,
    after: CursorJitter,
) -> bool {
    &&& after.rng == before.rng
    &&& after.expected == if placed {
        Some(target)
    } else {
        None
    }
    &&& after.next_jitter_at == now_ns + interval_ms(rate) * 1_000_000
    &&& after.anchor == before.anchor
    &&& after.pause_until == before.pause_until
}

impl CursorJitter {
    /// The anchor, if any, leaves room for an offset.
    pub open spec fn well_formed(&self) -> bool {
        match self.anchor {
            Some(p) => safe_point(p),
            None => true,
        }
    }

    pub fn new(now_ns: u64) -> (r: CursorJitter)
        ensures
            r.anchor is None,
            r.expected is None,
            r.pause_until is None,
            r.next_jitter_at == now_ns,
            r.well_formed(),
    {
        CursorJitter {
            rng: new_rng(),
            anchor: None,
            expected: None,
            pause_until: None,
            next_jitter_at: now_ns,
        }
    }

    /// Forgets the anchor, the last move and any pause; the next move is due
    /// at once.
    pub fn reset(&mut self, now_ns: u64)
        ensures
            final(self).anchor is None,
            final(self).expected is None,
            final(self).pause_until is None,
            final(self).next_jitter_at == now_ns,
            final(self).well_formed(),
            final(self).rng == old(self).rng,
    {
        self.anchor = None;
        self.expected = None;
        self.pause_until = None;
        self.next_jitter_at = now_ns;
    }

    /// The first part of a jitter tick: with jitter switched off, the state
    /// is reset; an ended pause is cleared together with the anchor and the
    /// last move. Returns whether a move is due, in which case the caller
    /// reads the cursor and goes on with `plan_move`.
    pub fn begin_tick(&mut self, enabled: bool, now_ns: u64) -> (due: bool)
        requires
            old(self).well_formed(),
        ensures
            final(self).well_formed(),
            begin_tick_post(*old(self), enabled, now_ns, *final(self), due),
    {
        if !enabled {
            self.reset(now_ns);
            return false;
        }
        if let Some(pause_until) = self.pause_until {
            if now_ns < pause_until {
                return false;
            }
            self.pause_until = None;
            self.anchor = None;
            self.expected = None;
        }
        now_ns >= self.next_jitter_at
    }

    /// The second part of a due jitter tick, given the cursor position
    /// (`None` when it could not be read): returns where to put the cursor,
    /// if anywhere.
    ///
    /// Without a position the next try comes after `CURSOR_RETRY_NS`. A
    /// cursor found farther than the tolerance from where the jitter last
    /// put it was moved by hand: the jitter pauses for
    /// `MANUAL_MOVE_PAUSE_NS` and anchors at the new position. Otherwise the
    /// target lies within the rate's radius of the anchor, which is the
    /// current position when there was none.
    pub fn plan_move(&mut self, rate: ClickRate, now_ns: u64, cursor: Option<ScreenPoint>) -> (target:
        Option<ScreenPoint>)
        requires
            old(self).well_formed(),
            now_ns <= u64::MAX - LONGEST_SPAN_NS,
            cursor matches Some(c) ==> safe_point(c),
        ensures
            final(self).well_formed(),
            plan_move_post(*old(self), rate, now_ns, cursor, *final(self), target),
    {
        let current = match cursor {
            Some(c) => c,
            None => {
                self.next_jitter_at = now_ns + CURSOR_RETRY_NS;
                return None;
            },
        };
        let tolerance = manual_move_tolerance(rate);
        if let Some(expected) = self.expected {
            if point_distance(current, expected) > tolerance as i64 {
                self.pause_until = Some(now_ns + MANUAL_MOVE_PAUSE_NS);
                self.anchor = Some(current);
                self.expected = None;
                self.next_jitter_at = now_ns + MANUAL_MOVE_PAUSE_NS;
                return None;
            }
        }
        let anchor = match self.anchor {
            Some(a) => a,
            None => current,
        };
        self.anchor = Some(anchor);
        let r = jitter_radius(rate);
        let dx = biased_offset(&mut self.rng, r);
        let dy = biased_offset(&mut self.rng, r);
        Some(ScreenPoint { x: anchor.x + dx, y: anchor.y + dy })
    }

    /// The last part of a jitter tick: records where the cursor was put
    /// (nowhere, if setting it failed) and when the next move is due.
    pub fn record_move(&mut self, rate: ClickRate, now_ns: u64, target: ScreenPoint, placed: bool)
        requires
            old(self).well_formed(),
            now_ns <= u64::MAX - LONGEST_SPAN_NS,
        ensures
            final(self).well_formed(),
            record_move_post(*old(self), rate, now_ns, target, placed, *final(self)),
    {
        self.expected = if placed {
            Some(target)
        } else {
            None
        };
        self.next_jitter_at = now_ns + jitter_interval_ms(rate) * 1_000_000;
    }
}

/// No move is due while jitter is switched off, while a pause runs, or
/// before the next move's time.
pub proof fn lemma_no_move_when_not_due(
    before: CursorJitter,
    enabled: bool,
    now_ns: u64,
    after: CursorJitter,
    due: bool,
)
    requires
        begin_tick_post(before, enabled, now_ns, after, due),
        !enabled || now_ns < before.next_jitter_at || (before.pause_until matches Some(p)
            && now_ns < p),
    ensures
        !due,
{
}

/// A whole jitter tick (`begin_tick`, then `plan_move` with the cursor
/// position, then `record_move` when there is a target): the cursor is set
/// at most once, and only when jitter is on, no pause runs, the move's time
/// has come and the cursor was not moved by hand. The target then lies
/// within the rate's radius of the anchor, which stays the old anchor, or
/// becomes the cursor position when there was none or a pause has just
/// ended; the move and the next move's time are recorded, and no pause is
/// left.
pub proof fn lemma_jitter_tick(
    s0: CursorJitter,
    enabled: bool,
    rate: ClickRate,
    now_ns: u64,
    s1: CursorJitter,
    due: bool,
    cursor: Option<ScreenPoint>,
    s2: CursorJitter,
    target: Option<ScreenPoint>,
    placed: bool,
    s3: CursorJitter,
)
    requires
        begin_tick_post(s0, enabled, now_ns, s1, due),
        due,
        plan_move_post(s1, rate, now_ns, cursor, s2, target),
        target matches Some(t) ==> record_move_post(s2, rate, now_ns, t, placed, s3),
    ensures
        enabled,
        now_ns >= s0.next_jitter_at,
        s0.pause_until matches Some(p) ==> now_ns >= p,
        target matches Some(t) ==> (cursor matches Some(c) && ({
            let a = if s0.pause_until is Some {
                c
            } else {
                move_anchor(s0, c)
            };
            &&& s0.pause_until is None ==> !moved_by_hand(s0, rate, c)
            &&& s3.anchor == Some(a)
            &&& abs(t.x - a.x) <= radius(rate)
            &&& abs(t.y - a.y) <= radius(rate)
            &&& s3.expected == if placed {
                Some(t)
            } else {
                None
            }
            &&& s3.next_jitter_at == now_ns + interval_ms(rate) * 1_000_000
            &&& s3.pause_until is None
        })),
{
}

} // verus!
