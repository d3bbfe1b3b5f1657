//! Pacing and timing of one session: how far, how long and how fast.
//!
//! A session is derived from the requested mileage, the time at which it is
//! to end, and three bounded random draws. The derivation itself is a pure
//! function of those values.

use crate::decimal::UNIT;
use vstd::prelude::*;

verus! {

/// Lowest mileage offset that can be drawn, in steps (-0.02 units).
pub const OFFSET_LOW: i64 = -20_000;

/// Exclusive upper end of the mileage offset, in steps (-0.001 units).
pub const OFFSET_HIGH: i64 = -1_000;

/// Lowest keep-time jitter that can be drawn, in seconds.
pub const JITTER_LOW: i64 = -15;

/// Exclusive upper end of the keep-time jitter, in seconds.
pub const JITTER_HIGH: i64 = 15;

/// The pace around which a session's pace varies, in steps (0.6).
pub const PACE_BASE: i64 = 600_000;

/// Lowest pace jitter that can be drawn, in steps (-0.05).
pub const PACE_JITTER_LOW: i64 = -50_000;

/// Exclusive upper end of the pace jitter, in steps (0.05).
pub const PACE_JITTER_HIGH: i64 = 50_000;

/// Largest magnitude of a requested mileage, in steps, for which a session
/// can be derived.
pub const REQUEST_LIMIT: i64 = 1_010_000_000;

/// Largest magnitude of an end time, in seconds since the epoch, for which a
/// session can be derived.
pub const TIME_LIMIT: i64 = 1_000_000_000_000_000;

/// Largest magnitude of a keep-time, in seconds, that a derivation can give.
pub const KEEP_TIME_LIMIT: i64 = 400_000;

/// The quotient `n / d` rounded toward zero, for a positive divisor.
pub open spec fn trunc_div(n: int, d: int) -> int {
    if n >= 0 {
        n / d
    } else {
        -((-n) / d)
    }
}

/// The keep-time of a session of mileage `m` before jitter: `m * 1000 / 3`
/// seconds for `m` in whole units, which is `m / 3000` for `m` in steps,
/// rounded to the nearest second, halves away from zero.
pub open spec fn base_keep_time(m: int) -> int {
    if m >= 0 {
        (m + 1500) / 3000
    } else {
        -((-m + 1500) / 3000)
    }
}

/// The calorie estimate of a session of mileage `m`: 58.3 per unit,
/// truncated.
pub open spec fn calorie_of(m: int) -> int {
    trunc_div(m * 583, 10 * UNIT)
}

/// The average pace of a session: whole seconds per unit, truncated, times
/// one thousand.
pub open spec fn ave_pace_of(m: int, keep_time: int) -> int {
    trunc_div(keep_time * UNIT, m) * 1000
}

/// The pace number of a session: `m * 1000 / pace / 2` for `m` and `pace` in
/// whole units, truncated.
pub open spec fn pace_number_of(m: int, pace: int) -> int {
    trunc_div(m * 500, pace)
}

fn trunc_div_exec(n: i64, d: i64) -> (r: i64)
    requires
        d > 0,
        n > i64::MIN,
    ensures
        r == trunc_div(n as int, d as int),
{
    if n >= 0 {
        n / d
    } else {
        -((-n) / d)
    }
}

/// The three random values that shape a session.
#[derive(Clone, Copy, Debug, PartialEq, Eq, Structural)]
pub struct Draws {
    /// Added to the requested mileage, in steps.
    pub mileage_offset: i64,
    /// Added to the base keep-time, in seconds.
    pub keep_time_jitter: i64,
    /// Added to the base pace, in steps.
    pub pace_jitter: i64,
}

impl Draws {
    /// Each value lies in the half-open interval it is drawn from.
    pub open spec fn valid(&self) -> bool {
        &&& OFFSET_LOW <= self.mileage_offset < OFFSET_HIGH
        &&& JITTER_LOW <= self.keep_time_jitter < JITTER_HIGH
        &&& PACE_JITTER_LOW <= self.pace_jitter < PACE_JITTER_HIGH
    }

    /// Whether each value lies in the interval it is drawn from.
    pub fn is_valid(&self) -> (r: bool)
        ensures
            r == self.valid(),
    {
        OFFSET_LOW <= self.mileage_offset && self.mileage_offset < OFFSET_HIGH && JITTER_LOW
            <= self.keep_time_jitter && self.keep_time_jitter < JITTER_HIGH && PACE_JITTER_LOW
            <= self.pace_jitter && self.pace_jitter < PACE_JITTER_HIGH
    }

    /// Draws the three values afresh, each uniformly from its interval.
    pub fn draw() -> (r: Draws)
        ensures
            r.valid(),
    {
        let mileage_offset = draw_between(OFFSET_LOW, OFFSET_HIGH);
        let keep_time_jitter = draw_between(JITTER_LOW, JITTER_HIGH);
        let pace_jitter = draw_between(PACE_JITTER_LOW, PACE_JITTER_HIGH);
        Draws { mileage_offset, keep_time_jitter, pace_jitter }
    }
}

/// Calls `rand::Rng::gen_range` on the generator of the calling thread
/// (`rand::thread_rng`) with the range `low..high`. Trusted: the value
/// returned lies in that half-open range. Nothing is claimed of which value
/// it is.
#[verifier::external_body]
fn draw_between(low: i64, high: i64) -> (r: i64)
    requires
        low < high,
    ensures
        low <= r < high,
{
    rand::Rng::gen_range(&mut rand::thread_rng(), low..high)
}

/// How far, how long and how fast one session runs, and when.
#[derive(Clone, Copy, Debug, PartialEq, Eq, Structural)]
pub struct SessionParameters {
    /// Session mileage, in steps: the requested mileage plus its offset.
    pub mileage: i64,
    /// Duration of the session, in seconds.
    pub keep_time: i64,
    /// Pace of the session, in steps.
    pub pace: i64,
    /// Start of the session, in seconds since the epoch.
    pub start_time: i64,
    /// End of the session, in seconds since the epoch.
    pub end_time: i64,
}

impl SessionParameters {
    /// The session that the mileage `requested`, the end time `end_time` and
    /// the draws `draws` determine.
    pub open spec fn derived(requested: int, end_time: int, draws: Draws) -> SessionParameters {
        let mileage = requested + draws.mileage_offset;
        let keep_time = base_keep_time(mileage) + draws.keep_time_jitter;
        SessionParameters {
            mileage: mileage as i64,
            keep_time: keep_time as i64,
            pace: (PACE_BASE + draws.pace_jitter) as i64,
            start_time: (end_time - keep_time) as i64,
            end_time: end_time as i64,
        }
    }

    /// The inputs for which a session can be derived within machine integers.
    pub open spec fn derivable(requested: int, end_time: int) -> bool {
        &&& -REQUEST_LIMIT <= requested <= REQUEST_LIMIT
        &&& -TIME_LIMIT <= end_time <= TIME_LIMIT
    }

    /// Whether a session can be derived from these inputs.
    pub fn can_derive(requested: i64, end_time: i64) -> (r: bool)
        ensures
            r == Self::derivable(requested as int, end_time as int),
    {
        -REQUEST_LIMIT <= requested && requested <= REQUEST_LIMIT && -TIME_LIMIT <= end_time
            && end_time <= TIME_LIMIT
    }

    /// Derives the session from the requested mileage, the end time and the
    /// three draws.
    pub fn derive(requested: i64, end_time: i64, draws: Draws) -> (r: SessionParameters)
        requires
            Self::derivable(requested as int, end_time as int),
            draws.valid(),
        ensures
            r == Self::derived(requested as int, end_time as int, draws),
            r.bounded(),
            r.mileage == requested + draws.mileage_offset,
            r.keep_time == base_keep_time(r.mileage as int) + draws.keep_time_jitter,
            r.pace == PACE_BASE + draws.pace_jitter,
            r.start_time == end_time - r.keep_time,
            r.end_time == end_time,
    {
        let mileage = requested + draws.mileage_offset;
        let base = if mileage >= 0 {
            (mileage + 1500) / 3000
        } else {
            -((-mileage + 1500) / 3000)
        };
        let keep_time = base + draws.keep_time_jitter;
        SessionParameters {
            mileage,
            keep_time,
            pace: PACE_BASE + draws.pace_jitter,
            start_time: end_time - keep_time,
            end_time,
        }
    }

    /// Draws afresh and derives the session from the requested mileage and
    /// the end time. Whatever was drawn, the session mileage lies below the
    /// requested one by an offset within its interval, the keep-time lies
    /// within its jitter of the base keep-time, and the pace within its
    /// jitter of the base pace.
    pub fn generate(requested: i64, end_time: i64) -> (r: SessionParameters)
        requires
            Self::derivable(requested as int, end_time as int),
        ensures
            exists|draws: Draws|
                draws.valid() && r == #[trigger] Self::derived(
                    requested as int,
                    end_time as int,
                    draws,
                ),
            r.bounded(),
            OFFSET_LOW <= r.mileage - requested < OFFSET_HIGH,
            JITTER_LOW <= r.keep_time - base_keep_time(r.mileage as int) < JITTER_HIGH,
            PACE_BASE + PACE_JITTER_LOW <= r.pace < PACE_BASE + PACE_JITTER_HIGH,
            r.start_time == end_time - r.keep_time,
            r.end_time == end_time,
    {
        let draws = Draws::draw();
        Self::derive(requested, end_time, draws)
    }

    /// The values lie within the range that a derivation can give.
    pub open spec fn bounded(&self) -> bool {
        &&& -REQUEST_LIMIT + OFFSET_LOW <= self.mileage <= REQUEST_LIMIT
        &&& -KEEP_TIME_LIMIT <= self.keep_time <= KEEP_TIME_LIMIT
        &&& PACE_BASE + PACE_JITTER_LOW <= self.pace < PACE_BASE + PACE_JITTER_HIGH
        &&& self.start_time == self.end_time - self.keep_time
    }

    /// The session covers a positive mileage in a duration that is not
    /// negative: only such a session has an average pace and a route.
    pub open spec fn runnable(&self) -> bool {
        self.mileage > 0 && self.keep_time >= 0
    }

    /// Whether the session covers a positive mileage in a duration that is
    /// not negative.
    pub fn is_runnable(&self) -> (r: bool)
        ensures
            r == self.runnable(),
    {
        self.mileage > 0 && self.keep_time >= 0
    }

    /// The calorie estimate of the session.
    pub fn calorie(&self) -> (r: i64)
        requires
            self.bounded(),
        ensures
            r == calorie_of(self.mileage as int),
    {
        trunc_div_exec(self.mileage * 583, 10 * UNIT)
    }

    /// The average pace of the session.
    pub fn ave_pace(&self) -> (r: i64)
        requires
            self.bounded(),
            self.mileage > 0,
        ensures
            r == ave_pace_of(self.mileage as int, self.keep_time as int),
    {
        let seconds_per_unit = trunc_div_exec(self.keep_time * UNIT, self.mileage);
        assert(-400_000_000_000 <= seconds_per_unit <= 400_000_000_000) by (nonlinear_arith)
            requires
                seconds_per_unit == trunc_div(
                    (self.keep_time * UNIT) as int,
                    self.mileage as int,
                ),
                self.mileage > 0,
                -400_000_000_000 <= self.keep_time * UNIT <= 400_000_000_000,
        ;
        seconds_per_unit * 1000
    }

    /// The pace number of the session.
    pub fn pace_number(&self) -> (r: i64)
        requires
            self.bounded(),
        ensures
            r == pace_number_of(self.mileage as int, self.pace as int),
    {
        trunc_div_exec(self.mileage * 500, self.pace)
    }
}

} // verus!
