//! The route of a session: timestamped points along a rectangular track.
//!
//! A synthesized route follows the track lap after lap in strides of fixed
//! length, so that every segment runs along one side of the track and the
//! length of the whole path is exactly the session mileage. Positions are
//! offsets from the corner where the route starts, in the same fixed-point
//! steps as the mileage.

use crate::error::AccountError;
use crate::session::KEEP_TIME_LIMIT;
use crate::session::REQUEST_LIMIT;
use crate::session::TIME_LIMIT;
use vstd::prelude::*;

verus! {

/// Distance between two consecutive points of a synthesized route, in steps.
pub const STRIDE: i64 = 5_000;

/// Length of the track's two longer sides, in steps.
pub const TRACK_LENGTH: i64 = 150_000;

/// Length of the track's two shorter sides, in steps.
pub const TRACK_WIDTH: i64 = 50_000;

/// Length of one lap round the track, in steps.
pub const LAP: i64 = 400_000;

/// One point of a route.
#[derive(Clone, Copy, Debug, PartialEq, Eq, Structural)]
pub struct RoutePoint {
    /// Offset to the east of the route's start, in steps.
    pub east: i64,
    /// Offset to the north of the route's start, in steps.
    pub north: i64,
    /// When the point is reached, in seconds since the epoch.
    pub time: i64,
}

/// The route of a session: synthesized point by point, or supplied from
/// outside as a document that is passed on as it is.
#[derive(Clone, Debug, PartialEq, Eq)]
pub enum RouteGeometry {
    /// The points of a synthesized route, in order.
    Synthesized(Vec<RoutePoint>),
    /// The text of a supplied route document.
    Supplied(String),
}

/// Whether a text is one well-formed JSON value.
pub uninterp spec fn json_well_formed(text: Seq<char>) -> bool;

/// Calls `serde_json::from_str` to read `text` as a `serde_json::Value`.
/// Trusted: whether that succeeds is a function of the text alone.
#[verifier::external_body]
fn is_json(text: &str) -> (r: bool)
    ensures
        r == json_well_formed(text@),
{
    serde_json::from_str::<serde_json::Value>(text).is_ok()
}

/// Accepts a supplied route document as the route of a session, as it is
/// and whatever length it describes, if it is well-formed JSON.
pub fn supplied_route(document: String) -> (r: Result<RouteGeometry, AccountError>)
    ensures
        r.is_ok() == json_well_formed(document@),
        r matches Ok(route) ==> route == RouteGeometry::Supplied(document),
        r matches Err(e) ==> e == AccountError::RouteSynthesisError,
{
    if is_json(document.as_str()) {
        Ok(RouteGeometry::Supplied(document))
    } else {
        Err(AccountError::RouteSynthesisError)
    }
}

/// The position on the track after `along` steps of a lap, as offsets to the
/// east and to the north: along the near side, up the far end, back along
/// the far side, and down to the start.
pub open spec fn track_position(along: int) -> (int, int) {
    if along < TRACK_LENGTH {
        (along, 0)
    } else if along < TRACK_LENGTH + TRACK_WIDTH {
        (TRACK_LENGTH as int, along - TRACK_LENGTH)
    } else if along < 2 * TRACK_LENGTH + TRACK_WIDTH {
        (2 * TRACK_LENGTH + TRACK_WIDTH - along, TRACK_WIDTH as int)
    } else {
        (0, LAP - along)
    }
}

/// The distance covered at point `i` of a route of the given length: `i`
/// strides, but no more than the whole length.
pub open spec fn distance_at(i: int, length: int) -> int {
    if i * STRIDE < length {
        i * STRIDE
    } else {
        length
    }
}

/// The number of points of a synthesized route of the given length.
pub open spec fn point_count(length: int) -> int {
    (length + STRIDE - 1) / (STRIDE as int) + 1
}

/// Point `i` of the synthesized route of the given length that starts at
/// `start_time` and lasts `keep_time` seconds.
pub open spec fn point_at(i: int, length: int, start_time: int, keep_time: int) -> RoutePoint {
    let covered = distance_at(i, length);
    let position = track_position(covered % (LAP as int));
    RoutePoint {
        east: position.0 as i64,
        north: position.1 as i64,
        time: (start_time + (keep_time * covered) / length) as i64,
    }
}

/// The synthesized route of the given length.
pub open spec fn synthetic_route(length: int, start_time: int, keep_time: int) -> Seq<RoutePoint> {
    Seq::new(point_count(length) as nat, |i: int| point_at(i, length, start_time, keep_time))
}

/// The distance between two points that lie on a line from west to east or
/// from south to north.
pub open spec fn segment_length(a: RoutePoint, b: RoutePoint) -> int {
    (if a.east <= b.east {
        b.east - a.east
    } else {
        a.east - b.east
    }) + (if a.north <= b.north {
        b.north - a.north
    } else {
        a.north - b.north
    })
}

/// Two points lie on a line from west to east or from south to north.
pub open spec fn aligned(a: RoutePoint, b: RoutePoint) -> bool {
    a.east == b.east || a.north == b.north
}

/// The cumulative length of a path: the sum of the lengths of its segments.
pub open spec fn path_length(points: Seq<RoutePoint>) -> int
    decreases points.len(),
{
    if points.len() < 2 {
        0
    } else {
        path_length(points.drop_last()) + segment_length(
            points[points.len() - 2],
            points[points.len() - 1],
        )
    }
}

/// The inputs for which a route can be synthesized: a positive length and a
/// duration that is not negative, within machine integers.
pub open spec fn synthesizable(length: int, start_time: int, keep_time: int) -> bool {
    &&& 0 < length <= REQUEST_LIMIT
    &&& 0 <= keep_time <= KEEP_TIME_LIMIT
    &&& -TIME_LIMIT - KEEP_TIME_LIMIT <= start_time <= TIME_LIMIT + KEEP_TIME_LIMIT
}

/// From one point of a synthesized route to the next, the route runs along
/// one side of the track, covers the distance between the two points, and
/// time does not run backwards.
pub proof fn lemma_stride(i: int, length: int, start_time: int, keep_time: int)
    requires
        synthesizable(length, start_time, keep_time),
        1 <= i < point_count(length),
    ensures
        aligned(
            point_at(i - 1, length, start_time, keep_time),
            point_at(i, length, start_time, keep_time),
        ),
        segment_length(
            point_at(i - 1, length, start_time, keep_time),
            point_at(i, length, start_time, keep_time),
        ) == distance_at(i, length) - distance_at(i - 1, length),
        0 < distance_at(i, length) - distance_at(i - 1, length) <= STRIDE,
        point_at(i - 1, length, start_time, keep_time).time <= point_at(
            i,
            length,
            start_time,
            keep_time,
        ).time,
{
    let before = distance_at(i - 1, length);
    let after = distance_at(i, length);
    assert(before == (i - 1) * STRIDE);
    assert(0 < after - before <= STRIDE);
    let lap = LAP as int;
    let laps = before / lap;
    let along = before % lap;
    assert(before == laps * lap + along);
    assert(along % (STRIDE as int) == 0);
    assert(along <= lap - STRIDE);
    if along + (after - before) < lap {
        assert(after % lap == along + (after - before));
    } else {
        assert(after % lap == 0);
    }
    lemma_time_bounds(before, length, keep_time);
    lemma_time_bounds(after, length, keep_time);
    assert(keep_time * before <= keep_time * after) by (nonlinear_arith)
        requires
            0 <= keep_time,
            before <= after,
    ;
    vstd::arithmetic::div_mod::lemma_div_is_ordered(
        keep_time * before,
        keep_time * after,
        length,
    );
}

/// The time offset of a point lies between zero and the duration of the
/// route, and is the whole duration at the end of the route.
pub proof fn lemma_time_bounds(covered: int, length: int, keep_time: int)
    requires
        0 < length,
        0 <= covered <= length,
        0 <= keep_time,
    ensures
        0 <= keep_time * covered <= keep_time * length,
        0 <= (keep_time * covered) / length <= keep_time,
        covered == length ==> (keep_time * covered) / length == keep_time,
{
    assert(0 <= keep_time * covered <= keep_time * length) by (nonlinear_arith)
        requires
            0 <= covered <= length,
            0 <= keep_time,
    ;
    vstd::arithmetic::div_mod::lemma_div_multiples_vanish(keep_time, length);
    assert(keep_time * length == length * keep_time) by (nonlinear_arith);
    vstd::arithmetic::div_mod::lemma_div_is_ordered(0, keep_time * covered, length);
    vstd::arithmetic::div_mod::lemma_div_is_ordered(
        keep_time * covered,
        keep_time * length,
        length,
    );
}

fn position_on_track(along: i64) -> (r: (i64, i64))
    requires
        0 <= along < LAP,
    ensures
        (r.0 as int, r.1 as int) == track_position(along as int),
        0 <= r.0 <= TRACK_LENGTH,
        0 <= r.1 <= TRACK_WIDTH,
{
    if along < TRACK_LENGTH {
        (along, 0)
    } else if along < TRACK_LENGTH + TRACK_WIDTH {
        (TRACK_LENGTH, along - TRACK_LENGTH)
    } else if along < 2 * TRACK_LENGTH + TRACK_WIDTH {
        (2 * TRACK_LENGTH + TRACK_WIDTH - along, TRACK_WIDTH)
    } else {
        (0, LAP - along)
    }
}

fn route_point(i: i64, length: i64, start_time: i64, keep_time: i64) -> (r: RoutePoint)
    requires
        synthesizable(length as int, start_time as int, keep_time as int),
        0 <= i < point_count(length as int),
    ensures
        r == point_at(i as int, length as int, start_time as int, keep_time as int),
        0 <= r.east <= TRACK_LENGTH,
        0 <= r.north <= TRACK_WIDTH,
        start_time <= r.time <= start_time + keep_time,
{
    let covered: i64 = if i * STRIDE < length {
        i * STRIDE
    } else {
        length
    };
    proof {
        lemma_time_bounds(covered as int, length as int, keep_time as int);
        assert(keep_time * length <= 404_000_000_000_000) by (nonlinear_arith)
            requires
                0 <= keep_time <= 400_000,
                0 < length <= 1_010_000_000,
        ;
    }
    let position = position_on_track(covered % LAP);
    RoutePoint {
        east: position.0,
        north: position.1,
        time: start_time + (keep_time * covered) / length,
    }
}

/// Synthesizes the route of a session of the given length that starts at
/// `start_time` and lasts `keep_time` seconds. The route starts at the
/// corner of the track when the session starts and ends when the session
/// ends; its cumulative length is exactly `length`; time never runs
/// backwards along it; and each segment runs along one side of the track
/// for one stride at most.
pub fn synthesize(length: i64, start_time: i64, keep_time: i64) -> (route: Vec<RoutePoint>)
    requires
        synthesizable(length as int, start_time as int, keep_time as int),
    ensures
        route@ == synthetic_route(length as int, start_time as int, keep_time as int),
        route@.len() >= 2,
        path_length(route@) == length,
        route@[0] == (RoutePoint { east: 0, north: 0, time: start_time }),
        route@.last().time == start_time + keep_time,
        forall|a: int, b: int|
            0 <= a <= b < route@.len() ==> route@[a].time <= route@[b].time,
        forall|i: int|
            1 <= i < route@.len() ==> aligned(#[trigger] route@[i - 1], route@[i])
                && segment_length(route@[i - 1], route@[i]) <= STRIDE,
        forall|i: int|
            0 <= i < route@.len() ==> 0 <= (#[trigger] route@[i]).east <= TRACK_LENGTH && 0
                <= route@[i].north <= TRACK_WIDTH,
{
    let count: i64 = (length + STRIDE - 1) / STRIDE + 1;
    let mut route: Vec<RoutePoint> = Vec::new();
    let mut i: i64 = 0;
    while i < count
        invariant
            synthesizable(length as int, start_time as int, keep_time as int),
            count == point_count(length as int),
            2 <= count <= 202_001,
            0 <= i <= count,
            route@.len() == i,
            forall|j: int|
                0 <= j < i ==> #[trigger] route@[j] == point_at(
                    j,
                    length as int,
                    start_time as int,
                    keep_time as int,
                ),
            i > 0 ==> path_length(route@) == distance_at(i - 1, length as int),
            forall|a: int, b: int| 0 <= a <= b < i ==> route@[a].time <= route@[b].time,
            forall|j: int|
                1 <= j < i ==> aligned(#[trigger] route@[j - 1], route@[j]) && segment_length(
                    route@[j - 1],
                    route@[j],
                ) <= STRIDE,
            forall|j: int|
                0 <= j < i ==> 0 <= (#[trigger] route@[j]).east <= TRACK_LENGTH && 0
                    <= route@[j].north <= TRACK_WIDTH,
        decreases count - i,
    {
        let point = route_point(i, length, start_time, keep_time);
        let ghost earlier = route@;
        route.push(point);
        proof {
            assert(route@.drop_last() =~= earlier);
            if i > 0 {
                lemma_stride(i as int, length as int, start_time as int, keep_time as int);
                assert(route@[i - 1] == earlier[i - 1]);
            }
        }
        i = i + 1;
    }
    proof {
        assert(route@ =~= synthetic_route(length as int, start_time as int, keep_time as int));
        lemma_time_bounds(length as int, length as int, keep_time as int);
    }
    route
}

} // verus!
