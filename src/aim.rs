//! Choosing where a shot is aimed: the target goal, the re-aim near the goal,
//! and the guard against shots that no launch angle can solve.
use vstd::prelude::*;
use crate::Side;

verus! {

/// A point of the play plane, in whole world units (pixels).
#[derive(Clone, Copy, Debug, PartialEq, Eq, Structural)]
pub struct Point {
    pub x: i32,
    pub y: i32,
}

/// A goal, owned by one side.
#[derive(Clone, Copy, Debug, PartialEq, Eq, Structural)]
pub struct Target {
    pub side: Side,
    pub position: Point,
}

/// Horizontal distance under which a shot is re-aimed beside the goal.
pub const REAIM_RANGE: i64 = 200;

/// Height added to the goal when a shot is re-aimed.
pub const REAIM_LIFT: i64 = 70;

/// Horizontal step back towards the shooter when a shot is re-aimed.
pub const REAIM_STEP: i64 = 20;

/// The offset from the shot's origin to the point it must pass through.
#[derive(Clone, Copy, Debug, PartialEq, Eq, Structural)]
pub struct Aim {
    pub dx: i64,
    pub dy: i64,
}

pub open spec fn abs(v: int) -> int {
    if v < 0 {
        -v
    } else {
        v
    }
}

/// The point a shot from `origin` at `target` is aimed at. When the shooter
/// stands within `REAIM_RANGE` horizontally of the goal, the aim is lifted by
/// `REAIM_LIFT` and moved `REAIM_STEP` back towards the shooter's side (to the
/// right when the shooter is not left of the goal), so that the ball arcs in
/// from the side.
pub open spec fn aim_point(origin: Point, target: Point) -> (int, int) {
    let dx = target.x - origin.x;
    if abs(dx) < REAIM_RANGE {
        (
            if dx > 0 {
                target.x - REAIM_STEP
            } else {
                target.x + REAIM_STEP
            },
            target.y + REAIM_LIFT,
        )
    } else {
        (target.x as int, target.y as int)
    }
}

/// The aim of a shot from `origin` at `target`: the offset to the aimed point,
/// or none when that offset is straight up or down, which no launch angle of
/// the closed form solves.
pub open spec fn spec_aim(origin: Point, target: Point) -> Option<Aim> {
    let p = aim_point(origin, target);
    if p.0 == origin.x {
        None
    } else {
        Some(Aim { dx: (p.0 - origin.x) as i64, dy: (p.1 - origin.y) as i64 })
    }
}

/// The point a shot from `origin` at `target` is aimed at.
pub fn aimed_point(origin: Point, target: Point) -> (r: (i64, i64))
    ensures
        r.0 == aim_point(origin, target).0,
        r.1 == aim_point(origin, target).1,
{
    let dx: i64 = target.x as i64 - origin.x as i64;
    if -REAIM_RANGE < dx && dx < REAIM_RANGE {
        if dx > 0 {
            (target.x as i64 - REAIM_STEP, target.y as i64 + REAIM_LIFT)
        } else {
            (target.x as i64 + REAIM_STEP, target.y as i64 + REAIM_LIFT)
        }
    } else {
        (target.x as i64, target.y as i64)
    }
}

/// Aims a shot from `origin` at `target`.
pub fn aim(origin: Point, target: Point) -> (r: Option<Aim>)
    ensures
        r == spec_aim(origin, target),
{
    let (x, y) = aimed_point(origin, target);
    if x == origin.x as i64 {
        None
    } else {
        Some(Aim { dx: x - origin.x as i64, dy: y - origin.y as i64 })
    }
}

/// Near the goal the aimed point differs from the goal by exactly a step back
/// towards the shooter and a lift; farther away it is the goal itself.
pub proof fn lemma_reaim_offset(origin: Point, target: Point)
    ensures
        abs(target.x - origin.x) < REAIM_RANGE && target.x - origin.x > 0 ==> aim_point(
            origin,
            target,
        ) == (target.x - REAIM_STEP, target.y + REAIM_LIFT),
        abs(target.x - origin.x) < REAIM_RANGE && target.x - origin.x <= 0 ==> aim_point(
            origin,
            target,
        ) == (target.x + REAIM_STEP, target.y + REAIM_LIFT),
        abs(target.x - origin.x) >= REAIM_RANGE ==> aim_point(origin, target) == (
            target.x as int,
            target.y as int,
        ),
{
}

/// A shot has an aim exactly when the aimed point is not straight above or
/// below the origin, and the aim is then the offset to that point.
pub proof fn lemma_degenerate_guard(origin: Point, target: Point)
    ensures
        spec_aim(origin, target) is None <==> aim_point(origin, target).0 == origin.x,
        spec_aim(origin, target) matches Some(a) ==> a.dx != 0 && a.dx == aim_point(origin, target).0
            - origin.x && a.dy == aim_point(origin, target).1 - origin.y,
{
}

/// The goal a holder on `side` shoots at: the first one of the other side.
pub fn opposing_target(targets: &Vec<Target>, side: Side) -> (r: Option<Point>)
    ensures
        r is None <==> forall|k: int| 0 <= k < targets@.len() ==> #[trigger] targets@[k].side == side,
        r matches Some(p) ==> exists|k: int|
            0 <= k < targets@.len() && targets@[k].side != side && targets@[k].position == p
                && forall|j: int| 0 <= j < k ==> #[trigger] targets@[j].side == side,
{
    let mut k: usize = 0;
    while k < targets.len()
        invariant
            k <= targets@.len(),
            forall|j: int| 0 <= j < k ==> #[trigger] targets@[j].side == side,
        decreases targets@.len() - k,
    {
        if targets[k].side != side {
            return Some(targets[k].position);
        }
        k += 1;
    }
    None
}

} // verus!
