//! The mathematical model of a moving point, and the proximity test between two.

use crate::scale::COORD_LIMIT;
use crate::seqs::views_of;
use vstd::prelude::*;

verus! {

/// Position and velocity of an entity, in world units and world units per tick.
/// `y` grows downward.
pub struct Body {
    pub x: int,
    pub y: int,
    pub vx: int,
    pub vy: int,
}

impl Body {
    /// Each coordinate and each velocity component is at most `COORD_LIMIT` in magnitude.
    pub open spec fn in_range(self) -> bool {
        &&& -COORD_LIMIT <= self.x <= COORD_LIMIT
        &&& -COORD_LIMIT <= self.y <= COORD_LIMIT
        &&& -COORD_LIMIT <= self.vx <= COORD_LIMIT
        &&& -COORD_LIMIT <= self.vy <= COORD_LIMIT
    }
}

/// Something that has a position and a velocity.
pub trait Mobile: View<V = Body> + Copy {
    /// The position.
    fn position(&self) -> (pos: (i64, i64))
        ensures
            pos.0 == self@.x,
            pos.1 == self@.y,
    ;

    /// The velocity.
    fn speed(&self) -> (velocity: (i64, i64))
        ensures
            velocity.0 == self@.vx,
            velocity.1 == self@.vy,
    ;
}

/// The bodies of a sequence of mobile things, in order.
pub open spec fn bodies_of<T: Mobile>(things: Seq<T>) -> Seq<Body> {
    views_of(things)
}

/// Every body of the sequence is within the coordinate limit.
pub open spec fn all_in_range(bodies: Seq<Body>) -> bool {
    forall|i: int| 0 <= i < bodies.len() ==> (#[trigger] bodies[i]).in_range()
}

/// Every body of the sequence stands within the coordinate limit, whatever its velocity.
pub open spec fn all_placed_in_range(bodies: Seq<Body>) -> bool {
    forall|i: int|
        0 <= i < bodies.len() ==> -COORD_LIMIT <= (#[trigger] bodies[i]).x <= COORD_LIMIT
            && -COORD_LIMIT <= bodies[i].y <= COORD_LIMIT
}

/// Tells whether a position and a velocity are within the coordinate limit.
pub fn is_in_range(pos: (i64, i64), velocity: (i64, i64)) -> (ok: bool)
    ensures
        ok == (Body {
            x: pos.0 as int,
            y: pos.1 as int,
            vx: velocity.0 as int,
            vy: velocity.1 as int,
        }).in_range(),
{
    -COORD_LIMIT <= pos.0 && pos.0 <= COORD_LIMIT && -COORD_LIMIT <= pos.1 && pos.1 <= COORD_LIMIT
        && -COORD_LIMIT <= velocity.0 && velocity.0 <= COORD_LIMIT && -COORD_LIMIT <= velocity.1
        && velocity.1 <= COORD_LIMIT
}

/// Tells whether every one of the things is within the coordinate limit.
pub fn all_within<T: Mobile>(things: &Vec<T>) -> (ok: bool)
    ensures
        ok == all_in_range(bodies_of(things@)),
{
    let ghost bodies = bodies_of(things@);
    let mut i: usize = 0;
    while i < things.len()
        invariant
            i <= things@.len(),
            bodies == bodies_of(things@),
            forall|k: int| 0 <= k < i ==> (#[trigger] bodies[k]).in_range(),
        decreases things@.len() - i,
    {
        let thing = things[i];
        assert(bodies[i as int] == thing@);
        if !is_in_range(thing.position(), thing.speed()) {
            return false;
        }
        i += 1;
    }
    true
}

/// Distance between two coordinates.
pub open spec fn distance(a: int, b: int) -> int {
    if a >= b {
        a - b
    } else {
        b - a
    }
}

/// Two points are closer than `tx` horizontally and closer than `ty` vertically.
pub open spec fn near(ax: int, ay: int, bx: int, by: int, tx: int, ty: int) -> bool {
    distance(ax, bx) < tx && distance(ay, by) < ty
}

/// Two bodies are close enough to touch: less than one block apart horizontally and
/// less than `blocks_high` blocks apart vertically.
pub open spec fn touching(a: Body, b: Body, bs: int, blocks_high: int) -> bool {
    near(a.x, a.y, b.x, b.y, bs, blocks_high * bs)
}

/// Decides the proximity test on machine integers.
pub fn is_near(a: (i64, i64), b: (i64, i64), tx: i64, ty: i64) -> (hit: bool)
    ensures
        hit == near(a.0 as int, a.1 as int, b.0 as int, b.1 as int, tx as int, ty as int),
{
    let dx: i128 = if a.0 >= b.0 {
        a.0 as i128 - b.0 as i128
    } else {
        b.0 as i128 - a.0 as i128
    };
    let dy: i128 = if a.1 >= b.1 {
        a.1 as i128 - b.1 as i128
    } else {
        b.1 as i128 - a.1 as i128
    };
    dx < tx as i128 && dy < ty as i128
}

} // verus!
