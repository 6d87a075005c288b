//! Plain value transfer: a fixed-layout point copied by value on every
//! boundary crossing, and a pure midpoint operation over it.

use vstd::prelude::*;

verus! {

/// A plain value crossed by copy: a point with two integer coordinates.
/// No ownership is attached; each side keeps its own copy.
#[derive(Clone, Copy, PartialEq, Eq, Structural, Debug)]
pub struct Point {
    pub x: i64,
    pub y: i64,
}

/// The midpoint of two coordinates: the lower one plus half the distance
/// to the higher one (so the result always lies between the two).
pub open spec fn mid_val(a: int, b: int) -> int {
    if a <= b {
        a + (b - a) / 2
    } else {
        b + (a - b) / 2
    }
}

/// The componentwise midpoint of two points.
pub open spec fn mid_point_spec(a: Point, b: Point) -> Point {
    Point { x: mid_val(a.x as int, b.x as int) as i64, y: mid_val(a.y as int, b.y as int) as i64 }
}

/// Each coordinate's midpoint lies between the two inputs, so it fits the
/// coordinate type whenever the inputs do.
pub proof fn lemma_mid_val_bounds(a: int, b: int)
    ensures
        a <= b ==> a <= mid_val(a, b) <= b,
        b <= a ==> b <= mid_val(a, b) <= a,
{
}

/// The midpoint operation is symmetric in its arguments, and the midpoint
/// of a point with itself is that point.
pub proof fn lemma_mid_point_symmetric(a: Point, b: Point)
    ensures
        mid_point_spec(a, b) == mid_point_spec(b, a),
        mid_point_spec(a, a) == a,
{
    lemma_mid_val_bounds(a.x as int, b.x as int);
    lemma_mid_val_bounds(a.y as int, b.y as int);
}

/// Returns the middle point of `[a, b]`.
pub fn mid_point(a: &Point, b: &Point) -> (r: Point)
    ensures
        r == mid_point_spec(*a, *b),
{
    Point { x: mid_coord(a.x, b.x), y: mid_coord(a.y, b.y) }
}

fn mid_coord(a: i64, b: i64) -> (r: i64)
    ensures
        r == mid_val(a as int, b as int),
{
    proof {
        lemma_mid_val_bounds(a as int, b as int);
    }
    if a <= b {
        let d: u64 = ((b as i128) - (a as i128)) as u64;
        let h: u64 = d / 2;
        ((a as i128) + (h as i128)) as i64
    } else {
        let d: u64 = ((a as i128) - (b as i128)) as u64;
        let h: u64 = d / 2;
        ((b as i128) + (h as i128)) as i64
    }
}

} // verus!
