use vstd::prelude::*;
use crate::marshal::{
    narrow_coordinate,
    native_point,
    point_to_native,
    truncate_count,
    wrap_i16,
    wrap_i32,
};
use crate::native::NativeCall;
use crate::types::{Point, RDPoint};

verus! {

/// Draws one pixel.
pub fn tack_pixel(position: Point) -> (call: NativeCall)
    ensures
        call == (NativeCall::TackPixel {
            x: wrap_i16(position.x as int) as i16,
            y: wrap_i16(position.y as int) as i16,
        }),
{
    NativeCall::TackPixel { x: narrow_coordinate(position.x), y: narrow_coordinate(position.y) }
}

/// Draws the segment from `start` to `end`.
pub fn tack_segment(start: Point, end: Point) -> (call: NativeCall)
    ensures
        call == (NativeCall::TackSegment {
            x1: wrap_i16(start.x as int) as i16,
            y1: wrap_i16(start.y as int) as i16,
            x2: wrap_i16(end.x as int) as i16,
            y2: wrap_i16(end.y as int) as i16,
        }),
{
    NativeCall::TackSegment {
        x1: narrow_coordinate(start.x),
        y1: narrow_coordinate(start.y),
        x2: narrow_coordinate(end.x),
        y2: narrow_coordinate(end.y),
    }
}

/// Draws the rectangle with the corners `from` and `to`.
pub fn tack_rectangle(from: Point, to: Point) -> (call: NativeCall)
    ensures
        call == (NativeCall::TackRectangle {
            x1: wrap_i16(from.x as int) as i16,
            y1: wrap_i16(from.y as int) as i16,
            x2: wrap_i16(to.x as int) as i16,
            y2: wrap_i16(to.y as int) as i16,
        }),
{
    NativeCall::TackRectangle {
        x1: narrow_coordinate(from.x),
        y1: narrow_coordinate(from.y),
        x2: narrow_coordinate(to.x),
        y2: narrow_coordinate(to.y),
    }
}

/// Draws the polygon with these vertices, in their order. The vertex count
/// keeps the low 32 bits of the length.
pub fn tack_poly(points: Vec<Point>) -> (call: NativeCall)
    ensures
        call matches NativeCall::TackPoly { points: native, verts } && native@ == points@.map_values(
            |p: Point| native_point(p),
        ) && verts as int == wrap_i32(points@.len() as int),
{
    let n: usize = points.len();
    let mut native: Vec<RDPoint> = Vec::new();
    let mut i: usize = 0;
    while i < n
        invariant
            n == points@.len(),
            i <= n,
            native@ == points@.take(i as int).map_values(|p: Point| native_point(p)),
        decreases n - i,
    {
        native.push(point_to_native(points[i]));
        proof {
            let f = |p: Point| native_point(p);
            assert(points@.take(i + 1) == points@.take(i as int).push(points@[i as int]));
            assert(points@.take(i + 1).map_values(f) == points@.take(i as int).map_values(f).push(
                f(points@[i as int]),
            ));
        }
        i += 1;
    }
    proof {
        assert(points@.take(n as int) == points@);
    }
    NativeCall::TackPoly { points: native, verts: truncate_count(n) }
}

} // verus!
