//! Geometry helpers.

use vstd::prelude::*;
use crate::primitives::{Point, Rect};

verus! {

/// Whether `r` is the tight bounding box of `cells` placed at `(x, y)`: it
/// covers every cell and each of its four edges touches one. Of no cells, it
/// is the empty box at `(x, y)`.
pub open spec fn is_bounding_box(r: Rect, cells: Seq<Point>, x: int, y: int) -> bool {
    if cells.len() == 0 {
        r.x == x && r.y == y && r.width == 0 && r.height == 0
    } else {
        &&& forall|i: int|
            0 <= i < cells.len() ==> r.covers(x + (#[trigger] cells[i]).x, y + cells[i].y)
        &&& exists|i: int| 0 <= i < cells.len() && x + (#[trigger] cells[i]).x == r.x
        &&& exists|i: int| 0 <= i < cells.len() && x + (#[trigger] cells[i]).x == r.x + r.width - 1
        &&& exists|i: int| 0 <= i < cells.len() && y + (#[trigger] cells[i]).y == r.y
        &&& exists|i: int|
            0 <= i < cells.len() && y + (#[trigger] cells[i]).y == r.y + r.height - 1
    }
}

/// The tight bounding box of `cells` placed at `(x, y)`.
pub fn calc_bounds(cells: &[Point], x: i64, y: i64) -> (r: Rect)
    requires
        -0x4000_0000_0000_0000 <= x <= 0x4000_0000_0000_0000,
        -0x4000_0000_0000_0000 <= y <= 0x4000_0000_0000_0000,
    ensures
        is_bounding_box(r, cells@, x as int, y as int),
{
    let n = cells.len();
    if n == 0 {
        return Rect::new(x, y, 0, 0);
    }
    let first = cells[0];
    let mut min_x: i64 = x + first.x as i64;
    let mut max_x: i64 = min_x;
    let mut min_y: i64 = y + first.y as i64;
    let mut max_y: i64 = min_y;
    let ghost mut left: int = 0;
    let ghost mut right: int = 0;
    let ghost mut top: int = 0;
    let ghost mut bottom: int = 0;
    let mut i: usize = 1;
    while i < n
        invariant
            1 <= i <= n,
            n == cells@.len(),
            -0x4000_0000_0000_0000 <= x <= 0x4000_0000_0000_0000,
            -0x4000_0000_0000_0000 <= y <= 0x4000_0000_0000_0000,
            forall|j: int|
                0 <= j < i ==> min_x <= x + (#[trigger] cells@[j]).x <= max_x && min_y <= y
                    + cells@[j].y <= max_y,
            0 <= left < i && x + cells@[left].x == min_x,
            0 <= right < i && x + cells@[right].x == max_x,
            0 <= top < i && y + cells@[top].y == min_y,
            0 <= bottom < i && y + cells@[bottom].y == max_y,
        decreases n - i,
    {
        let p = cells[i];
        let cx: i64 = x + p.x as i64;
        let cy: i64 = y + p.y as i64;
        if cx < min_x {
            min_x = cx;
            proof {
                left = i as int;
            }
        }
        if cx > max_x {
            max_x = cx;
            proof {
                right = i as int;
            }
        }
        if cy < min_y {
            min_y = cy;
            proof {
                top = i as int;
            }
        }
        if cy > max_y {
            max_y = cy;
            proof {
                bottom = i as int;
            }
        }
        i += 1;
    }
    let r = Rect::new(min_x, min_y, max_x - min_x + 1, max_y - min_y + 1);
    proof {
        assert(x + cells@[left].x == r.x);
        assert(x + cells@[right].x == r.x + r.width - 1);
        assert(y + cells@[top].y == r.y);
        assert(y + cells@[bottom].y == r.y + r.height - 1);
    }
    r
}

} // verus!
