//! Protected regions: inclusive rectangles of grid cells that the animation
//! leaves untouched.

use vstd::prelude::*;

verus! {

/// A rectangle `(x1, y1, x2, y2)` with inclusive corners.
pub type Area = (u16, u16, u16, u16);

/// Whether the cell `(x, y)` lies inside `area`, borders included. A rectangle
/// whose corners are inverted contains no cell.
pub open spec fn region_contains(area: Area, x: int, y: int) -> bool {
    area.0 <= x <= area.2 && area.1 <= y <= area.3
}

/// Whether at least one of `areas` contains the cell `(x, y)`.
pub open spec fn protected_at(areas: Seq<Area>, x: int, y: int) -> bool {
    exists|i: int| 0 <= i < areas.len() && region_contains(#[trigger] areas[i], x, y)
}

/// Registering one more area protects exactly the cells that were protected
/// before and the cells of the new area.
pub proof fn lemma_protected_push(areas: Seq<Area>, area: Area, x: int, y: int)
    ensures
        protected_at(areas.push(area), x, y) <==> protected_at(areas, x, y) || region_contains(
            area,
            x,
            y,
        ),
{
    let more = areas.push(area);
    if protected_at(areas, x, y) {
        let i = choose|i: int| 0 <= i < areas.len() && region_contains(#[trigger] areas[i], x, y);
        assert(more[i] == areas[i]);
    }
    if region_contains(area, x, y) {
        assert(more[areas.len() as int] == area);
    }
    if protected_at(more, x, y) {
        let i = choose|i: int| 0 <= i < more.len() && region_contains(#[trigger] more[i], x, y);
        if i < areas.len() {
            assert(more[i] == areas[i]);
        }
    }
}

} // verus!
