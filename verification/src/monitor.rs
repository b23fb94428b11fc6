//! Monitor resolution: which display holds a point of the desktop.

use vstd::prelude::*;

verus! {

/// A position on the desktop, in pixels. Displays left of or above the
/// primary one have negative coordinates.
#[derive(Clone, Copy, Debug, PartialEq, Eq, Structural)]
pub struct ScreenPoint {
    pub x: i32,
    pub y: i32,
}

/// The axis-aligned rectangle that a display covers on the desktop.
#[derive(Clone, Copy, Debug, PartialEq, Eq, Structural)]
pub struct MonitorGeometry {
    pub x: i32,
    pub y: i32,
    pub width: u32,
    pub height: u32,
}

impl MonitorGeometry {
    /// The point lies in the rectangle, all four edges included.
    pub open spec fn covers(&self, point: ScreenPoint) -> bool {
        &&& self.x <= point.x <= self.x + self.width
        &&& self.y <= point.y <= self.y + self.height
    }

    /// The point lies in the rectangle and on none of its edges.
    pub open spec fn covers_strictly(&self, point: ScreenPoint) -> bool {
        &&& self.x < point.x < self.x + self.width
        &&& self.y < point.y < self.y + self.height
    }

    /// The two rectangles share at most edge points.
    pub open spec fn apart_from(&self, other: MonitorGeometry) -> bool {
        ||| self.x + self.width <= other.x
        ||| other.x + other.width <= self.x
        ||| self.y + self.height <= other.y
        ||| other.y + other.height <= self.y
    }

    /// Whether the point lies in the rectangle, all four edges included.
    pub fn contains(&self, point: ScreenPoint) -> (inside: bool)
        ensures
            inside == self.covers(point),
    {
        let px: i64 = point.x as i64;
        let py: i64 = point.y as i64;
        let left: i64 = self.x as i64;
        let top: i64 = self.y as i64;
        let right: i64 = left + self.width as i64;
        let bottom: i64 = top + self.height as i64;
        left <= px && px <= right && top <= py && py <= bottom
    }
}

/// `found` is the answer for `point`: the lowest index of a display that
/// covers it, or nothing when no display does.
pub open spec fn resolves_to(
    monitors: Seq<MonitorGeometry>,
    point: ScreenPoint,
    found: Option<usize>,
) -> bool {
    match found {
        Some(i) => {
            &&& i < monitors.len()
            &&& monitors[i as int].covers(point)
            &&& forall|j: int| 0 <= j < i ==> !(#[trigger] monitors[j]).covers(point)
        },
        None => forall|j: int| 0 <= j < monitors.len() ==> !(#[trigger] monitors[j]).covers(point),
    }
}

/// Finds the display under `point`: the first one in enumeration order whose
/// rectangle covers it, edges included. `None` means that no display covers
/// the point, which happens while the display topology changes.
pub fn resolve(point: ScreenPoint, monitors: &[MonitorGeometry]) -> (found: Option<usize>)
    ensures
        resolves_to(monitors@, point, found),
{
    let mut i: usize = 0;
    while i < monitors.len()
        invariant
            i <= monitors.len(),
            forall|j: int| 0 <= j < i ==> !(#[trigger] monitors@[j]).covers(point),
        decreases monitors.len() - i,
    {
        if monitors[i].contains(point) {
            return Some(i);
        }
        i += 1;
    }
    None
}

/// At most one answer fits a point and a list of displays.
pub proof fn lemma_resolve_unique(
    monitors: Seq<MonitorGeometry>,
    point: ScreenPoint,
    a: Option<usize>,
    b: Option<usize>,
)
    requires
        resolves_to(monitors, point, a),
        resolves_to(monitors, point, b),
    ensures
        a == b,
{
    match (a, b) {
        (Some(i), Some(j)) => {
            if i < j {
                assert(monitors[i as int].covers(point));
            } else if j < i {
                assert(monitors[j as int].covers(point));
            }
        },
        (Some(i), None) => {
            assert(monitors[i as int].covers(point));
        },
        (None, Some(j)) => {
            assert(monitors[j as int].covers(point));
        },
        (None, None) => {},
    }
}

/// A point strictly inside display `i` resolves to `i`, provided that the
/// displays before it share at most edge points with it.
pub proof fn lemma_resolve_strictly_inside(
    monitors: Seq<MonitorGeometry>,
    point: ScreenPoint,
    i: usize,
    found: Option<usize>,
)
    requires
        i < monitors.len(),
        monitors[i as int].covers_strictly(point),
        forall|j: int| 0 <= j < i ==> (#[trigger] monitors[j]).apart_from(monitors[i as int]),
        resolves_to(monitors, point, found),
    ensures
        found == Some(i),
{
    assert forall|j: int| 0 <= j < i implies !(#[trigger] monitors[j]).covers(point) by {
        assert(monitors[j].apart_from(monitors[i as int]));
    }
    lemma_resolve_unique(monitors, point, found, Some(i));
}

/// A point on an edge that two displays share resolves to a display that
/// comes no later than either of them; where no earlier display covers the
/// point, it is the lower-indexed of the two.
pub proof fn lemma_resolve_shared_edge(
    monitors: Seq<MonitorGeometry>,
    point: ScreenPoint,
    i: usize,
    j: usize,
    found: Option<usize>,
)
    requires
        i < j < monitors.len(),
        monitors[i as int].covers(point),
        monitors[j as int].covers(point),
        resolves_to(monitors, point, found),
    ensures
        found is Some,
        found->0 <= i,
        (forall|k: int| 0 <= k < i ==> !(#[trigger] monitors[k]).covers(point)) ==> found == Some(
            i,
        ),
{
    match found {
        Some(k) => {
            if i < k {
                assert(monitors[i as int].covers(point));
            }
        },
        None => {
            assert(monitors[i as int].covers(point));
        },
    }
    if forall|k: int| 0 <= k < i ==> !(#[trigger] monitors[k]).covers(point) {
        lemma_resolve_unique(monitors, point, found, Some(i));
    }
}

} // verus!
