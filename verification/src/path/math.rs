use vstd::prelude::*;
use crate::geom::point::Point;
use crate::path::{Path, PathSegment, PathVerb};
use crate::scalar::Scalar;

verus! {

/// The bit pattern of 0.55191505, the factor by which a radius is scaled to
/// give the distance `d` of an arc's control points from its end points when
/// a circle is drawn as four cubic arcs.
pub const ARC_FACTOR_BITS: u32 = 0x3f0d_4a4e;

/// The five coordinates along one axis at which the four arcs of a circle
/// place their points. For a circle with centre coordinate `c` on this axis,
/// radius `r >= 0` and `d` as above, they are, from low to high, `c + (-r)`,
/// `c + (-d)`, `c + 0`, `c + d` and `c + r`.
#[derive(Copy, Clone, Debug, PartialEq, Eq, Structural)]
pub struct AxisStops {
    pub outer_low: Scalar,
    pub inner_low: Scalar,
    pub middle: Scalar,
    pub inner_high: Scalar,
    pub outer_high: Scalar,
}

/// The leftmost point of the circle, where its outline starts and ends.
pub open spec fn circle_start(x: AxisStops, y: AxisStops) -> Point {
    Point { x: x.outer_low, y: y.middle }
}

/// The three points of arc `k` of the circle, in stored order: two control
/// points and the arc's end. The arcs run from the leftmost point over the
/// lowest `y`, the rightmost point and the highest `y` back to the leftmost.
pub open spec fn circle_arc(x: AxisStops, y: AxisStops, k: int) -> Seq<Point> {
    if k == 0 {
        seq![
            Point { x: x.outer_low, y: y.inner_low },
            Point { x: x.inner_low, y: y.outer_low },
            Point { x: x.middle, y: y.outer_low },
        ]
    } else if k == 1 {
        seq![
            Point { x: x.inner_high, y: y.outer_low },
            Point { x: x.outer_high, y: y.inner_low },
            Point { x: x.outer_high, y: y.middle },
        ]
    } else if k == 2 {
        seq![
            Point { x: x.outer_high, y: y.inner_high },
            Point { x: x.inner_high, y: y.outer_high },
            Point { x: x.middle, y: y.outer_high },
        ]
    } else {
        seq![
            Point { x: x.inner_low, y: y.outer_high },
            Point { x: x.outer_low, y: y.inner_high },
            Point { x: x.outer_low, y: y.middle },
        ]
    }
}

/// The cubic segment of arc `k`, which starts where the arc before it ends.
pub open spec fn circle_cubic(x: AxisStops, y: AxisStops, k: int) -> PathSegment {
    let from = if k == 0 {
        circle_start(x, y)
    } else {
        circle_arc(x, y, k - 1)[2]
    };
    let arc = circle_arc(x, y, k);
    PathSegment::Cubic { from, ctrl1: arc[0], ctrl2: arc[1], to: arc[2] }
}

/// The thirteen points that a circle adds to a path.
pub open spec fn circle_points(x: AxisStops, y: AxisStops) -> Seq<Point> {
    seq![circle_start(x, y)] + circle_arc(x, y, 0) + circle_arc(x, y, 1) + circle_arc(x, y, 2)
        + circle_arc(x, y, 3)
}

/// The kinds of the six commands that a circle adds to a path.
pub open spec fn circle_verbs() -> Seq<PathVerb> {
    seq![
        PathVerb::Move,
        PathVerb::Cubic,
        PathVerb::Cubic,
        PathVerb::Cubic,
        PathVerb::Cubic,
        PathVerb::Close,
    ]
}

/// The six segments of a circle: a move to the leftmost point, four cubic
/// arcs of a quarter turn each, and a close.
pub open spec fn circle_segments(x: AxisStops, y: AxisStops) -> Seq<PathSegment> {
    seq![
        PathSegment::Move { to: circle_start(x, y) },
        circle_cubic(x, y, 0),
        circle_cubic(x, y, 1),
        circle_cubic(x, y, 2),
        circle_cubic(x, y, 3),
        PathSegment::Close,
    ]
}

/// The outline of a circle is a closed loop: its last arc ends at the point
/// that its move starts from.
pub proof fn lemma_circle_closed(x: AxisStops, y: AxisStops)
    ensures
        circle_segments(x, y)[4].end() == circle_segments(x, y)[0].end(),
        circle_segments(x, y)[4].end() == Some(circle_start(x, y)),
{
}

/// Appends the outline of a circle as a closed subpath of four cubic arcs,
/// with its points at the stops `x` and `y` along the two axes.
pub fn add_circle(path: &mut Path, x: AxisStops, y: AxisStops)
    ensures
        final(path).well_formed(),
        final(path).verbs() == old(path).verbs() + circle_verbs(),
        final(path).points() == old(path).points() + circle_points(x, y),
        final(path).segments() == old(path).segments() + circle_segments(x, y),
{
    let start = Point::new(x.outer_low, y.middle);
    path.move_to(start);

    let ctrl_0 = Point::new(x.outer_low, y.inner_low);
    let ctrl_1 = Point::new(x.inner_low, y.outer_low);
    let mid = Point::new(x.middle, y.outer_low);
    path.cubic_to(ctrl_0, ctrl_1, mid);

    let ctrl_0 = Point::new(x.inner_high, y.outer_low);
    let ctrl_1 = Point::new(x.outer_high, y.inner_low);
    let mid = Point::new(x.outer_high, y.middle);
    path.cubic_to(ctrl_0, ctrl_1, mid);

    let ctrl_0 = Point::new(x.outer_high, y.inner_high);
    let ctrl_1 = Point::new(x.inner_high, y.outer_high);
    let mid = Point::new(x.middle, y.outer_high);
    path.cubic_to(ctrl_0, ctrl_1, mid);

    let ctrl_0 = Point::new(x.inner_low, y.outer_high);
    let ctrl_1 = Point::new(x.outer_low, y.inner_high);
    let mid = Point::new(x.outer_low, y.middle);
    path.cubic_to(ctrl_0, ctrl_1, mid);

    path.close();

    assert(final(path).verbs() =~= old(path).verbs() + circle_verbs());
    assert(final(path).points() =~= old(path).points() + circle_points(x, y));
    assert(final(path).segments() =~= old(path).segments() + circle_segments(x, y));
}

} // verus!
