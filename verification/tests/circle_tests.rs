use dauber::geom::point::Point;
use dauber::path::math::{add_circle, AxisStops, ARC_FACTOR_BITS};
use dauber::path::{Path, PathSegment};
use dauber::scalar::Scalar;

fn s(v: f32) -> Scalar {
    Scalar::from_bits(v.to_bits())
}

fn pt(x: f32, y: f32) -> Point {
    Point::new(s(x), s(y))
}

fn stops(c: f32, radius: f32) -> AxisStops {
    let radius = radius.abs();
    let d = radius * f32::from_bits(ARC_FACTOR_BITS);
    AxisStops {
        outer_low: s(c + -radius),
        inner_low: s(c + -d),
        middle: s(c + 0.0),
        inner_high: s(c + d),
        outer_high: s(c + radius),
    }
}

#[test]
fn arc_factor_is_the_four_arc_constant() {
    assert_eq!(ARC_FACTOR_BITS, 0.55191505f32.to_bits());
}

#[test]
fn circle_of_radius_ten_is_a_closed_loop_of_four_arcs() {
    let mut path = Path::new();
    add_circle(&mut path, stops(0., 10.), stops(0., 10.));
    let segs = path.to_segments();
    let d = 10.0f32 * 0.55191505f32;
    assert_eq!(
        segs,
        vec![
            PathSegment::Move { to: pt(-10., 0.) },
            PathSegment::Cubic { from: pt(-10., 0.), ctrl1: pt(-10., -d), ctrl2: pt(-d, -10.), to: pt(0., -10.) },
            PathSegment::Cubic { from: pt(0., -10.), ctrl1: pt(d, -10.), ctrl2: pt(10., -d), to: pt(10., 0.) },
            PathSegment::Cubic { from: pt(10., 0.), ctrl1: pt(10., d), ctrl2: pt(d, 10.), to: pt(0., 10.) },
            PathSegment::Cubic { from: pt(0., 10.), ctrl1: pt(-d, 10.), ctrl2: pt(-10., d), to: pt(-10., 0.) },
            PathSegment::Close,
        ]
    );
    match (segs[0], segs[4]) {
        (PathSegment::Move { to: start }, PathSegment::Cubic { to: end, .. }) => assert_eq!(start, end),
        _ => panic!("a circle starts with a move and ends its arcs with a cubic"),
    }
}

#[test]
fn negative_radius_gives_the_same_circle() {
    let mut a = Path::new();
    a.add_circle(stops(500., 100.), stops(200., 100.));
    let mut b = Path::new();
    b.add_circle(stops(500., -100.), stops(200., -100.));
    assert_eq!(a.to_segments(), b.to_segments());
    assert_eq!(a.to_segments()[0], PathSegment::Move { to: pt(400., 200.) });
}

#[test]
fn circle_of_radius_zero_is_a_degenerate_closed_path() {
    let mut path = Path::new();
    path.add_circle(stops(3., 0.), stops(4., 0.));
    let p = pt(3., 4.);
    let arc = PathSegment::Cubic { from: p, ctrl1: p, ctrl2: p, to: p };
    assert_eq!(
        path.to_segments(),
        vec![PathSegment::Move { to: p }, arc, arc, arc, arc, PathSegment::Close]
    );
}

#[test]
fn circle_is_appended_after_what_the_path_holds() {
    let mut path = Path::new();
    path.move_to(pt(1., 1.));
    path.line_to(pt(2., 2.));
    path.add_circle(stops(0., 1.), stops(0., 1.));
    let segs = path.to_segments();
    assert_eq!(segs.len(), 8);
    assert_eq!(segs[1], PathSegment::Line { from: pt(1., 1.), to: pt(2., 2.) });
    assert_eq!(segs[2], PathSegment::Move { to: pt(-1., 0.) });
    assert_eq!(segs[7], PathSegment::Close);
}
