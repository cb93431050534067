use dauber::geom::point::Point;
use dauber::path::{Path, PathSegment, PathVerb};
use dauber::scalar::Scalar;

fn pt(x: f32, y: f32) -> Point {
    Point::new(Scalar::from_bits(x.to_bits()), Scalar::from_bits(y.to_bits()))
}

#[test]
fn move_line_close_round_trip() {
    let mut path = Path::new();
    path.move_to(pt(0., 0.));
    path.line_to(pt(3., 4.));
    path.close();

    assert_eq!(
        path.to_segments(),
        vec![
            PathSegment::Move { to: pt(0., 0.) },
            PathSegment::Line { from: pt(0., 0.), to: pt(3., 4.) },
            PathSegment::Close,
        ]
    );
}

#[test]
fn empty_path_has_no_segments() {
    let path = Path::new();
    assert_eq!(path.to_segments(), vec![]);
    let mut walk = path.iter();
    assert_eq!(walk.next(), None);
    assert_eq!(walk.next(), None);
}

#[test]
fn walk_yields_one_segment_per_command_then_stops() {
    let mut path = Path::new();
    path.move_to(pt(1., 2.));
    path.quad_to(pt(3., 4.), pt(5., 6.));
    path.cubic_to(pt(7., 8.), pt(9., 10.), pt(11., 12.));
    path.close();

    let mut walk = path.iter();
    assert_eq!(walk.next(), Some(PathSegment::Move { to: pt(1., 2.) }));
    assert_eq!(
        walk.next(),
        Some(PathSegment::Quadratic { from: pt(1., 2.), ctrl: pt(3., 4.), to: pt(5., 6.) })
    );
    assert_eq!(
        walk.next(),
        Some(PathSegment::Cubic {
            from: pt(5., 6.),
            ctrl1: pt(7., 8.),
            ctrl2: pt(9., 10.),
            to: pt(11., 12.),
        })
    );
    assert_eq!(walk.next(), Some(PathSegment::Close));
    assert_eq!(walk.next(), None);
    assert_eq!(walk.next(), None);
}

#[test]
fn first_segment_starts_at_the_origin() {
    let mut path = Path::new();
    path.line_to(pt(3., 4.));
    assert_eq!(
        path.to_segments(),
        vec![PathSegment::Line { from: pt(0., 0.), to: pt(3., 4.) }]
    );

    let mut path = Path::new();
    path.close();
    path.cubic_to(pt(1., 1.), pt(2., 2.), pt(3., 3.));
    assert_eq!(
        path.to_segments(),
        vec![
            PathSegment::Close,
            PathSegment::Cubic { from: pt(0., 0.), ctrl1: pt(1., 1.), ctrl2: pt(2., 2.), to: pt(3., 3.) },
        ]
    );
}

#[test]
fn close_leaves_the_current_point() {
    let mut path = Path::new();
    path.move_to(pt(1., 1.));
    path.line_to(pt(5., 1.));
    path.close();
    path.line_to(pt(9., 9.));
    let segs = path.to_segments();
    assert_eq!(segs.len(), 4);
    assert_eq!(segs[3], PathSegment::Line { from: pt(5., 1.), to: pt(9., 9.) });
}

#[test]
fn a_move_sets_the_current_point() {
    let mut path = Path::new();
    path.move_to(pt(1., 1.));
    path.line_to(pt(2., 2.));
    path.move_to(pt(10., 10.));
    path.line_to(pt(11., 11.));
    let segs = path.to_segments();
    assert_eq!(segs[2], PathSegment::Move { to: pt(10., 10.) });
    assert_eq!(segs[3], PathSegment::Line { from: pt(10., 10.), to: pt(11., 11.) });
}

#[test]
fn each_start_is_the_previous_end() {
    let mut path = Path::new();
    path.move_to(pt(0., 0.));
    path.line_to(pt(100., 50.));
    path.quad_to(pt(60., 70.), pt(50., 200.));
    path.cubic_to(pt(850., 400.), pt(900., 0.), pt(1000., 100.));
    path.line_to(pt(200., 200.));
    path.close();
    let segs = path.to_segments();
    assert_eq!(segs.len(), 6);
    let mut last = pt(0., 0.);
    for seg in segs {
        match seg {
            PathSegment::Move { to } => last = to,
            PathSegment::Line { from, to } => {
                assert_eq!(from, last);
                last = to;
            }
            PathSegment::Quadratic { from, to, .. } => {
                assert_eq!(from, last);
                last = to;
            }
            PathSegment::Cubic { from, to, .. } => {
                assert_eq!(from, last);
                last = to;
            }
            PathSegment::Close => {}
        }
    }
    assert_eq!(last, pt(200., 200.));
}

#[test]
fn two_passes_yield_equal_segments() {
    let mut path = Path::new();
    path.move_to(pt(650., 100.));
    path.cubic_to(pt(850., 400.), pt(900., 0.), pt(1000., 100.));
    path.close();

    let first = path.to_segments();
    let second = path.to_segments();
    assert_eq!(first, second);
    assert_eq!(first.len(), 3);

    let mut a = path.iter();
    let mut b = path.iter();
    assert_eq!(a.next(), Some(first[0]));
    assert_eq!(a.next(), Some(first[1]));
    assert_eq!(b.next(), Some(first[0]));
    assert_eq!(a.next(), Some(first[2]));
    assert_eq!(b.next(), Some(first[1]));
}

#[test]
fn builder_keeps_appending_between_passes() {
    let mut path = Path::new();
    path.move_to(pt(1., 1.));
    assert_eq!(path.to_segments().len(), 1);
    path.line_to(pt(2., 2.));
    assert_eq!(
        path.to_segments(),
        vec![
            PathSegment::Move { to: pt(1., 1.) },
            PathSegment::Line { from: pt(1., 1.), to: pt(2., 2.) },
        ]
    );
}

#[test]
fn a_clone_is_independent() {
    let mut path = Path::new();
    path.move_to(pt(1., 1.));
    path.line_to(pt(2., 2.));
    let mut copy = path.clone();
    assert_eq!(copy.to_segments(), path.to_segments());
    copy.close();
    assert_eq!(copy.to_segments().len(), 3);
    assert_eq!(path.to_segments().len(), 2);
}

#[test]
fn verbs_have_fixed_point_counts() {
    assert_eq!(PathVerb::Move.point_count(), 1);
    assert_eq!(PathVerb::Line.point_count(), 1);
    assert_eq!(PathVerb::Quad.point_count(), 2);
    assert_eq!(PathVerb::Cubic.point_count(), 3);
    assert_eq!(PathVerb::Close.point_count(), 0);
}

#[test]
fn non_finite_coordinates_pass_through() {
    let mut path = Path::new();
    path.move_to(pt(f32::NAN, f32::INFINITY));
    path.line_to(pt(-0.0, f32::NEG_INFINITY));
    assert_eq!(
        path.to_segments(),
        vec![
            PathSegment::Move { to: pt(f32::NAN, f32::INFINITY) },
            PathSegment::Line { from: pt(f32::NAN, f32::INFINITY), to: pt(-0.0, f32::NEG_INFINITY) },
        ]
    );
}
