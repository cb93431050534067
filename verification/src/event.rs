use vstd::prelude::*;
use crate::geom::point::Point;
use crate::path::{Path, PathSegment};

verus! {

/// What a tessellator is fed: the segments of a path with the ends of its
/// subpaths made explicit.
#[derive(Copy, Clone, Debug, PartialEq, Eq, Structural)]
pub enum PathEvent {
    /// A subpath begins at `at`.
    Begin { at: Point },
    Line { from: Point, to: Point },
    Quadratic { from: Point, ctrl: Point, to: Point },
    Cubic { from: Point, ctrl1: Point, ctrl2: Point, to: Point },
    /// The subpath that began at `first` ends at `last`; `close` tells whether
    /// an edge leads back from `last` to `first`.
    End { last: Point, first: Point, close: bool },
}

/// Where the subpath that is open after `segs` began: the target of the last
/// move among them, if there is one.
pub open spec fn subpath_start(segs: Seq<PathSegment>) -> Option<Point>
    decreases segs.len(),
{
    if segs.len() == 0 {
        None
    } else {
        match segs.last() {
            PathSegment::Move { to } => Some(to),
            _ => subpath_start(segs.drop_last()),
        }
    }
}

/// The end of the last among `segs` that has one, if there is one.
pub open spec fn last_end(segs: Seq<PathSegment>) -> Option<Point>
    decreases segs.len(),
{
    if segs.len() == 0 {
        None
    } else {
        match segs.last().end() {
            Some(to) => Some(to),
            None => last_end(segs.drop_last()),
        }
    }
}

/// The event of segment `seg` when the open subpath began at `first` and the
/// last segment with an end ended at `last`. For a close, both must be there.
pub open spec fn event_of(seg: PathSegment, first: Option<Point>, last: Option<Point>) -> PathEvent
    recommends
        seg is Close ==> first is Some && last is Some,
{
    match seg {
        PathSegment::Move { to } => PathEvent::Begin { at: to },
        PathSegment::Line { from, to } => PathEvent::Line { from, to },
        PathSegment::Quadratic { from, ctrl, to } => PathEvent::Quadratic { from, ctrl, to },
        PathSegment::Cubic { from, ctrl1, ctrl2, to } => PathEvent::Cubic { from, ctrl1, ctrl2, to },
        PathSegment::Close => PathEvent::End { last: last.unwrap(), first: first.unwrap(), close: true },
    }
}

/// Where the open subpath began once `seg` has been passed.
pub open spec fn start_after(seg: PathSegment, first: Option<Point>) -> Option<Point> {
    match seg {
        PathSegment::Move { to } => Some(to),
        _ => first,
    }
}

/// The last end once `seg` has been passed.
pub open spec fn end_after(seg: PathSegment, last: Option<Point>) -> Option<Point> {
    match seg.end() {
        Some(to) => Some(to),
        None => last,
    }
}

/// Every close among `segs` has something to close: a move came before it.
pub open spec fn closes_follow_moves(segs: Seq<PathSegment>) -> bool {
    forall|i: int|
        0 <= i < segs.len() && #[trigger] segs[i] is Close ==> subpath_start(segs.take(i)) is Some
            && last_end(segs.take(i)) is Some
}

/// The event of segment `i` of `segs`.
pub open spec fn event_at(segs: Seq<PathSegment>, i: int) -> PathEvent {
    event_of(segs[i], subpath_start(segs.take(i)), last_end(segs.take(i)))
}

/// The event that ends a subpath left open at the end of `segs`: there is one
/// where the last segment is no close and a move came before it.
pub open spec fn trailing_end(segs: Seq<PathSegment>) -> Seq<PathEvent> {
    if segs.len() > 0 && !(segs.last() is Close) && subpath_start(segs) is Some && last_end(segs) is Some {
        seq![
            PathEvent::End {
                last: last_end(segs).unwrap(),
                first: subpath_start(segs).unwrap(),
                close: false,
            },
        ]
    } else {
        Seq::empty()
    }
}

/// The events of a whole path: one per segment, in order, and after them the
/// end of a subpath that was left open.
pub open spec fn events_of(segs: Seq<PathSegment>) -> Seq<PathEvent> {
    Seq::new(segs.len(), |i: int| event_at(segs, i)) + trailing_end(segs)
}

/// Turns one segment into its event and advances the two points that are
/// kept between segments: where the open subpath began, and the last end.
pub fn segment_event(
    seg: PathSegment,
    first_pt: &mut Option<Point>,
    last_pt: &mut Option<Point>,
) -> (event: PathEvent)
    requires
        seg is Close ==> *old(first_pt) is Some && *old(last_pt) is Some,
    ensures
        event == event_of(seg, *old(first_pt), *old(last_pt)),
        *final(first_pt) == start_after(seg, *old(first_pt)),
        *final(last_pt) == end_after(seg, *old(last_pt)),
{
    match seg {
        PathSegment::Move { to } => {
            *first_pt = Some(to);
            *last_pt = Some(to);
            PathEvent::Begin { at: to }
        },
        PathSegment::Line { from, to } => {
            *last_pt = Some(to);
            PathEvent::Line { from, to }
        },
        PathSegment::Quadratic { from, ctrl, to } => {
            *last_pt = Some(to);
            PathEvent::Quadratic { from, ctrl, to }
        },
        PathSegment::Cubic { from, ctrl1, ctrl2, to } => {
            *last_pt = Some(to);
            PathEvent::Cubic { from, ctrl1, ctrl2, to }
        },
        PathSegment::Close => {
            let last = (*last_pt).unwrap();
            let first = (*first_pt).unwrap();
            PathEvent::End { last, first, close: true }
        },
    }
}

/// The events of `path`, or `None` where the path holds a close that no move
/// came before.
pub fn path_events(path: &Path) -> (out: Option<Vec<PathEvent>>)
    ensures
        out is Some <==> closes_follow_moves(path.segments()),
        out is Some ==> out.unwrap()@ == events_of(path.segments()),
{
    let ghost segs = path.segments();
    let mut walk = path.iter();
    let mut first_pt: Option<Point> = None;
    let mut last_pt: Option<Point> = None;
    let mut last_seg: Option<PathSegment> = None;
    let mut events: Vec<PathEvent> = Vec::new();
    loop
        invariant
            segs == path.segments(),
            walk.path() == *path,
            walk.position() <= segs.len(),
            first_pt == subpath_start(segs.take(walk.position() as int)),
            last_pt == last_end(segs.take(walk.position() as int)),
            last_seg == if walk.position() == 0 {
                None
            } else {
                Some(segs[walk.position() - 1])
            },
            closes_follow_moves(segs.take(walk.position() as int)),
            events@ == Seq::new(walk.position(), |i: int| event_at(segs, i)),
        decreases segs.len() - walk.position(),
    {
        let ghost k = walk.position() as int;
        match walk.next() {
            Some(seg) => {
                proof {
                    assert(segs.take(k + 1).drop_last() =~= segs.take(k));
                    assert(segs.take(k + 1).last() == segs[k]);
                }
                if let PathSegment::Close = seg {
                    if first_pt.is_none() || last_pt.is_none() {
                        return None;
                    }
                }
                let event = segment_event(seg, &mut first_pt, &mut last_pt);
                events.push(event);
                last_seg = Some(seg);
                proof {
                    assert(events@ =~= Seq::new((k + 1) as nat, |i: int| event_at(segs, i)));
                    assert forall|i: int|
                        0 <= i < k + 1 && #[trigger] segs.take(k + 1)[i] is Close implies subpath_start(
                        segs.take(k + 1).take(i),
                    ) is Some && last_end(segs.take(k + 1).take(i)) is Some by {
                        assert(segs.take(k + 1).take(i) =~= segs.take(i));
                        if i < k {
                            assert(segs.take(k)[i] is Close);
                            assert(segs.take(k).take(i) =~= segs.take(i));
                        }
                    }
                }
            },
            None => {
                proof {
                    assert(segs.take(k) =~= segs);
                }
                match (last_seg, last_pt, first_pt) {
                    (Some(PathSegment::Close), _, _) => {},
                    (Some(_), Some(last), Some(first)) => {
                        events.push(PathEvent::End { last, first, close: false });
                    },
                    _ => {},
                }
                assert(events@ =~= events_of(segs));
                return Some(events);
            },
        }
    }
}

} // verus!
