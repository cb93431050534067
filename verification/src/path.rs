use vstd::prelude::*;
use crate::geom::point::Point;
use crate::scalar::Scalar;

use crate::path::math::{add_circle, circle_points, circle_segments, circle_verbs, AxisStops};

pub mod math;

verus! {

/// The kind of a path command. Each kind consumes a fixed number of points.
#[derive(Copy, Clone, Debug, PartialEq, Eq, Structural)]
pub enum PathVerb {
    /// Starts a subpath; one point.
    Move,
    /// A straight line; one point.
    Line,
    /// A quadratic curve; two points.
    Quad,
    /// A cubic curve; three points.
    Cubic,
    /// Closes the current subpath; no points.
    Close,
}

impl PathVerb {
    /// The number of points that a command of this kind consumes.
    pub open spec fn arity(self) -> nat {
        match self {
            PathVerb::Move => 1,
            PathVerb::Line => 1,
            PathVerb::Quad => 2,
            PathVerb::Cubic => 3,
            PathVerb::Close => 0,
        }
    }

    /// The number of points that a command of this kind consumes.
    pub fn point_count(self) -> (n: usize)
        ensures
            n == self.arity(),
    {
        match self {
            PathVerb::Move => 1,
            PathVerb::Line => 1,
            PathVerb::Quad => 2,
            PathVerb::Cubic => 3,
            PathVerb::Close => 0,
        }
    }
}

/// How the inside of a path is told from its outside.
#[derive(Copy, Clone, Debug, PartialEq, Eq, Structural)]
pub enum PathFillType {
    EvenOdd,
    Winding,
    InverseEvenOdd,
    InverseWinding,
}

/// One command of a path together with the point it starts from.
#[derive(Copy, Clone, Debug, PartialEq, Eq, Structural)]
pub enum PathSegment {
    Move { to: Point },
    Line { from: Point, to: Point },
    Quadratic { from: Point, ctrl: Point, to: Point },
    Cubic { from: Point, ctrl1: Point, ctrl2: Point, to: Point },
    Close,
}

impl PathSegment {
    /// The kind of command that this segment was reconstructed from.
    pub open spec fn verb(self) -> PathVerb {
        match self {
            PathSegment::Move { .. } => PathVerb::Move,
            PathSegment::Line { .. } => PathVerb::Line,
            PathSegment::Quadratic { .. } => PathVerb::Quad,
            PathSegment::Cubic { .. } => PathVerb::Cubic,
            PathSegment::Close => PathVerb::Close,
        }
    }

    /// The point that this segment starts from, where it carries one.
    pub open spec fn start(self) -> Option<Point> {
        match self {
            PathSegment::Move { .. } => None,
            PathSegment::Line { from, .. } => Some(from),
            PathSegment::Quadratic { from, .. } => Some(from),
            PathSegment::Cubic { from, .. } => Some(from),
            PathSegment::Close => None,
        }
    }

    /// The point that this segment ends at, where it carries one.
    pub open spec fn end(self) -> Option<Point> {
        match self {
            PathSegment::Move { to } => Some(to),
            PathSegment::Line { to, .. } => Some(to),
            PathSegment::Quadratic { to, .. } => Some(to),
            PathSegment::Cubic { to, .. } => Some(to),
            PathSegment::Close => None,
        }
    }
}

/// The number of points that the commands `verbs` consume together.
pub open spec fn consumed(verbs: Seq<PathVerb>) -> nat
    decreases verbs.len(),
{
    if verbs.len() == 0 {
        0
    } else {
        consumed(verbs.drop_last()) + verbs.last().arity()
    }
}

/// The point last reached once the first `n` of `points` have been consumed:
/// the origin while none has been.
pub open spec fn reached(points: Seq<Point>, n: nat) -> Point {
    if n == 0 {
        Point::origin()
    } else {
        points[n - 1]
    }
}

/// The segment of a command of kind `verb` whose points begin at index `at` of
/// `points`.
pub open spec fn segment_from(verb: PathVerb, points: Seq<Point>, at: nat) -> PathSegment {
    let from = reached(points, at);
    match verb {
        PathVerb::Move => PathSegment::Move { to: points[at as int] },
        PathVerb::Line => PathSegment::Line { from, to: points[at as int] },
        PathVerb::Quad => PathSegment::Quadratic { from, ctrl: points[at as int], to: points[at as int + 1] },
        PathVerb::Cubic => PathSegment::Cubic {
            from,
            ctrl1: points[at as int],
            ctrl2: points[at as int + 1],
            to: points[at as int + 2],
        },
        PathVerb::Close => PathSegment::Close,
    }
}

/// The segment of command `i`: its points begin where the commands before it
/// stopped consuming.
pub open spec fn segment_at(verbs: Seq<PathVerb>, points: Seq<Point>, i: int) -> PathSegment {
    segment_from(verbs[i], points, consumed(verbs.take(i)))
}

/// The segments of a whole path, one per command and in command order.
pub open spec fn segments_of(verbs: Seq<PathVerb>, points: Seq<Point>) -> Seq<PathSegment> {
    Seq::new(verbs.len(), |i: int| segment_at(verbs, points, i))
}

/// The point at which a walk over `segs` stands at its end: the end of the
/// last segment that has one, or the origin.
pub open spec fn end_point(segs: Seq<PathSegment>) -> Point
    decreases segs.len(),
{
    if segs.len() == 0 {
        Point::origin()
    } else {
        match segs.last().end() {
            Some(to) => to,
            None => end_point(segs.drop_last()),
        }
    }
}

/// One more command consumes its own arity on top of what came before.
pub proof fn lemma_consumed_step(verbs: Seq<PathVerb>, i: int)
    requires
        0 <= i < verbs.len(),
    ensures
        consumed(verbs.take(i + 1)) == consumed(verbs.take(i)) + verbs[i].arity(),
{
    assert(verbs.take(i + 1).drop_last() =~= verbs.take(i));
}

/// A prefix of the commands consumes no more points than a longer prefix.
pub proof fn lemma_consumed_monotone(verbs: Seq<PathVerb>, i: int, j: int)
    requires
        0 <= i <= j <= verbs.len(),
    ensures
        consumed(verbs.take(i)) <= consumed(verbs.take(j)),
    decreases j - i,
{
    if i < j {
        lemma_consumed_step(verbs, j - 1);
        lemma_consumed_monotone(verbs, i, j - 1);
    }
}

/// Appending a command and its points leaves the earlier segments as they
/// were and adds the new command's segment, which starts where the old
/// points end.
pub proof fn lemma_segments_push(
    verbs: Seq<PathVerb>,
    points: Seq<Point>,
    verb: PathVerb,
    extra: Seq<Point>,
)
    requires
        consumed(verbs) == points.len(),
        extra.len() == verb.arity(),
    ensures
        consumed(verbs.push(verb)) == (points + extra).len(),
        segments_of(verbs.push(verb), points + extra) == segments_of(verbs, points).push(
            segment_from(verb, points + extra, points.len()),
        ),
{
    let verbs2 = verbs.push(verb);
    let points2 = points + extra;
    assert(verbs2.drop_last() =~= verbs);
    assert(verbs.take(verbs.len() as int) =~= verbs);
    assert(verbs2.take(verbs.len() as int) =~= verbs);
    let left = segments_of(verbs2, points2);
    let right = segments_of(verbs, points).push(segment_from(verb, points2, points.len()));
    assert forall|i: int| 0 <= i < left.len() implies left[i] == right[i] by {
        if i < verbs.len() {
            assert(verbs2.take(i) =~= verbs.take(i));
            lemma_consumed_step(verbs, i);
            lemma_consumed_monotone(verbs, i + 1, verbs.len() as int);
        }
    }
    assert(left =~= right);
}

/// A walk over the first `i` segments of a well-formed path stands at the
/// last point that the first `i` commands consumed.
pub proof fn lemma_end_point_reached(verbs: Seq<PathVerb>, points: Seq<Point>, i: int)
    requires
        consumed(verbs) == points.len(),
        0 <= i <= verbs.len(),
    ensures
        end_point(segments_of(verbs, points).take(i)) == reached(points, consumed(verbs.take(i))),
    decreases i,
{
    let segs = segments_of(verbs, points);
    if i > 0 {
        lemma_end_point_reached(verbs, points, i - 1);
        lemma_consumed_step(verbs, i - 1);
        lemma_consumed_monotone(verbs, i, verbs.len() as int);
        assert(verbs.take(verbs.len() as int) =~= verbs);
        assert(segs.take(i).drop_last() =~= segs.take(i - 1));
        assert(segs.take(i).last() == segment_at(verbs, points, i - 1));
    } else {
        assert(verbs.take(0) =~= Seq::<PathVerb>::empty());
    }
}

/// Walks over paths with the same commands and points yield the same
/// segments: a second pass over a path repeats the first.
pub proof fn lemma_passes_agree(
    a: Path,
    b: Path,
    first: Seq<PathSegment>,
    second: Seq<PathSegment>,
)
    requires
        a.verbs() == b.verbs(),
        a.points() == b.points(),
        first == a.segments(),
        second == b.segments(),
    ensures
        first == second,
{
}

/// An append-only list of path commands, stored as two parallel streams: the
/// kinds of the commands, and the points that they consume in order.
///
/// The two streams always agree: the commands together consume exactly the
/// stored points.
#[derive(Debug)]
pub struct Path {
    verb: Vec<PathVerb>,
    points: Vec<Point>,
}

impl Path {
    #[verifier::type_invariant]
    spec fn agrees(&self) -> bool {
        consumed(self.verb@) == self.points@.len()
    }

    /// The kinds of the commands, in the order in which they were appended.
    pub closed spec fn verbs(&self) -> Seq<PathVerb> {
        self.verb@
    }

    /// The points of the commands, in the order in which they are consumed.
    pub closed spec fn points(&self) -> Seq<Point> {
        self.points@
    }

    /// The segments that a walk over this path yields.
    pub open spec fn segments(&self) -> Seq<PathSegment> {
        segments_of(self.verbs(), self.points())
    }

    /// The point that the next command starts from: the last stored point, or
    /// the origin while there is none.
    pub open spec fn current_point(&self) -> Point {
        reached(self.points(), self.points().len())
    }

    /// The two streams agree: the commands consume exactly the stored points.
    /// Every path that this library hands out is well formed.
    pub open spec fn well_formed(&self) -> bool {
        consumed(self.verbs()) == self.points().len()
    }

    /// A walk yields one segment per command, of that command's kind, and each
    /// segment that has a start starts where the walk over the segments before
    /// it stands: at the end of the nearest earlier segment that has one, or at
    /// the origin.
    pub proof fn lemma_segments_chain(&self, i: int)
        requires
            self.well_formed(),
            0 <= i < self.verbs().len(),
        ensures
            self.segments().len() == self.verbs().len(),
            self.segments()[i].verb() == self.verbs()[i],
            self.segments()[i].start() is Some ==> self.segments()[i].start() == Some(
                end_point(self.segments().take(i)),
            ),
    {
        lemma_end_point_reached(self.verbs(), self.points(), i);
    }

    /// The empty path.
    #[inline]
    pub fn new() -> (path: Self)
        ensures
            path.well_formed(),
            path.verbs() == Seq::<PathVerb>::empty(),
            path.points() == Seq::<Point>::empty(),
            path.segments() == Seq::<PathSegment>::empty(),
    {
        let path = Self { verb: Vec::new(), points: Vec::new() };
        assert(path.segments() =~= Seq::<PathSegment>::empty());
        path
    }

    /// Appends one command of kind `verb` together with its points.
    fn append(&mut self, verb: PathVerb, extra: &[Point])
        requires
            extra@.len() == verb.arity(),
        ensures
            final(self).well_formed(),
            final(self).verbs() == old(self).verbs().push(verb),
            final(self).points() == old(self).points() + extra@,
            final(self).segments() == old(self).segments().push(
                segment_from(verb, final(self).points(), old(self).points().len()),
            ),
    {
        proof {
            use_type_invariant(&*self);
            lemma_segments_push(self.verbs(), self.points(), verb, extra@);
        }
        let mut taken = Path { verb: Vec::new(), points: Vec::new() };
        std::mem::swap(self, &mut taken);
        let Path { verb: verbs, points } = taken;
        let mut verbs = verbs;
        let mut points = points;
        let ghost before = points@;
        verbs.push(verb);
        let mut i: usize = 0;
        while i < extra.len()
            invariant
                i <= extra.len(),
                points@ == before + extra@.take(i as int),
            decreases extra.len() - i,
        {
            points.push(extra[i]);
            i += 1;
            assert(points@ =~= before + extra@.take(i as int));
        }
        assert(extra@.take(extra@.len() as int) =~= extra@);
        *self = Path { verb: verbs, points };
    }

    /// Starts a new subpath at `at`.
    pub fn move_to(&mut self, at: Point)
        ensures
            final(self).well_formed(),
            final(self).verbs() == old(self).verbs().push(PathVerb::Move),
            final(self).points() == old(self).points().push(at),
            final(self).segments() == old(self).segments().push(PathSegment::Move { to: at }),
    {
        let extra = [at];
        self.append(PathVerb::Move, extra.as_slice());
        assert(old(self).points() + extra@ =~= old(self).points().push(at));
    }

    /// Appends a straight line from the current point to `to`.
    pub fn line_to(&mut self, to: Point)
        ensures
            final(self).well_formed(),
            final(self).verbs() == old(self).verbs().push(PathVerb::Line),
            final(self).points() == old(self).points().push(to),
            final(self).segments() == old(self).segments().push(
                PathSegment::Line { from: old(self).current_point(), to },
            ),
    {
        let extra = [to];
        self.append(PathVerb::Line, extra.as_slice());
        assert(old(self).points() + extra@ =~= old(self).points().push(to));
    }

    /// Appends a quadratic curve from the current point to `to`, bent towards
    /// `ctrl`.
    pub fn quad_to(&mut self, ctrl: Point, to: Point)
        ensures
            final(self).well_formed(),
            final(self).verbs() == old(self).verbs().push(PathVerb::Quad),
            final(self).points() == old(self).points().push(ctrl).push(to),
            final(self).segments() == old(self).segments().push(
                PathSegment::Quadratic { from: old(self).current_point(), ctrl, to },
            ),
    {
        let extra = [ctrl, to];
        self.append(PathVerb::Quad, extra.as_slice());
        assert(old(self).points() + extra@ =~= old(self).points().push(ctrl).push(to));
    }

    /// Appends a cubic curve from the current point to `to`, bent towards
    /// `ctrl1` and then `ctrl2`.
    pub fn cubic_to(&mut self, ctrl1: Point, ctrl2: Point, to: Point)
        ensures
            final(self).well_formed(),
            final(self).verbs() == old(self).verbs().push(PathVerb::Cubic),
            final(self).points() == old(self).points().push(ctrl1).push(ctrl2).push(to),
            final(self).segments() == old(self).segments().push(
                PathSegment::Cubic { from: old(self).current_point(), ctrl1, ctrl2, to },
            ),
    {
        let extra = [ctrl1, ctrl2, to];
        self.append(PathVerb::Cubic, extra.as_slice());
        assert(old(self).points() + extra@ =~= old(self).points().push(ctrl1).push(ctrl2).push(to));
    }

    /// Closes the current subpath. The current point stays where it is.
    pub fn close(&mut self)
        ensures
            final(self).well_formed(),
            final(self).verbs() == old(self).verbs().push(PathVerb::Close),
            final(self).points() == old(self).points(),
            final(self).segments() == old(self).segments().push(PathSegment::Close),
    {
        let extra: [Point; 0] = [];
        self.append(PathVerb::Close, extra.as_slice());
        assert(old(self).points() + extra@ =~= old(self).points());
    }

    /// Appends the outline of a circle as a closed subpath of four cubic arcs,
    /// with its points at the stops `x` and `y` along the two axes.
    pub fn add_circle(&mut self, x: AxisStops, y: AxisStops)
        ensures
            final(self).well_formed(),
            final(self).verbs() == old(self).verbs() + circle_verbs(),
            final(self).points() == old(self).points() + circle_points(x, y),
            final(self).segments() == old(self).segments() + circle_segments(x, y),
    {
        add_circle(self, x, y)
    }

    /// Starts a walk over the segments of this path. Each call starts a walk
    /// of its own, at the first command and with the origin as current point.
    pub fn iter(&self) -> (walk: Iter<'_>)
        ensures
            self.well_formed(),
            walk.path() == *self,
            walk.position() == 0,
    {
        proof {
            use_type_invariant(self);
            assert(self.verb@.take(0) =~= Seq::<PathVerb>::empty());
        }
        Iter { path: self, verb_pos: 0, point_pos: 0, last: Point::new(Scalar::zero(), Scalar::zero()) }
    }

    /// The segments of this path, one per command and in command order.
    pub fn to_segments(&self) -> (segs: Vec<PathSegment>)
        ensures
            self.well_formed(),
            segs@ == self.segments(),
    {
        let mut walk = self.iter();
        let mut segs: Vec<PathSegment> = Vec::new();
        loop
            invariant
                self.well_formed(),
                walk.path() == *self,
                walk.position() <= self.verbs().len(),
                segs@ == self.segments().take(walk.position() as int),
            decreases self.verbs().len() - walk.position(),
        {
            let ghost before = walk.position();
            match walk.next() {
                Some(seg) => {
                    segs.push(seg);
                    assert(segs@ =~= self.segments().take(before as int + 1));
                },
                None => {
                    assert(segs@ =~= self.segments());
                    return segs;
                },
            }
        }
    }
}

impl View for Path {
    type V = Seq<PathSegment>;

    /// A path is seen as the segments that a walk over it yields.
    open spec fn view(&self) -> Seq<PathSegment> {
        self.segments()
    }
}

impl Clone for Path {
    /// An independent copy of this path, with the same commands and points.
    fn clone(&self) -> (copy: Self)
        ensures
            copy.well_formed(),
            copy.verbs() == self.verbs(),
            copy.points() == self.points(),
            copy.segments() == self.segments(),
    {
        proof {
            use_type_invariant(self);
        }
        let mut verbs: Vec<PathVerb> = Vec::new();
        let mut i: usize = 0;
        while i < self.verb.len()
            invariant
                i <= self.verb.len(),
                verbs@ == self.verb@.take(i as int),
            decreases self.verb.len() - i,
        {
            verbs.push(self.verb[i]);
            i += 1;
            assert(verbs@ =~= self.verb@.take(i as int));
        }
        let mut points: Vec<Point> = Vec::new();
        let mut j: usize = 0;
        while j < self.points.len()
            invariant
                j <= self.points.len(),
                points@ == self.points@.take(j as int),
            decreases self.points.len() - j,
        {
            points.push(self.points[j]);
            j += 1;
            assert(points@ =~= self.points@.take(j as int));
        }
        assert(verbs@ =~= self.verb@);
        assert(points@ =~= self.points@);
        Path { verb: verbs, points }
    }
}

/// A walk over the segments of a path. It remembers how many commands it has
/// passed and the point that the last of them reached.
pub struct Iter<'a> {
    path: &'a Path,
    verb_pos: usize,
    point_pos: usize,
    last: Point,
}

impl<'a> Iter<'a> {
    #[verifier::type_invariant]
    spec fn in_step(&self) -> bool {
        &&& self.path.agrees()
        &&& self.verb_pos <= self.path.verb@.len()
        &&& self.point_pos == consumed(self.path.verb@.take(self.verb_pos as int))
        &&& self.last == reached(self.path.points@, self.point_pos as nat)
    }

    /// The path that is walked.
    pub closed spec fn path(&self) -> Path {
        *self.path
    }

    /// The number of commands that the walk has passed.
    pub closed spec fn position(&self) -> nat {
        self.verb_pos as nat
    }

    /// Yields the segment of the next command, or `None` once every command
    /// has been passed; from then on the walk stays where it is.
    pub fn next(&mut self) -> (seg: Option<PathSegment>)
        ensures
            final(self).path() == old(self).path(),
            old(self).position() <= old(self).path().verbs().len(),
            old(self).position() < old(self).path().verbs().len() ==> {
                &&& seg == Some(old(self).path().segments()[old(self).position() as int])
                &&& final(self).position() == old(self).position() + 1
            },
            old(self).position() == old(self).path().verbs().len() ==> {
                &&& seg is None
                &&& final(self).position() == old(self).position()
            },
    {
        proof {
            use_type_invariant(&*self);
        }
        let path = self.path;
        let at = self.point_pos;
        let from = self.last;
        if self.verb_pos >= path.verb.len() {
            return None;
        }
        let verb = path.verb[self.verb_pos];
        proof {
            lemma_consumed_step(path.verb@, self.verb_pos as int);
            lemma_consumed_monotone(path.verb@, self.verb_pos + 1, path.verb@.len() as int);
            assert(path.verb@.take(path.verb@.len() as int) =~= path.verb@);
        }
        let total: usize = path.points.len();
        assert(at + verb.arity() <= total);
        let n: usize = verb.point_count();
        let seg = match verb {
            PathVerb::Move => PathSegment::Move { to: path.points[at] },
            PathVerb::Line => PathSegment::Line { from, to: path.points[at] },
            PathVerb::Quad => PathSegment::Quadratic {
                from,
                ctrl: path.points[at],
                to: path.points[at + 1],
            },
            PathVerb::Cubic => PathSegment::Cubic {
                from,
                ctrl1: path.points[at],
                ctrl2: path.points[at + 1],
                to: path.points[at + 2],
            },
            PathVerb::Close => PathSegment::Close,
        };
        let last = if n == 0 {
            from
        } else {
            path.points[at + n - 1]
        };
        *self = Iter { path, verb_pos: self.verb_pos + 1, point_pos: at + n, last };
        Some(seg)
    }
}

} // verus!
