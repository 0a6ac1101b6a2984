//! Accumulation of the current path: contours built from move, line, curve
//! and rectangle operators, gathered into an outline.
use vstd::prelude::*;

use crate::fixed::{add_spec, fx_add};
use crate::geometry::{Point, Rect};

verus! {

/// A point of a contour: an end point, or a control point of a cubic curve.
#[derive(Clone, Copy, Debug, PartialEq, Eq, Structural)]
pub struct PathPoint {
    pub point: Point,
    pub control: bool,
}

pub open spec fn on_curve(p: Point) -> PathPoint {
    PathPoint { point: p, control: false }
}

pub open spec fn control(p: Point) -> PathPoint {
    PathPoint { point: p, control: true }
}

/// A connected subpath, open or closed.
#[derive(Debug)]
pub struct Contour {
    pub points: Vec<PathPoint>,
    pub closed: bool,
}

pub struct ContourView {
    pub points: Seq<PathPoint>,
    pub closed: bool,
}

impl View for Contour {
    type V = ContourView;

    open spec fn view(&self) -> ContourView {
        ContourView { points: self.points@, closed: self.closed }
    }
}

pub open spec fn empty_contour() -> ContourView {
    ContourView { points: Seq::empty(), closed: false }
}

/// The closed contour along the corners of `r`: its origin, then the corner
/// across its width, the opposite corner, and the corner across its height.
pub open spec fn rect_contour(r: Rect) -> ContourView {
    let x1 = add_spec(r.x as int, r.width as int) as i32;
    let y1 = add_spec(r.y as int, r.height as int) as i32;
    ContourView {
        points: seq![
            on_curve(Point { x: r.x, y: r.y }),
            on_curve(Point { x: x1, y: r.y }),
            on_curve(Point { x: x1, y: y1 }),
            on_curve(Point { x: r.x, y: y1 }),
        ],
        closed: true,
    }
}

impl Contour {
    /// An empty open contour.
    pub fn new() -> (r: Contour)
        ensures
            r@ == empty_contour(),
    {
        Contour { points: Vec::new(), closed: false }
    }

    /// The closed rectangular contour of `r`.
    pub fn from_rect(r: Rect) -> (c: Contour)
        ensures
            c@ == rect_contour(r),
    {
        let x1 = fx_add(r.x, r.width);
        let y1 = fx_add(r.y, r.height);
        let mut points: Vec<PathPoint> = Vec::new();
        points.push(PathPoint { point: Point { x: r.x, y: r.y }, control: false });
        points.push(PathPoint { point: Point { x: x1, y: r.y }, control: false });
        points.push(PathPoint { point: Point { x: x1, y: y1 }, control: false });
        points.push(PathPoint { point: Point { x: r.x, y: y1 }, control: false });
        let c = Contour { points, closed: true };
        assert(c@.points =~= rect_contour(r).points);
        c
    }

    pub fn is_empty(&self) -> (r: bool)
        ensures
            r == (self@.points.len() == 0),
    {
        self.points.len() == 0
    }

    /// Appends an end point.
    pub fn push_endpoint(&mut self, p: Point)
        ensures
            final(self)@ == (ContourView {
                points: old(self)@.points.push(on_curve(p)),
                closed: old(self)@.closed,
            }),
    {
        self.points.push(PathPoint { point: p, control: false });
    }

    /// Appends a cubic curve with control points `c1`, `c2`, ending at `p`.
    pub fn push_cubic(&mut self, c1: Point, c2: Point, p: Point)
        ensures
            final(self)@ == (ContourView {
                points: old(self)@.points.push(control(c1)).push(control(c2)).push(on_curve(p)),
                closed: old(self)@.closed,
            }),
    {
        self.points.push(PathPoint { point: c1, control: true });
        self.points.push(PathPoint { point: c2, control: true });
        self.points.push(PathPoint { point: p, control: false });
    }

    /// Marks the contour closed.
    pub fn close(&mut self)
        ensures
            final(self)@ == (ContourView { points: old(self)@.points, closed: true }),
    {
        self.closed = true;
    }

    /// A copy of this contour.
    pub fn duplicate(&self) -> (r: Contour)
        ensures
            r@ == self@,
    {
        let mut points: Vec<PathPoint> = Vec::new();
        let mut i: usize = 0;
        while i < self.points.len()
            invariant
                i <= self.points@.len(),
                points@ == self.points@.take(i as int),
            decreases self.points@.len() - i,
        {
            points.push(self.points[i]);
            i = i + 1;
            assert(points@ =~= self.points@.take(i as int));
        }
        assert(points@ =~= self.points@);
        Contour { points, closed: self.closed }
    }

    /// Makes the contour empty and open.
    pub fn clear(&mut self)
        ensures
            final(self)@ == empty_contour(),
    {
        self.points = Vec::new();
        self.closed = false;
    }
}

/// An ordered sequence of contours.
#[derive(Debug)]
pub struct Outline {
    pub contours: Vec<Contour>,
}

impl View for Outline {
    type V = Seq<ContourView>;

    open spec fn view(&self) -> Seq<ContourView> {
        self.contours@.map_values(|c: Contour| c@)
    }
}

/// `outline` with `c` appended, unless `c` is empty.
pub open spec fn push_contour_spec(outline: Seq<ContourView>, c: ContourView) -> Seq<ContourView> {
    if c.points.len() == 0 {
        outline
    } else {
        outline.push(c)
    }
}

impl Outline {
    /// An outline without contours.
    pub fn new() -> (r: Outline)
        ensures
            r@ == Seq::<ContourView>::empty(),
    {
        let r = Outline { contours: Vec::new() };
        assert(r@ =~= Seq::<ContourView>::empty());
        r
    }

    /// Appends `c`, unless it is empty.
    pub fn push_contour(&mut self, c: Contour)
        ensures
            final(self)@ == push_contour_spec(old(self)@, c@),
    {
        if !c.is_empty() {
            self.contours.push(c);
            assert(self@ =~= old(self)@.push(c@));
        }
    }

    /// A copy of this outline.
    pub fn duplicate(&self) -> (r: Outline)
        ensures
            r@ == self@,
    {
        let mut contours: Vec<Contour> = Vec::new();
        let mut i: usize = 0;
        while i < self.contours.len()
            invariant
                i <= self.contours@.len(),
                contours@.len() == i,
                forall|j: int| 0 <= j < i ==> (#[trigger] contours@[j])@ == self.contours@[j]@,
            decreases self.contours@.len() - i,
        {
            contours.push(self.contours[i].duplicate());
            i = i + 1;
        }
        let r = Outline { contours };
        assert(r@ =~= self@);
        r
    }

    /// Removes every contour.
    pub fn clear(&mut self)
        ensures
            final(self)@ == Seq::<ContourView>::empty(),
    {
        self.contours = Vec::new();
        assert(self@ =~= Seq::<ContourView>::empty());
    }
}

/// The path under construction: finished contours and the current one.
#[derive(Debug)]
pub struct PathBuilder {
    pub outline: Outline,
    pub contour: Contour,
}

pub struct PathView {
    pub outline: Seq<ContourView>,
    pub contour: ContourView,
}

impl View for PathBuilder {
    type V = PathView;

    open spec fn view(&self) -> PathView {
        PathView { outline: self.outline@, contour: self.contour@ }
    }
}

pub open spec fn empty_path() -> PathView {
    PathView { outline: Seq::empty(), contour: empty_contour() }
}

/// Moves a non-empty current contour into the outline.
pub open spec fn flush_spec(p: PathView) -> PathView {
    if p.contour.points.len() > 0 {
        PathView { outline: p.outline.push(p.contour), contour: empty_contour() }
    } else {
        p
    }
}

pub open spec fn move_spec(p: PathView, q: Point) -> PathView {
    let f = flush_spec(p);
    PathView {
        outline: f.outline,
        contour: ContourView { points: f.contour.points.push(on_curve(q)), closed: f.contour.closed },
    }
}

pub open spec fn line_spec(p: PathView, q: Point) -> PathView {
    PathView {
        outline: p.outline,
        contour: ContourView { points: p.contour.points.push(on_curve(q)), closed: p.contour.closed },
    }
}

pub open spec fn curve_spec(p: PathView, c1: Point, c2: Point, q: Point) -> PathView {
    PathView {
        outline: p.outline,
        contour: ContourView {
            points: p.contour.points.push(control(c1)).push(control(c2)).push(on_curve(q)),
            closed: p.contour.closed,
        },
    }
}

pub open spec fn close_spec(p: PathView) -> PathView {
    PathView { outline: p.outline, contour: ContourView { points: p.contour.points, closed: true } }
}

pub open spec fn rect_spec(p: PathView, r: Rect) -> PathView {
    let f = flush_spec(p);
    PathView { outline: f.outline.push(rect_contour(r)), contour: f.contour }
}

impl PathBuilder {
    /// A builder with no path.
    pub fn new() -> (r: PathBuilder)
        ensures
            r@ == empty_path(),
    {
        PathBuilder { outline: Outline::new(), contour: Contour::new() }
    }

    /// Moves a non-empty current contour into the outline.
    pub fn flush(&mut self)
        ensures
            final(self)@ == flush_spec(old(self)@),
    {
        if !self.contour.is_empty() {
            let mut c = Contour::new();
            std::mem::swap(&mut c, &mut self.contour);
            self.outline.push_contour(c);
        }
    }

    /// Starts a new contour at `p`, after flushing the current one.
    pub fn move_to(&mut self, p: Point)
        ensures
            final(self)@ == move_spec(old(self)@, p),
    {
        self.flush();
        self.contour.push_endpoint(p);
    }

    /// Appends a straight segment to `p`.
    pub fn line_to(&mut self, p: Point)
        ensures
            final(self)@ == line_spec(old(self)@, p),
    {
        self.contour.push_endpoint(p);
    }

    /// Appends a cubic curve.
    pub fn curve_to(&mut self, c1: Point, c2: Point, p: Point)
        ensures
            final(self)@ == curve_spec(old(self)@, c1, c2, p),
    {
        self.contour.push_cubic(c1, c2, p);
    }

    /// Closes the current contour, without flushing it.
    pub fn close(&mut self)
        ensures
            final(self)@ == close_spec(old(self)@),
    {
        self.contour.close();
    }

    /// Flushes, then appends the closed contour of `r` to the outline.
    pub fn rect(&mut self, r: Rect)
        ensures
            final(self)@ == rect_spec(old(self)@, r),
    {
        self.flush();
        self.outline.push_contour(Contour::from_rect(r));
    }

    /// Discards the current contour and the outline.
    pub fn end_path(&mut self)
        ensures
            final(self)@ == empty_path(),
    {
        self.contour.clear();
        self.outline.clear();
    }

    /// Flushes, then hands out the outline and leaves an empty one.
    pub fn take_outline(&mut self) -> (o: Outline)
        ensures
            o@ == flush_spec(old(self)@).outline,
            final(self)@ == (PathView {
                outline: Seq::empty(),
                contour: flush_spec(old(self)@).contour,
            }),
    {
        self.flush();
        let mut o = Outline::new();
        std::mem::swap(&mut o, &mut self.outline);
        o
    }
}

} // verus!
