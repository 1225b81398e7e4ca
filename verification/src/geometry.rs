//! Paths as sequences of commands, the fluent builder that assembles them,
//! and the nesting rule a path must obey before it can be drawn.

use crate::error::OverlayError;
use crate::primitives::{is_coordinate, CircleDirection, Point, Rect};
use vstd::prelude::*;

verus! {

/// One command of a path.
#[derive(Copy, Clone, Debug, PartialEq, Eq, Structural)]
pub enum GeometryElement {
    /// Opens a sub-path at `start`; `filled` selects fill over stroke-only.
    Start { start: Point, filled: bool },
    /// A straight segment from the current point.
    Line(Point),
    /// A circular arc from the current point to `end_point`.
    Arc { end_point: Point, radius: i32, angle: i32, direction: CircleDirection },
    /// Ends the sub-path; `closed` joins its end back to its start.
    End { closed: bool },
}

impl GeometryElement {
    /// Whether `self` is an arc that takes the long way round to its end
    /// point: an arc does so from an angle of 180 degrees on.
    pub fn is_large_arc(&self) -> (large: bool)
        ensures
            large == (*self matches GeometryElement::Arc { angle, .. } && angle >= 180),
    {
        match self {
            GeometryElement::Arc { angle, .. } => *angle >= 180,
            _ => false,
        }
    }
}

/// Whether `e` may come directly after `p`: after an `End` only a `Start`
/// may come, and after anything else anything but a `Start`.
pub open spec fn may_follow(p: GeometryElement, e: GeometryElement) -> bool {
    if p is End {
        e is Start
    } else {
        !(e is Start)
    }
}

/// Whether the element at position `i` of `s` is in order: the first element
/// opens a sub-path, every other one may follow its predecessor.
pub open spec fn in_order_at(s: Seq<GeometryElement>, i: int) -> bool {
    if i == 0 {
        s[0] is Start
    } else {
        may_follow(s[i - 1], s[i])
    }
}

/// The nesting rule: read from left to right, at most one sub-path is open at
/// a time, `Line` and `Arc` occur only inside one, and none is left open.
pub open spec fn well_nested(s: Seq<GeometryElement>) -> bool {
    &&& forall|i: int| 0 <= i < s.len() ==> #[trigger] in_order_at(s, i)
    &&& s.len() > 0 ==> s.last() is End
}

/// The elements that `hollow(x, y)` leaves behind on `s`.
pub open spec fn spec_hollow(s: Seq<GeometryElement>, x: i32, y: i32) -> Seq<GeometryElement> {
    s.push(GeometryElement::Start { start: Point { x, y }, filled: false })
}

/// The elements that `line(x, y)` leaves behind on `s`.
pub open spec fn spec_line(s: Seq<GeometryElement>, x: i32, y: i32) -> Seq<GeometryElement> {
    s.push(GeometryElement::Line(Point { x, y }))
}

/// The elements that `closed()` leaves behind on `s`.
pub open spec fn spec_closed(s: Seq<GeometryElement>) -> Seq<GeometryElement> {
    s.push(GeometryElement::End { closed: true })
}

/// The elements that one `line` call per point of `pts`, in order, leaves
/// behind on `s`.
pub open spec fn spec_lines(s: Seq<GeometryElement>, pts: Seq<Point>) -> Seq<GeometryElement>
    decreases pts.len(),
{
    if pts.len() == 0 {
        s
    } else {
        spec_line(spec_lines(s, pts.drop_last()), pts.last().x, pts.last().y)
    }
}

/// The closed hollow outline of `rect`, from its minimum corner by way of
/// `(min.x, max.y)`, the maximum corner and `(max.x, min.y)`.
pub open spec fn rectangle_path(rect: Rect) -> Seq<GeometryElement> {
    seq![
        GeometryElement::Start { start: rect.min, filled: false },
        GeometryElement::Line(Point { x: rect.min.x, y: rect.max.y }),
        GeometryElement::Line(rect.max),
        GeometryElement::Line(Point { x: rect.max.x, y: rect.min.y }),
        GeometryElement::End { closed: true },
    ]
}

/// Whether both ends of the horizontal diameter of a circle are coordinates.
pub open spec fn circle_fits(center: Point, radius: i32) -> bool {
    is_coordinate(center.x + radius) && is_coordinate(center.x - radius)
}

/// A full circle as two half arcs in one rotational sense: it opens at
/// `center + (radius, 0)`, sweeps to `center - (radius, 0)` and back.
pub open spec fn circle_path(center: Point, radius: i32) -> Seq<GeometryElement> {
    let east = Point { x: (center.x + radius) as i32, y: center.y };
    let west = Point { x: (center.x - radius) as i32, y: center.y };
    seq![
        GeometryElement::Start { start: east, filled: false },
        GeometryElement::Arc {
            end_point: west,
            radius,
            angle: 0,
            direction: CircleDirection::CounterClockWise,
        },
        GeometryElement::Arc {
            end_point: east,
            radius,
            angle: 0,
            direction: CircleDirection::CounterClockWise,
        },
        GeometryElement::End { closed: true },
    ]
}

/// An ordered sequence of path commands. The builder only accumulates; the
/// nesting rule is checked by [`DrawGeometry::validate`] when the path is
/// drawn.
#[derive(Clone, Debug, PartialEq, Eq)]
pub struct DrawGeometry {
    pub elements: Vec<GeometryElement>,
}

impl View for DrawGeometry {
    type V = Seq<GeometryElement>;

    open spec fn view(&self) -> Seq<GeometryElement> {
        self.elements@
    }
}

impl DrawGeometry {
    /// The empty path.
    pub fn new() -> (g: DrawGeometry)
        ensures
            g@ == Seq::<GeometryElement>::empty(),
    {
        DrawGeometry { elements: Vec::new() }
    }

    fn appended(self, e: GeometryElement) -> (g: DrawGeometry)
        ensures
            g@ == self@.push(e),
    {
        let mut elements = self.elements;
        elements.push(e);
        DrawGeometry { elements }
    }

    /// Opens a stroke-only sub-path at `(x, y)`.
    pub fn hollow(self, x: i32, y: i32) -> (g: DrawGeometry)
        ensures
            g@ == spec_hollow(self@, x, y),
    {
        self.appended(GeometryElement::Start { start: Point { x, y }, filled: false })
    }

    /// Ends the current sub-path and joins it back to its start.
    pub fn closed(self) -> (g: DrawGeometry)
        ensures
            g@ == spec_closed(self@),
    {
        self.appended(GeometryElement::End { closed: true })
    }

    /// Appends a straight segment to `(x, y)`.
    pub fn line(self, x: i32, y: i32) -> (g: DrawGeometry)
        ensures
            g@ == spec_line(self@, x, y),
    {
        self.appended(GeometryElement::Line(Point { x, y }))
    }

    /// Appends the closed hollow outline of `rect`.
    pub fn rectangle(self, rect: &Rect) -> (g: DrawGeometry)
        ensures
            g@ == self@ + rectangle_path(*rect),
            well_nested(self@) ==> well_nested(g@),
    {
        let g = self.hollow(rect.min.x, rect.min.y).line(rect.min.x, rect.max.y).line(
            rect.max.x,
            rect.max.y,
        ).line(rect.max.x, rect.min.y).closed();
        proof {
            assert(g@ =~= self@ + rectangle_path(*rect));
            if well_nested(self@) {
                lemma_rectangle_path_well_nested(*rect);
                lemma_concat_well_nested(self@, rectangle_path(*rect));
            }
        }
        g
    }

    /// Appends a full circle around `position` as two half arcs.
    pub fn circle(self, position: &Point, radius: i32) -> (g: DrawGeometry)
        requires
            circle_fits(*position, radius),
        ensures
            g@ == self@ + circle_path(*position, radius),
            well_nested(self@) ==> well_nested(g@),
    {
        let start_of_circle = Point { x: position.x + radius, y: position.y };
        let half_circle = Point { x: position.x - radius, y: position.y };
        let g = self.appended(
            GeometryElement::Start { start: start_of_circle, filled: false },
        ).appended(
            GeometryElement::Arc {
                end_point: half_circle,
                radius,
                angle: 0,
                direction: CircleDirection::CounterClockWise,
            },
        ).appended(
            GeometryElement::Arc {
                end_point: start_of_circle,
                radius,
                angle: 0,
                direction: CircleDirection::CounterClockWise,
            },
        ).closed();
        proof {
            assert(g@ =~= self@ + circle_path(*position, radius));
            if well_nested(self@) {
                lemma_circle_path_well_nested(*position, radius);
                lemma_concat_well_nested(self@, circle_path(*position, radius));
            }
        }
        g
    }

    /// Checks the nesting rule: `Ok` exactly for a well-nested path,
    /// `MalformedGeometry` otherwise.
    pub fn validate(&self) -> (r: Result<(), OverlayError>)
        ensures
            r is Ok <==> well_nested(self@),
            r is Err ==> r == Err::<(), OverlayError>(OverlayError::MalformedGeometry),
    {
        let n: usize = self.elements.len();
        let mut open: bool = false;
        let mut i: usize = 0;
        while i < n
            invariant
                n == self.elements.len(),
                i <= n,
                forall|j: int| 0 <= j < i ==> #[trigger] in_order_at(self@, j),
                open <==> (i > 0 && !(self@[i - 1] is End)),
            decreases n - i,
        {
            let starts: bool = match self.elements[i] {
                GeometryElement::Start { .. } => true,
                _ => false,
            };
            let ends: bool = match self.elements[i] {
                GeometryElement::End { .. } => true,
                _ => false,
            };
            if starts == open {
                assert(!in_order_at(self@, i as int));
                return Err(OverlayError::MalformedGeometry);
            }
            assert(in_order_at(self@, i as int));
            open = !ends;
            i = i + 1;
        }
        if open {
            Err(OverlayError::MalformedGeometry)
        } else {
            Ok(())
        }
    }
}

/// A well-nested path followed by a well-nested path is well nested.
pub proof fn lemma_concat_well_nested(a: Seq<GeometryElement>, b: Seq<GeometryElement>)
    requires
        well_nested(a),
        well_nested(b),
    ensures
        well_nested(a + b),
{
    let s = a + b;
    assert forall|i: int| 0 <= i < s.len() implies #[trigger] in_order_at(s, i) by {
        if i < a.len() {
            assert(in_order_at(a, i));
        } else {
            assert(in_order_at(b, i - a.len()));
        }
    }
}

/// The outline of any box obeys the nesting rule.
pub proof fn lemma_rectangle_path_well_nested(rect: Rect)
    ensures
        well_nested(rectangle_path(rect)),
{
}

/// The two half arcs of any circle obey the nesting rule.
pub proof fn lemma_circle_path_well_nested(center: Point, radius: i32)
    ensures
        well_nested(circle_path(center, radius)),
{
}


/// What a run of `line` calls does to a path: the elements before stay, and
/// one `Line` per point follows them, in order.
pub proof fn lemma_lines_shape(s: Seq<GeometryElement>, pts: Seq<Point>)
    ensures
        spec_lines(s, pts).len() == s.len() + pts.len(),
        forall|k: int| 0 <= k < s.len() ==> spec_lines(s, pts)[k] == s[k],
        forall|k: int|
            0 <= k < pts.len() ==> spec_lines(s, pts)[s.len() + k] == GeometryElement::Line(
                #[trigger] pts[k],
            ),
    decreases pts.len(),
{
    if pts.len() > 0 {
        let init = pts.drop_last();
        lemma_lines_shape(s, init);
        let r = spec_lines(s, pts);
        assert(r == spec_lines(s, init).push(GeometryElement::Line(pts.last())));
        assert forall|k: int| 0 <= k < pts.len() implies r[s.len() + k]
            == GeometryElement::Line(#[trigger] pts[k]) by {
            if k < init.len() {
                assert(init[k] == pts[k]);
                assert(spec_lines(s, init)[s.len() + k] == GeometryElement::Line(init[k]));
            }
        }
    }
}

/// A sub-path built fluently as `hollow`, any number of `line`s, `closed`
/// appends exactly one `Start`, then one `Line` per point, then exactly one
/// `End`; appended to a well-nested path (the empty one included) it gives a
/// well-nested path, which validation accepts.
pub proof fn lemma_fluent_sub_path(base: Seq<GeometryElement>, x: i32, y: i32, pts: Seq<Point>)
    ensures
        ({
            let r = spec_closed(spec_lines(spec_hollow(base, x, y), pts));
            &&& r.len() == base.len() + pts.len() + 2
            &&& forall|k: int| 0 <= k < base.len() ==> r[k] == base[k]
            &&& r[base.len() as int] == (GeometryElement::Start {
                start: Point { x, y },
                filled: false,
            })
            &&& forall|k: int|
                0 <= k < pts.len() ==> r[base.len() + 1 + k] == GeometryElement::Line(
                    #[trigger] pts[k],
                )
            &&& r.last() == (GeometryElement::End { closed: true })
            &&& forall|k: int|
                base.len() <= k < r.len() ==> ((#[trigger] r[k]) is Start <==> k == base.len())
            &&& forall|k: int|
                base.len() <= k < r.len() ==> ((#[trigger] r[k]) is End <==> k == r.len() - 1)
            &&& well_nested(base) ==> well_nested(r)
        }),
{
    let opened = spec_hollow(base, x, y);
    let r = spec_closed(spec_lines(opened, pts));
    lemma_lines_shape(opened, pts);
    assert forall|k: int| 0 <= k < pts.len() implies r[base.len() + 1 + k]
        == GeometryElement::Line(#[trigger] pts[k]) by {
        assert(spec_lines(opened, pts)[opened.len() + k] == GeometryElement::Line(pts[k]));
    }
    assert forall|k: int| base.len() < k < r.len() - 1 implies (#[trigger] r[k]) is Line by {
        let m = k - base.len() - 1;
        assert(r[base.len() + 1 + m] == GeometryElement::Line(pts[m]));
    }
    assert forall|k: int| 0 <= k < base.len() implies r[k] == base[k] by {
        assert(spec_lines(opened, pts)[k] == opened[k]);
    }
    assert(r[base.len() as int] == opened[base.len() as int]);
    if well_nested(base) {
        assert forall|i: int| 0 <= i < r.len() implies #[trigger] in_order_at(r, i) by {
            if i < base.len() {
                assert(in_order_at(base, i));
                assert(r[i] == base[i]);
                if i > 0 {
                    assert(r[i - 1] == base[i - 1]);
                }
            } else if i == base.len() {
                if i > 0 {
                    assert(base.last() is End);
                    assert(r[i - 1] == base[i - 1]);
                }
            } else {
                if i - 1 > base.len() {
                    assert(r[i - 1] is Line);
                }
                if i < r.len() - 1 {
                    assert(r[i] is Line);
                }
            }
        }
    }
}

/// A `Start` that follows an earlier `Start` with no `End` between the two
/// makes the path malformed.
pub proof fn lemma_start_inside_open_sub_path(s: Seq<GeometryElement>, i: int, j: int)
    requires
        0 <= i < j < s.len(),
        s[i] is Start,
        s[j] is Start,
        forall|k: int| i < k < j ==> !(#[trigger] s[k] is End),
    ensures
        !well_nested(s),
{
    if well_nested(s) {
        assert(in_order_at(s, j));
        if j - 1 > i {
            assert(!(s[j - 1] is End));
        }
    }
}

/// A `Line` or an `Arc` that no `Start` precedes makes the path malformed.
pub proof fn lemma_segment_before_any_start(s: Seq<GeometryElement>, i: int)
    requires
        0 <= i < s.len(),
        s[i] is Line || s[i] is Arc,
        forall|k: int| 0 <= k < i ==> !(#[trigger] s[k] is Start),
    ensures
        !well_nested(s),
{
    if well_nested(s) {
        assert(in_order_at(s, 0));
    }
}

/// In a well-nested path every `Start` has its `End`: a later position holds
/// an `End`, and only `Line` and `Arc` stand between the two.
pub proof fn lemma_start_is_matched(s: Seq<GeometryElement>, i: int) -> (j: int)
    requires
        well_nested(s),
        0 <= i < s.len(),
        s[i] is Start,
    ensures
        i < j < s.len(),
        s[j] is End,
        forall|k: int| i < k < j ==> (#[trigger] s[k]) is Line || s[k] is Arc,
{
    lemma_next_end(s, i, i + 1)
}

/// In a well-nested path every `Line`, `Arc` and `End` belongs to a sub-path:
/// an earlier position holds a `Start`, and only `Line` and `Arc` stand
/// between the two.
pub proof fn lemma_segment_is_enclosed(s: Seq<GeometryElement>, i: int) -> (j: int)
    requires
        well_nested(s),
        0 <= i < s.len(),
        !(s[i] is Start),
    ensures
        0 <= j < i,
        s[j] is Start,
        forall|k: int| j < k < i ==> (#[trigger] s[k]) is Line || s[k] is Arc,
    decreases i,
{
    assert(in_order_at(s, i));
    if s[i - 1] is Start {
        i - 1
    } else {
        lemma_segment_is_enclosed(s, i - 1)
    }
}

proof fn lemma_next_end(s: Seq<GeometryElement>, i: int, from: int) -> (j: int)
    requires
        well_nested(s),
        0 <= i < from <= s.len(),
        s[i] is Start,
        forall|k: int| i < k < from ==> (#[trigger] s[k]) is Line || s[k] is Arc,
    ensures
        i < j < s.len(),
        s[j] is End,
        forall|k: int| i < k < j ==> (#[trigger] s[k]) is Line || s[k] is Arc,
    decreases s.len() - from,
{
    if from == s.len() {
        assert(s.last() is End);
        if s.len() - 1 > i {
            assert(s[s.len() - 1] is Line || s[s.len() - 1] is Arc);
        }
        assert(false);
        from
    } else if s[from] is End {
        from
    } else {
        assert(in_order_at(s, from));
        lemma_next_end(s, i, from + 1)
    }
}

} // verus!
