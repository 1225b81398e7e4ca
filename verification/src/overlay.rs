//! The bookkeeping behind an overlay: which elements are on screen, which
//! backend calls a draw or a removal asks for, and what is undone when the
//! backend fails part-way.
//!
//! Nothing here touches a window. Each operation updates the register and
//! returns the backend calls to make, in order; whoever owns the backend
//! makes them while holding the overlay's lock.

use crate::error::OverlayError;
use crate::geometry::{well_nested, DrawGeometry};
use crate::primitives::{Color, LineStyle, Point, Rect, Stroke};
use vstd::prelude::*;

verus! {

/// Identifier of one displayable element of an overlay.
#[derive(Copy, Clone, Debug, PartialEq, Eq, Structural)]
pub struct IDVisual {
    pub id: u64,
}

/// The size of the surface an element is painted on.
#[derive(Copy, Clone, Debug, PartialEq, Eq, Structural)]
pub enum SurfaceExtent {
    /// As large as the overlay's window.
    Fullscreen,
    /// `width` by `height` device units.
    Sized { width: u32, height: u32 },
}

/// One request to the platform backend.
#[derive(Copy, Clone, Debug, PartialEq, Eq, Structural)]
pub enum BackendCall {
    /// Allocate a fresh surface.
    AllocateSurface { extent: SurfaceExtent },
    /// Stroke the path of the draw call onto the surface.
    PaintPath { stroke: Stroke, line_style: LineStyle },
    /// Set the text of the draw call within `layout`.
    PaintText { color: Color, layout: Rect },
    /// Fill the surface with `color`, then composite `region` of the texture
    /// over it at `alpha` (0 leaves the fill, 255 covers it).
    PaintBitmap { region: Rect, color: Color, alpha: u8 },
    /// Put the surface on screen at `offset` as element `visual`.
    AttachToTree { visual: IDVisual, offset: Point },
    /// Take element `visual` off the screen.
    DetachFromTree { visual: IDVisual },
    /// Publish the pending changes.
    Commit,
}

/// What a successful draw call hands back: the new element and the backend
/// calls that put it on screen.
#[derive(Clone, Debug, PartialEq, Eq)]
pub struct DrawPlan {
    pub visual: IDVisual,
    pub calls: Vec<BackendCall>,
}

/// How many calls of a draw plan have succeeded once the element is attached.
pub const STEPS_THROUGH_ATTACH: usize = 3;

/// A length as a surface extent: nothing below zero, nothing above the
/// largest extent.
pub open spec fn clamped_extent(v: int) -> u32 {
    if v <= 0 {
        0
    } else if v >= u32::MAX {
        u32::MAX
    } else {
        v as u32
    }
}

/// The surface that holds `rect`: as wide and as high as the box, and empty
/// along an axis on which its corners are swapped.
pub open spec fn extent_covering(rect: Rect) -> SurfaceExtent {
    SurfaceExtent::Sized {
        width: clamped_extent(rect.spec_width()),
        height: clamped_extent(rect.spec_height()),
    }
}

/// The backend calls of one draw: allocate, paint, attach, commit.
pub open spec fn draw_calls(
    visual: IDVisual,
    extent: SurfaceExtent,
    offset: Point,
    paint: BackendCall,
) -> Seq<BackendCall> {
    seq![
        BackendCall::AllocateSurface { extent },
        paint,
        BackendCall::AttachToTree { visual, offset },
        BackendCall::Commit,
    ]
}

/// The backend calls of one removal: detach and commit if the element is on
/// screen, nothing if it is not.
pub open spec fn removal_calls(attached: Set<IDVisual>, visual: IDVisual) -> Seq<BackendCall> {
    if attached.contains(visual) {
        seq![BackendCall::DetachFromTree { visual }, BackendCall::Commit]
    } else {
        Seq::empty()
    }
}

/// The backend calls that undo a draw of which only the first `completed`
/// calls succeeded: a removal if the element got attached, nothing if not.
pub open spec fn rollback_calls(
    attached: Set<IDVisual>,
    visual: IDVisual,
    completed: usize,
) -> Seq<BackendCall> {
    if completed >= STEPS_THROUGH_ATTACH {
        removal_calls(attached, visual)
    } else {
        Seq::empty()
    }
}

/// Whether `calls` holds a `Commit` as its last call and nowhere else.
pub open spec fn ends_with_single_commit(calls: Seq<BackendCall>) -> bool {
    &&& calls.len() > 0
    &&& forall|i: int|
        0 <= i < calls.len() ==> ((#[trigger] calls[i]) is Commit <==> i == calls.len() - 1)
}

/// Whether `calls` detaches `visual` at exactly one position and detaches
/// nothing anywhere else.
pub open spec fn detaches_once(calls: Seq<BackendCall>, visual: IDVisual) -> bool {
    exists|i: int|
        {
            &&& 0 <= i < calls.len()
            &&& #[trigger] calls[i] == (BackendCall::DetachFromTree { visual })
            &&& forall|j: int|
                0 <= j < calls.len() && j != i ==> !((#[trigger] calls[j]) is DetachFromTree)
        }
}

/// Whether no call of `calls` detaches anything.
pub open spec fn never_detaches(calls: Seq<BackendCall>) -> bool {
    forall|i: int| 0 <= i < calls.len() ==> !((#[trigger] calls[i]) is DetachFromTree)
}

impl SurfaceExtent {
    /// The surface that holds `rect`.
    pub fn covering(rect: &Rect) -> (e: SurfaceExtent)
        ensures
            e == extent_covering(*rect),
    {
        SurfaceExtent::Sized { width: clamp_extent(rect.width()), height: clamp_extent(rect.height()) }
    }
}

fn clamp_extent(v: i64) -> (e: u32)
    ensures
        e == clamped_extent(v as int),
{
    if v <= 0 {
        0
    } else if v >= 0xffff_ffff {
        u32::MAX
    } else {
        v as u32
    }
}

fn plan_draw(visual: IDVisual, extent: SurfaceExtent, offset: Point, paint: BackendCall) -> (calls:
    Vec<BackendCall>)
    ensures
        calls@ == draw_calls(visual, extent, offset, paint),
{
    let mut calls: Vec<BackendCall> = Vec::new();
    calls.push(BackendCall::AllocateSurface { extent });
    calls.push(paint);
    calls.push(BackendCall::AttachToTree { visual, offset });
    calls.push(BackendCall::Commit);
    assert(calls@ =~= draw_calls(visual, extent, offset, paint));
    calls
}

/// The register of the elements of one overlay. It is the state that the
/// overlay's lock guards.
#[derive(Debug)]
pub struct OverlayImpl {
    visuals: Vec<IDVisual>,
    next_id: u64,
}

impl OverlayImpl {
    /// The elements that are on screen.
    pub closed spec fn attached(&self) -> Set<IDVisual> {
        self.visuals@.to_set()
    }

    /// How many elements have been handed out since the overlay was made.
    pub closed spec fn issued(&self) -> nat {
        self.next_id as nat
    }

    /// The elements are kept in the order in which they were handed out, none
    /// twice, and each was handed out.
    #[verifier::type_invariant]
    spec fn wf(&self) -> bool {
        &&& forall|i: int|
            0 <= i < self.visuals@.len() ==> (#[trigger] self.visuals@[i]).id < self.next_id
        &&& forall|i: int, j: int|
            0 <= i < j < self.visuals@.len() ==> (#[trigger] self.visuals@[i]).id < (
            #[trigger] self.visuals@[j]).id
    }

    /// An overlay with nothing on screen.
    pub fn new() -> (o: OverlayImpl)
        ensures
            o.attached() == Set::<IDVisual>::empty(),
            o.issued() == 0,
    {
        let o = OverlayImpl { visuals: Vec::new(), next_id: 0 };
        assert(o.visuals@.to_set() =~= Set::<IDVisual>::empty());
        o
    }

    /// Whether `visual` is on screen. Only an element that this overlay has
    /// handed out can be.
    pub fn is_attached(&self, visual: &IDVisual) -> (b: bool)
        ensures
            b == self.attached().contains(*visual),
            b ==> visual.id < self.issued(),
    {
        proof {
            use_type_invariant(self);
        }
        self.position(visual).is_some()
    }

    fn position(&self, visual: &IDVisual) -> (at: Option<usize>)
        ensures
            match at {
                Some(i) => i < self.visuals@.len() && self.visuals@[i as int] == *visual,
                None => !self.visuals@.contains(*visual),
            },
    {
        let n: usize = self.visuals.len();
        let mut i: usize = 0;
        while i < n
            invariant
                n == self.visuals@.len(),
                i <= n,
                forall|j: int| 0 <= j < i ==> self.visuals@[j] != *visual,
            decreases n - i,
        {
            if self.visuals[i].id == visual.id {
                return Some(i);
            }
            i = i + 1;
        }
        None
    }

    fn register(&mut self) -> (made: Option<IDVisual>)
        ensures
            match made {
                Some(visual) => {
                    &&& old(self).issued() < u64::MAX
                    &&& visual.id == old(self).issued()
                    &&& !old(self).attached().contains(visual)
                    &&& final(self).attached() == old(self).attached().insert(visual)
                    &&& final(self).issued() == old(self).issued() + 1
                },
                None => old(self).issued() == u64::MAX && *final(self) == *old(self),
            },
    {
        if self.next_id == u64::MAX {
            return None;
        }
        let visual = IDVisual { id: self.next_id };
        proof {
            use_type_invariant(&*self);
            if self.visuals@.contains(visual) {
                let i = choose|i: int| 0 <= i < self.visuals@.len() && self.visuals@[i] == visual;
                assert(self.visuals@[i].id < self.next_id);
            }
            self.visuals@.lemma_push_to_set_commute(visual);
        }
        let mut visuals: Vec<IDVisual> = Vec::new();
        core::mem::swap(&mut self.visuals, &mut visuals);
        visuals.push(visual);
        self.next_id = self.next_id + 1;
        self.visuals = visuals;
        Some(visual)
    }

    /// Draws a path. A malformed path is refused and leaves the register as it
    /// was; so does an overlay that has handed out every identifier. Otherwise
    /// a new element is registered and the plan paints the path on a surface
    /// of the window's size, attaches it at the origin and commits.
    pub fn draw_geometry(
        &mut self,
        geometry: &DrawGeometry,
        stroke: &Stroke,
        line_style: &LineStyle,
    ) -> (r: Result<DrawPlan, OverlayError>)
        ensures
            if well_nested(geometry@) {
                old(self).draws(
                    *final(self),
                    r,
                    SurfaceExtent::Fullscreen,
                    Point { x: 0, y: 0 },
                    BackendCall::PaintPath { stroke: *stroke, line_style: *line_style },
                )
            } else {
                &&& r == Err::<DrawPlan, OverlayError>(OverlayError::MalformedGeometry)
                &&& *final(self) == *old(self)
            },
    {
        match geometry.validate() {
            Err(_) => {
                return Err(OverlayError::MalformedGeometry);
            },
            Ok(_) => {},
        }
        let paint = BackendCall::PaintPath { stroke: *stroke, line_style: *line_style };
        self.draw(SurfaceExtent::Fullscreen, Point { x: 0, y: 0 }, paint)
    }

    /// Draws text within `layout`. The plan paints on a surface that covers
    /// `layout` and attaches it at the box's minimum corner. Fails only on an
    /// overlay that has handed out every identifier.
    pub fn draw_text(&mut self, layout: &Rect, color: &Color) -> (r: Result<
        DrawPlan,
        OverlayError,
    >)
        ensures
            old(self).draws(
                *final(self),
                r,
                extent_covering(*layout),
                layout.min,
                BackendCall::PaintText { color: *color, layout: *layout },
            ),
    {
        let paint = BackendCall::PaintText { color: *color, layout: *layout };
        self.draw(SurfaceExtent::covering(layout), layout.min, paint)
    }

    /// Draws `texture_region` of a texture at `position`, over a fill of
    /// `color` and at `alpha`. The plan paints on a surface that covers the
    /// region and attaches it at `position`. Fails only on an overlay that has
    /// handed out every identifier.
    pub fn draw_texture(
        &mut self,
        position: &Point,
        texture_region: &Rect,
        color: &Color,
        alpha: u8,
    ) -> (r: Result<DrawPlan, OverlayError>)
        ensures
            old(self).draws(
                *final(self),
                r,
                extent_covering(*texture_region),
                *position,
                BackendCall::PaintBitmap { region: *texture_region, color: *color, alpha },
            ),
    {
        let paint = BackendCall::PaintBitmap { region: *texture_region, color: *color, alpha };
        self.draw(SurfaceExtent::covering(texture_region), *position, paint)
    }

    /// What one draw does to the register `self`, leaving `after`: while an
    /// identifier is left, the next one is registered and the plan is the
    /// four calls of a draw for it; when none is left, the draw fails with
    /// `ResourceAllocationFailed` and changes nothing.
    pub open spec fn draws(
        self,
        after: OverlayImpl,
        r: Result<DrawPlan, OverlayError>,
        extent: SurfaceExtent,
        offset: Point,
        paint: BackendCall,
    ) -> bool {
        match r {
            Ok(plan) => {
                &&& self.issued() < u64::MAX
                &&& plan.visual.id == self.issued()
                &&& !self.attached().contains(plan.visual)
                &&& after.attached() == self.attached().insert(plan.visual)
                &&& after.issued() == self.issued() + 1
                &&& plan.calls@ == draw_calls(plan.visual, extent, offset, paint)
            },
            Err(e) => {
                &&& self.issued() == u64::MAX
                &&& after == self
                &&& e == OverlayError::ResourceAllocationFailed
            },
        }
    }

    fn draw(&mut self, extent: SurfaceExtent, offset: Point, paint: BackendCall) -> (r: Result<
        DrawPlan,
        OverlayError,
    >)
        ensures
            old(self).draws(*final(self), r, extent, offset, paint),
    {
        match self.register() {
            Some(visual) => Ok(DrawPlan { visual, calls: plan_draw(visual, extent, offset, paint) }),
            None => Err(OverlayError::ResourceAllocationFailed),
        }
    }

    /// Takes an element off the register. For one that is on screen the
    /// backend is to detach it and commit; for any other nothing is to be
    /// done, so a second removal of the same element is harmless.
    pub fn remove_visual(&mut self, visual: &IDVisual) -> (calls: Vec<BackendCall>)
        ensures
            final(self).attached() == old(self).attached().remove(*visual),
            final(self).issued() == old(self).issued(),
            calls@ == removal_calls(old(self).attached(), *visual),
    {
        let mut calls: Vec<BackendCall> = Vec::new();
        match self.position(visual) {
            Some(i) => {
                proof {
                    use_type_invariant(&*self);
                    lemma_remove_to_set(self.visuals@, i as int);
                }
                let mut visuals: Vec<IDVisual> = Vec::new();
                core::mem::swap(&mut self.visuals, &mut visuals);
                visuals.remove(i);
                self.visuals = visuals;
                calls.push(BackendCall::DetachFromTree { visual: *visual });
                calls.push(BackendCall::Commit);
                assert(calls@ =~= removal_calls(old(self).attached(), *visual));
            },
            None => {
                assert(self.attached().remove(*visual) =~= self.attached());
                assert(calls@ =~= removal_calls(old(self).attached(), *visual));
            },
        }
        calls
    }

    /// Undoes a draw whose plan failed after `completed` of its calls had
    /// succeeded. The element leaves the register whatever happened; the
    /// backend is to detach it and commit only if it got attached.
    pub fn rollback_draw(&mut self, visual: &IDVisual, completed: usize) -> (calls: Vec<
        BackendCall,
    >)
        ensures
            final(self).attached() == old(self).attached().remove(*visual),
            final(self).issued() == old(self).issued(),
            calls@ == rollback_calls(old(self).attached(), *visual, completed),
    {
        let removal = self.remove_visual(visual);
        if completed >= STEPS_THROUGH_ATTACH {
            removal
        } else {
            Vec::new()
        }
    }
}

proof fn lemma_remove_to_set(s: Seq<IDVisual>, i: int)
    requires
        0 <= i < s.len(),
        forall|a: int, b: int| 0 <= a < b < s.len() ==> (#[trigger] s[a]).id < (#[trigger] s[b]).id,
    ensures
        s.remove(i).to_set() =~= s.to_set().remove(s[i]),
        forall|a: int, b: int|
            0 <= a < b < s.remove(i).len() ==> (#[trigger] s.remove(i)[a]).id < (
            #[trigger] s.remove(i)[b]).id,
        forall|a: int| 0 <= a < s.remove(i).len() ==> s.contains(#[trigger] s.remove(i)[a]),
{
    let t = s.remove(i);
    assert forall|a: int| 0 <= a < t.len() implies s.contains(#[trigger] t[a]) by {
        if a < i {
            assert(s[a] == t[a]);
        } else {
            assert(s[a + 1] == t[a]);
        }
    }
    assert forall|x: IDVisual| t.to_set().contains(x) <==> s.to_set().remove(s[i]).contains(
        x,
    ) by {
        if t.contains(x) {
            let a = choose|a: int| 0 <= a < t.len() && t[a] == x;
            if a < i {
                assert(s[a] == x);
            } else {
                assert(s[a + 1] == x);
            }
        }
        if s.contains(x) && x != s[i] {
            let a = choose|a: int| 0 <= a < s.len() && s[a] == x;
            if a < i {
                assert(t[a] == x);
            } else {
                assert(t[a - 1] == x);
            }
        }
    }
}


/// Removal is idempotent: once an element has been removed, removing it again
/// asks nothing of the backend and leaves the register as it is.
pub proof fn lemma_removal_is_idempotent(attached: Set<IDVisual>, visual: IDVisual)
    ensures
        removal_calls(attached.remove(visual), visual) == Seq::<BackendCall>::empty(),
        attached.remove(visual).remove(visual) == attached.remove(visual),
{
    assert(attached.remove(visual).remove(visual) =~= attached.remove(visual));
}

/// An element that is off the screen stays off: a draw hands out an
/// identifier that was never handed out before, so it cannot bring back an
/// element that was removed, and a late second removal of that element still
/// asks nothing of the backend.
pub proof fn lemma_removed_stays_removed(
    before: OverlayImpl,
    after: OverlayImpl,
    r: Result<DrawPlan, OverlayError>,
    extent: SurfaceExtent,
    offset: Point,
    paint: BackendCall,
    visual: IDVisual,
)
    requires
        before.draws(after, r, extent, offset, paint),
        visual.id < before.issued(),
        !before.attached().contains(visual),
    ensures
        visual.id < after.issued(),
        !after.attached().contains(visual),
        removal_calls(after.attached(), visual) == Seq::<BackendCall>::empty(),
{
}

/// An element is detached exactly once: drawing it detaches nothing, the
/// first removal after the draw detaches it at one position of its calls, and
/// a further removal detaches nothing.
pub proof fn lemma_drawn_element_detaches_once(
    attached: Set<IDVisual>,
    visual: IDVisual,
    extent: SurfaceExtent,
    offset: Point,
    paint: BackendCall,
)
    requires
        paint is PaintPath || paint is PaintText || paint is PaintBitmap,
    ensures
        never_detaches(draw_calls(visual, extent, offset, paint)),
        detaches_once(removal_calls(attached.insert(visual), visual), visual),
        never_detaches(removal_calls(attached.insert(visual).remove(visual), visual)),
{
    let first = removal_calls(attached.insert(visual), visual);
    assert(first[0] == (BackendCall::DetachFromTree { visual }));
}

/// A draw attaches its element with the last of its first
/// `STEPS_THROUGH_ATTACH` calls and with no other, which is why a rollback
/// detaches only from that many completed calls on.
pub proof fn lemma_attach_position(
    visual: IDVisual,
    extent: SurfaceExtent,
    offset: Point,
    paint: BackendCall,
)
    requires
        paint is PaintPath || paint is PaintText || paint is PaintBitmap,
    ensures
        forall|i: int|
            0 <= i < draw_calls(visual, extent, offset, paint).len() ==> ((
            #[trigger] draw_calls(visual, extent, offset, paint)[i]) is AttachToTree <==> i
                == STEPS_THROUGH_ATTACH - 1),
        draw_calls(visual, extent, offset, paint)[STEPS_THROUGH_ATTACH - 1] == (
        BackendCall::AttachToTree { visual, offset }),
{
}

/// Every operation that changes the screen ends with a single commit: the
/// calls of a draw, and the calls of a removal or of a rollback that are not
/// empty, hold one `Commit`, as their last call.
pub proof fn lemma_operations_commit_once(
    attached: Set<IDVisual>,
    visual: IDVisual,
    extent: SurfaceExtent,
    offset: Point,
    paint: BackendCall,
    completed: usize,
)
    requires
        paint is PaintPath || paint is PaintText || paint is PaintBitmap,
    ensures
        ends_with_single_commit(draw_calls(visual, extent, offset, paint)),
        removal_calls(attached, visual).len() > 0 ==> ends_with_single_commit(
            removal_calls(attached, visual),
        ),
        rollback_calls(attached, visual, completed).len() > 0 ==> ends_with_single_commit(
            rollback_calls(attached, visual, completed),
        ),
{
}

} // verus!
