use screen_overlay::{
    BackendCall, Color, DrawGeometry, IDVisual, LineStyle, OverlayError, OverlayImpl, Point, Rect,
    Stroke, SurfaceExtent,
};

fn green() -> Stroke {
    Stroke { color: Color { r: 0, g: 255, b: 0, a: 128 }, width: 2 }
}

fn square() -> DrawGeometry {
    DrawGeometry::new().rectangle(&Rect::from(0, 0).sized(10, 10))
}

fn origin() -> Point {
    Point { x: 0, y: 0 }
}

#[test]
fn new_overlay_has_nothing_attached() {
    let overlay = OverlayImpl::new();
    assert!(!overlay.is_attached(&IDVisual { id: 0 }));
    assert!(!overlay.is_attached(&IDVisual { id: 7 }));
}

#[test]
fn draw_geometry_plans_allocate_paint_attach_commit() {
    let mut overlay = OverlayImpl::new();
    let style = LineStyle::default();
    let plan = overlay.draw_geometry(&square(), &green(), &style).unwrap();
    assert_eq!(plan.visual, IDVisual { id: 0 });
    assert_eq!(
        plan.calls,
        vec![
            BackendCall::AllocateSurface { extent: SurfaceExtent::Fullscreen },
            BackendCall::PaintPath { stroke: green(), line_style: style },
            BackendCall::AttachToTree { visual: IDVisual { id: 0 }, offset: origin() },
            BackendCall::Commit,
        ]
    );
    assert!(overlay.is_attached(&plan.visual));
}

#[test]
fn every_draw_gets_a_fresh_element() {
    let mut overlay = OverlayImpl::new();
    let a = overlay.draw_geometry(&square(), &green(), &LineStyle::default()).unwrap();
    let b = overlay.draw_text(&Rect::from(0, 0).sized(5, 5), &green().color).unwrap();
    let c = overlay.draw_texture(&origin(), &Rect::from(0, 0).sized(5, 5), &green().color, 255).unwrap();
    assert_eq!(a.visual, IDVisual { id: 0 });
    assert_eq!(b.visual, IDVisual { id: 1 });
    assert_eq!(c.visual, IDVisual { id: 2 });
    overlay.remove_visual(&b.visual);
    let d = overlay.draw_geometry(&square(), &green(), &LineStyle::default()).unwrap();
    assert_eq!(d.visual, IDVisual { id: 3 });
    assert!(overlay.is_attached(&a.visual));
    assert!(!overlay.is_attached(&b.visual));
    assert!(overlay.is_attached(&c.visual));
    assert!(overlay.is_attached(&d.visual));
}

#[test]
fn malformed_geometry_is_refused_and_registers_nothing() {
    let mut overlay = OverlayImpl::new();
    let nested = DrawGeometry::new().hollow(0, 0).hollow(1, 1).closed();
    assert_eq!(
        overlay.draw_geometry(&nested, &green(), &LineStyle::default()),
        Err(OverlayError::MalformedGeometry)
    );
    let stray = DrawGeometry::new().line(1, 1).hollow(0, 0).closed();
    assert_eq!(
        overlay.draw_geometry(&stray, &green(), &LineStyle::default()),
        Err(OverlayError::MalformedGeometry)
    );
    assert!(!overlay.is_attached(&IDVisual { id: 0 }));
    let plan = overlay.draw_geometry(&square(), &green(), &LineStyle::default()).unwrap();
    assert_eq!(plan.visual, IDVisual { id: 0 });
}

#[test]
fn empty_geometry_is_drawn() {
    let mut overlay = OverlayImpl::new();
    let plan = overlay.draw_geometry(&DrawGeometry::new(), &green(), &LineStyle::default()).unwrap();
    assert_eq!(plan.calls.len(), 4);
    assert!(overlay.is_attached(&plan.visual));
}

#[test]
fn draw_text_covers_the_layout_box() {
    let mut overlay = OverlayImpl::new();
    let layout = Rect::from(100, 40).sized(300, 20);
    let color = Color { r: 255, g: 0, b: 255, a: 128 };
    let plan = overlay.draw_text(&layout, &color).unwrap();
    assert_eq!(
        plan.calls,
        vec![
            BackendCall::AllocateSurface { extent: SurfaceExtent::Sized { width: 300, height: 20 } },
            BackendCall::PaintText { color, layout },
            BackendCall::AttachToTree { visual: plan.visual, offset: Point { x: 100, y: 40 } },
            BackendCall::Commit,
        ]
    );
}

#[test]
fn swapped_corners_give_an_empty_surface() {
    let mut overlay = OverlayImpl::new();
    let layout = Rect { min: Point { x: 5, y: 5 }, max: Point { x: 1, y: 9 } };
    let plan = overlay.draw_text(&layout, &green().color).unwrap();
    assert_eq!(
        plan.calls[0],
        BackendCall::AllocateSurface { extent: SurfaceExtent::Sized { width: 0, height: 4 } }
    );
    assert_eq!(SurfaceExtent::covering(&Rect::from(3, 3)), SurfaceExtent::Sized { width: 0, height: 0 });
}

#[test]
fn widest_box_gets_the_widest_surface() {
    let all = Rect { min: Point { x: i32::MIN, y: i32::MIN }, max: Point { x: i32::MAX, y: i32::MAX } };
    assert_eq!(
        SurfaceExtent::covering(&all),
        SurfaceExtent::Sized { width: u32::MAX, height: u32::MAX }
    );
    let nearly = Rect { min: Point { x: i32::MIN + 1, y: 0 }, max: Point { x: i32::MAX, y: 1 } };
    assert_eq!(
        SurfaceExtent::covering(&nearly),
        SurfaceExtent::Sized { width: u32::MAX - 1, height: 1 }
    );
}

#[test]
fn draw_texture_attaches_region_at_position() {
    let mut overlay = OverlayImpl::new();
    let position = Point { x: 500, y: 500 };
    let region = Rect::from(10, 20).sized(200, 100);
    let color = Color { r: 1, g: 2, b: 3, a: 4 };
    let plan = overlay.draw_texture(&position, &region, &color, 128).unwrap();
    assert_eq!(
        plan.calls,
        vec![
            BackendCall::AllocateSurface { extent: SurfaceExtent::Sized { width: 200, height: 100 } },
            BackendCall::PaintBitmap { region, color, alpha: 128 },
            BackendCall::AttachToTree { visual: plan.visual, offset: position },
            BackendCall::Commit,
        ]
    );
}

#[test]
fn removal_detaches_once_and_then_never_again() {
    let mut overlay = OverlayImpl::new();
    let plan = overlay.draw_geometry(&square(), &green(), &LineStyle::default()).unwrap();
    let detaches_while_drawing =
        plan.calls.iter().filter(|c| matches!(c, BackendCall::DetachFromTree { .. })).count();
    assert_eq!(detaches_while_drawing, 0);
    let first = overlay.remove_visual(&plan.visual);
    assert_eq!(
        first,
        vec![BackendCall::DetachFromTree { visual: plan.visual }, BackendCall::Commit]
    );
    assert!(!overlay.is_attached(&plan.visual));
    let second = overlay.remove_visual(&plan.visual);
    assert_eq!(second, vec![]);
    let third = overlay.remove_visual(&plan.visual);
    assert_eq!(third, vec![]);
    assert!(!overlay.is_attached(&plan.visual));
}

#[test]
fn removal_of_unknown_element_does_nothing() {
    let mut overlay = OverlayImpl::new();
    let plan = overlay.draw_geometry(&square(), &green(), &LineStyle::default()).unwrap();
    assert_eq!(overlay.remove_visual(&IDVisual { id: 99 }), vec![]);
    assert!(overlay.is_attached(&plan.visual));
}

#[test]
fn removal_leaves_other_elements_attached() {
    let mut overlay = OverlayImpl::new();
    let mut plans = Vec::new();
    for _ in 0..5 {
        plans.push(overlay.draw_geometry(&square(), &green(), &LineStyle::default()).unwrap());
    }
    assert_eq!(overlay.remove_visual(&plans[2].visual).len(), 2);
    assert_eq!(overlay.remove_visual(&plans[0].visual).len(), 2);
    assert_eq!(overlay.remove_visual(&plans[4].visual).len(), 2);
    assert!(overlay.is_attached(&plans[1].visual));
    assert!(overlay.is_attached(&plans[3].visual));
    assert!(!overlay.is_attached(&plans[0].visual));
    assert!(!overlay.is_attached(&plans[2].visual));
    assert!(!overlay.is_attached(&plans[4].visual));
}

#[test]
fn every_plan_ends_with_its_only_commit() {
    let mut overlay = OverlayImpl::new();
    let plan = overlay.draw_text(&Rect::from(0, 0).sized(1, 1), &green().color).unwrap();
    let removal = overlay.remove_visual(&plan.visual);
    for calls in [plan.calls, removal] {
        let commits = calls.iter().filter(|c| matches!(c, BackendCall::Commit)).count();
        assert_eq!(commits, 1);
        assert_eq!(calls.last(), Some(&BackendCall::Commit));
    }
}

#[test]
fn rollback_before_attach_asks_nothing_of_the_backend() {
    for completed in 0..3 {
        let mut overlay = OverlayImpl::new();
        let plan = overlay.draw_geometry(&square(), &green(), &LineStyle::default()).unwrap();
        assert_eq!(overlay.rollback_draw(&plan.visual, completed), vec![]);
        assert!(!overlay.is_attached(&plan.visual));
        assert_eq!(overlay.remove_visual(&plan.visual), vec![]);
    }
}

#[test]
fn rollback_after_attach_detaches_and_commits() {
    let mut overlay = OverlayImpl::new();
    let plan = overlay.draw_geometry(&square(), &green(), &LineStyle::default()).unwrap();
    assert_eq!(
        overlay.rollback_draw(&plan.visual, 3),
        vec![BackendCall::DetachFromTree { visual: plan.visual }, BackendCall::Commit]
    );
    assert!(!overlay.is_attached(&plan.visual));
    assert_eq!(overlay.rollback_draw(&plan.visual, 3), vec![]);
    assert_eq!(overlay.remove_visual(&plan.visual), vec![]);
}

#[test]
fn rollback_does_not_reuse_the_identifier() {
    let mut overlay = OverlayImpl::new();
    let failed = overlay.draw_geometry(&square(), &green(), &LineStyle::default()).unwrap();
    overlay.rollback_draw(&failed.visual, 1);
    let next = overlay.draw_geometry(&square(), &green(), &LineStyle::default()).unwrap();
    assert_eq!(next.visual, IDVisual { id: 1 });
    assert!(!overlay.is_attached(&failed.visual));
    assert!(overlay.is_attached(&next.visual));
}

#[test]
fn late_second_removal_touches_no_later_element() {
    let mut overlay = OverlayImpl::new();
    let first = overlay.draw_geometry(&square(), &green(), &LineStyle::default()).unwrap();
    assert_eq!(overlay.remove_visual(&first.visual).len(), 2);
    let mut later = Vec::new();
    for _ in 0..4 {
        later.push(overlay.draw_text(&Rect::from(0, 0).sized(8, 8), &green().color).unwrap());
    }
    assert_eq!(overlay.remove_visual(&first.visual), vec![]);
    assert!(!overlay.is_attached(&first.visual));
    for plan in &later {
        assert_ne!(plan.visual, first.visual);
        assert!(overlay.is_attached(&plan.visual));
    }
}
