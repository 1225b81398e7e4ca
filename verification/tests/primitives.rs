use screen_overlay::{
    CapStyle, CircleDirection, Color, DashStyle, LineJoin, LineStyle, OverlayConfig, Point, Rect,
    Stroke, TextAlignment, TextProperties,
};

#[test]
fn transparent_clears_only_alpha() {
    let c = Color { r: 10, g: 20, b: 30, a: 200 };
    assert_eq!(c.transparent(), Color { r: 10, g: 20, b: 30, a: 0 });
    assert_eq!(c, Color { r: 10, g: 20, b: 30, a: 200 });
}

#[test]
fn transparent_of_transparent_is_unchanged() {
    let c = Color { r: 0, g: 0, b: 0, a: 0 };
    assert_eq!(c.transparent(), c);
}

#[test]
fn point_new_keeps_coordinates() {
    let p = Point::new(-3, 7);
    assert_eq!(p.x, -3);
    assert_eq!(p.y, 7);
}

#[test]
fn points_add_pairwise() {
    assert_eq!(Point::new(1, 2) + Point::new(30, -40), Point { x: 31, y: -38 });
    assert_eq!(Point::new(i32::MAX, i32::MIN) + Point::new(0, 0), Point { x: i32::MAX, y: i32::MIN });
}

#[test]
fn rect_from_puts_max_at_origin() {
    let r = Rect::from(4, 9);
    assert_eq!(r.min, Point { x: 4, y: 9 });
    assert_eq!(r.max, Point { x: 0, y: 0 });
}

#[test]
fn rect_sized_derives_max_from_min() {
    let r = Rect::from(100, 50).sized(200, 30);
    assert_eq!(r.min, Point { x: 100, y: 50 });
    assert_eq!(r.max, Point { x: 300, y: 80 });
    assert_eq!(r.width(), 200);
    assert_eq!(r.height(), 30);
}

#[test]
fn rect_extent_may_be_negative() {
    let r = Rect { min: Point::new(10, 10), max: Point::new(4, -5) };
    assert_eq!(r.width(), -6);
    assert_eq!(r.height(), -15);
    let unsized_box = Rect::from(3, 8);
    assert_eq!(unsized_box.width(), -3);
    assert_eq!(unsized_box.height(), -8);
}

#[test]
fn rect_extent_spans_the_whole_coordinate_range() {
    let r = Rect { min: Point::new(i32::MIN, i32::MAX), max: Point::new(i32::MAX, i32::MIN) };
    assert_eq!(r.width(), 4_294_967_295);
    assert_eq!(r.height(), -4_294_967_295);
}

#[test]
fn line_style_defaults_are_flat_miter_solid() {
    let s = LineStyle::default();
    assert_eq!(s.start_cap, CapStyle::Flat);
    assert_eq!(s.end_cap, CapStyle::Flat);
    assert_eq!(s.dash_cap, CapStyle::Flat);
    assert_eq!(s.line_join, LineJoin::Miter);
    assert_eq!(s.miter_limit, 0);
    assert_eq!(s.dash_style, DashStyle::Solid);
    assert_eq!(s.dash_offset, 0);
    assert_eq!(CapStyle::default(), CapStyle::Flat);
    assert_eq!(LineJoin::default(), LineJoin::Miter);
    assert_eq!(DashStyle::default(), DashStyle::Solid);
}

#[test]
fn text_defaults_are_centered_arial() {
    let p = TextProperties::default();
    assert_eq!(p.font, "Arial");
    assert_eq!(p.size, 16);
    assert_eq!(p.horizontal_align, TextAlignment::Center);
    assert_eq!(p.vertical_align, TextAlignment::Center);
    assert_eq!(TextAlignment::default(), TextAlignment::Center);
}

#[test]
fn config_defaults_show_on_top_named_overlay() {
    let c = OverlayConfig::default();
    assert!(c.task_bar);
    assert!(c.on_top);
    assert_eq!(c.name, "Overlay");
}

#[test]
fn stroke_and_direction_are_plain_values() {
    let s = Stroke { color: Color { r: 0, g: 255, b: 0, a: 128 }, width: 2 };
    let t = s;
    assert_eq!(s, t);
    assert_ne!(CircleDirection::ClockWise, CircleDirection::CounterClockWise);
}
