//! Value types shared by the path builder and the overlay: points, boxes,
//! colors and the enumerations that steer how a stroke is rendered.
//!
//! Every scalar is an integer count of device units; the drawing layer maps
//! units to pixels.

use vstd::prelude::*;
use vstd::std_specs::ops::AddSpecImpl;

verus! {

/// Whether `v` can be stored in a coordinate.
pub open spec fn is_coordinate(v: int) -> bool {
    i32::MIN <= v <= i32::MAX
}

/// Color with alpha. `a == 0` is fully transparent, `a == 255` fully opaque.
#[derive(Copy, Clone, Debug, PartialEq, Eq, Structural)]
pub struct Color {
    pub r: u8,
    pub g: u8,
    pub b: u8,
    pub a: u8,
}

impl Color {
    /// The same hue with the alpha channel cleared.
    pub fn transparent(&self) -> (c: Color)
        ensures
            c == (Color { r: self.r, g: self.g, b: self.b, a: 0 }),
    {
        Color { r: self.r, g: self.g, b: self.b, a: 0 }
    }
}

/// Paint used to outline a path.
#[derive(Copy, Clone, Debug, PartialEq, Eq, Structural)]
pub struct Stroke {
    pub color: Color,
    /// Line width in device units.
    pub width: u32,
}

#[derive(Copy, Clone, Debug, PartialEq, Eq, Structural)]
pub enum CapStyle {
    Flat,
    Square,
    Round,
    Triangle,
}

impl Default for CapStyle {
    fn default() -> (c: CapStyle)
        ensures
            c == CapStyle::Flat,
    {
        CapStyle::Flat
    }
}

#[derive(Copy, Clone, Debug, PartialEq, Eq, Structural)]
pub enum LineJoin {
    Miter,
    Bevel,
    Round,
    MiterOrBevel,
}

impl Default for LineJoin {
    fn default() -> (j: LineJoin)
        ensures
            j == LineJoin::Miter,
    {
        LineJoin::Miter
    }
}

#[derive(Copy, Clone, Debug, PartialEq, Eq, Structural)]
pub enum DashStyle {
    Solid,
    Dash,
    Dot,
    DashDot,
    DashDotDot,
}

impl Default for DashStyle {
    fn default() -> (d: DashStyle)
        ensures
            d == DashStyle::Solid,
    {
        DashStyle::Solid
    }
}

/// How a stroke is capped, joined and dashed.
#[derive(Copy, Clone, Debug, PartialEq, Eq, Structural)]
pub struct LineStyle {
    pub start_cap: CapStyle,
    pub end_cap: CapStyle,
    pub dash_cap: CapStyle,
    pub line_join: LineJoin,
    pub miter_limit: u32,
    pub dash_style: DashStyle,
    pub dash_offset: i32,
}

impl Default for LineStyle {
    /// Flat caps, miter joins, a solid line, and zero for both scalars.
    fn default() -> (s: LineStyle)
        ensures
            s == (LineStyle {
                start_cap: CapStyle::Flat,
                end_cap: CapStyle::Flat,
                dash_cap: CapStyle::Flat,
                line_join: LineJoin::Miter,
                miter_limit: 0,
                dash_style: DashStyle::Solid,
                dash_offset: 0,
            }),
    {
        LineStyle {
            start_cap: CapStyle::Flat,
            end_cap: CapStyle::Flat,
            dash_cap: CapStyle::Flat,
            line_join: LineJoin::Miter,
            miter_limit: 0,
            dash_style: DashStyle::Solid,
            dash_offset: 0,
        }
    }
}

#[derive(Copy, Clone, Debug, PartialEq, Eq, Structural)]
pub enum TextAlignment {
    /// Align to the minimum possible value (left or top).
    Min,
    /// Align to the center of the axis.
    Center,
    /// Align to the maximum possible value (right or bottom).
    Max,
    /// Justified rendering; horizontal only.
    Justified,
}

impl Default for TextAlignment {
    fn default() -> (a: TextAlignment)
        ensures
            a == TextAlignment::Center,
    {
        TextAlignment::Center
    }
}

/// Properties of a font and of the text set in it.
#[derive(Clone, Debug, PartialEq, Eq)]
pub struct TextProperties {
    /// The font family name.
    pub font: String,
    /// The size of the font in device units.
    pub size: u32,
    pub horizontal_align: TextAlignment,
    pub vertical_align: TextAlignment,
}

impl Default for TextProperties {
    /// Arial at size 16, centered on both axes.
    fn default() -> (p: TextProperties)
        ensures
            p.font@ == "Arial"@,
            p.size == 16,
            p.horizontal_align == TextAlignment::Center,
            p.vertical_align == TextAlignment::Center,
    {
        TextProperties {
            font: "Arial".to_owned(),
            size: 16,
            horizontal_align: TextAlignment::Center,
            vertical_align: TextAlignment::Center,
        }
    }
}

/// Options fixed when an overlay is created.
#[derive(Clone, Debug, PartialEq, Eq)]
pub struct OverlayConfig {
    /// If true, the application shows in the task bar.
    pub task_bar: bool,
    /// If true, the overlay stays above all other windows.
    pub on_top: bool,
    /// The display name of the application.
    pub name: String,
}

impl Default for OverlayConfig {
    /// Shown in the task bar, on top, and named "Overlay".
    fn default() -> (c: OverlayConfig)
        ensures
            c.task_bar,
            c.on_top,
            c.name@ == "Overlay"@,
    {
        OverlayConfig { task_bar: true, on_top: true, name: "Overlay".to_owned() }
    }
}

#[derive(Copy, Clone, Debug, PartialEq, Eq, Structural)]
pub struct Point {
    pub x: i32,
    pub y: i32,
}

impl Point {
    pub fn new(x: i32, y: i32) -> (p: Point)
        ensures
            p == (Point { x, y }),
    {
        Point { x, y }
    }

    /// Whether translating `self` by `by` stays within the coordinate range.
    pub open spec fn can_translate(self, by: Point) -> bool {
        is_coordinate(self.x + by.x) && is_coordinate(self.y + by.y)
    }

    /// `self` translated by `by`.
    pub open spec fn translated(self, by: Point) -> Point {
        Point { x: (self.x + by.x) as i32, y: (self.y + by.y) as i32 }
    }
}

impl core::ops::Add<Point> for Point {
    type Output = Point;

    /// Translation: the coordinates add up pairwise.
    fn add(self, other: Point) -> (sum: Point) {
        Point { x: self.x + other.x, y: self.y + other.y }
    }
}

impl AddSpecImpl<Point> for Point {
    open spec fn obeys_add_spec() -> bool {
        true
    }

    open spec fn add_req(self, rhs: Point) -> bool {
        self.can_translate(rhs)
    }

    open spec fn add_spec(self, rhs: Point) -> Point {
        self.translated(rhs)
    }
}

/// Axis-aligned box between a minimum and a maximum corner. Nothing forces
/// `min` to lie below `max`: a box built the wrong way round has a negative
/// width or height.
#[derive(Copy, Clone, Debug, PartialEq, Eq, Structural)]
pub struct Rect {
    pub min: Point,
    pub max: Point,
}

impl Rect {
    /// The horizontal extent `max.x - min.x` as a mathematical integer.
    pub open spec fn spec_width(self) -> int {
        self.max.x - self.min.x
    }

    /// The vertical extent `max.y - min.y` as a mathematical integer.
    pub open spec fn spec_height(self) -> int {
        self.max.y - self.min.y
    }

    /// A box whose minimum corner is `(x, y)` and whose maximum corner is the
    /// origin; follow it with [`Rect::sized`].
    pub fn from(x: i32, y: i32) -> (r: Rect)
        ensures
            r == (Rect { min: Point { x, y }, max: Point { x: 0, y: 0 } }),
    {
        Rect { min: Point { x, y }, max: Point { x: 0, y: 0 } }
    }

    /// The box with the same minimum corner and the extent `w` by `h`.
    pub fn sized(self, w: i32, h: i32) -> (r: Rect)
        requires
            is_coordinate(self.min.x + w),
            is_coordinate(self.min.y + h),
        ensures
            r.min == self.min,
            r.max.x == self.min.x + w,
            r.max.y == self.min.y + h,
    {
        Rect { min: self.min, max: self.min + Point::new(w, h) }
    }

    /// The horizontal extent; negative where the corners are swapped.
    pub fn width(&self) -> (w: i64)
        ensures
            w == self.spec_width(),
    {
        let hi: i64 = self.max.x as i64;
        let lo: i64 = self.min.x as i64;
        hi - lo
    }

    /// The vertical extent; negative where the corners are swapped.
    pub fn height(&self) -> (h: i64)
        ensures
            h == self.spec_height(),
    {
        let hi: i64 = self.max.y as i64;
        let lo: i64 = self.min.y as i64;
        hi - lo
    }
}

/// The rotational sense in which an arc is swept.
#[derive(Copy, Clone, Debug, PartialEq, Eq, Structural)]
pub enum CircleDirection {
    CounterClockWise,
    ClockWise,
}

} // verus!
