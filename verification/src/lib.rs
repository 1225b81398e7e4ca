//! Transient vector drawing on a transparent desktop overlay: the value
//! types, the path builder with its nesting rule, and the bookkeeping that
//! ties every drawn element to exactly one removal.

pub mod error;
pub mod geometry;
pub mod overlay;
pub mod primitives;

pub use error::OverlayError;
pub use geometry::{DrawGeometry, GeometryElement};
pub use overlay::{BackendCall, DrawPlan, IDVisual, OverlayImpl, SurfaceExtent};

pub use primitives::{
    CapStyle, CircleDirection, Color, DashStyle, LineJoin, LineStyle, OverlayConfig, Point, Rect,
    Stroke, TextAlignment, TextProperties,
};
