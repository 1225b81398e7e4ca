//! The ways in which an overlay operation can fail.

use vstd::prelude::*;

verus! {

#[derive(Copy, Clone, Debug, PartialEq, Eq, Structural)]
pub enum OverlayError {
    /// The window or the drawing device could not be created.
    BackendInitializationFailed,
    /// A path opens a sub-path inside another, or draws or closes outside one.
    MalformedGeometry,
    /// A surface, texture, font or element could not be allocated.
    ResourceAllocationFailed,
    /// The backend failed while an element was taken off the screen.
    RemovalFailed,
}

} // verus!
