//! A top-down camera controller: a per-frame decision core for a camera that
//! either follows a target entity or free-roams via edge-scrolling, mouse-drag
//! rotation, and scroll-wheel zoom.
//!
//! The library computes, from an exact input snapshot, what each frame phase
//! does to the camera: which mode the camera is in, whether an edge scroll is
//! triggered and at what speed factor, how far a rotation or zoom step goes,
//! and whether the camera pose is overwritten from the followed target. The
//! host applies those decisions to its own vector and quaternion types; the
//! library never touches floating point. All scalar quantities (pixels, world
//! units, radians) are carried in thousandths of a unit, so every computation
//! here is exact.

use vstd::prelude::*;

pub mod mouse;
pub mod sync;

verus! {

/// One whole unit (one pixel, one world unit, one radian) in the fixed-point
/// scale used throughout: all scalars are thousandths of a unit.
pub const UNIT: u32 = 1000;

/// Width of the edge band near each screen border, in thousandths of a pixel.
/// A cursor inside a band triggers edge scrolling along that axis.
#[derive(Clone, Copy, PartialEq, Eq, Structural, Debug)]
pub struct EdgeMargin {
    pub x: u32,
    pub y: u32,
}

/// Zoom configuration. `min` and `max` are declared bounds on the camera
/// distance, in thousandths of a world unit; the zoom step does not clamp
/// against them (they are forward-looking bounds, not active constraints).
/// `speed` scales the wheel input, in thousandths.
#[derive(Clone, Copy, PartialEq, Eq, Structural, Debug)]
pub struct Zoom {
    pub min: u32,
    pub max: u32,
    pub speed: u32,
}

impl Zoom {
    pub fn new(min: u32, max: u32, speed: u32) -> (r: Self)
        ensures
            r == (Zoom { min, max, speed }),
    {
        Zoom { min, max, speed }
    }
}

/// Height range of the camera, in thousandths of a world unit. Only
/// `max` is consulted (the target-follow offset is `max / 2`); `min` is a
/// declared, unenforced bound.
#[derive(Clone, Copy, PartialEq, Eq, Structural, Debug)]
pub struct Height {
    pub min: u32,
    pub max: u32,
}

impl Height {
    pub fn new(min: u32, max: u32) -> (r: Self)
        ensures
            r == (Height { min, max }),
    {
        Height { min, max }
    }
}

/// The camera's input mode: `Move` reacts to the cursor near screen edges,
/// `Rotate` reacts to mouse-motion deltas. Toggled by right-button events.
#[derive(Clone, Copy, PartialEq, Eq, Structural, Debug)]
pub enum CameraMode {
    Move,
    Rotate,
}

/// Marker for a scene entity the camera may follow. The host attaches it to
/// at most one meaningful entity; if several carry it, the last one
/// encountered in a frame wins.
#[derive(Clone, Copy, PartialEq, Eq, Structural, Debug)]
pub struct TopDownCameraTarget;

/// Configuration and runtime state of the top-down camera.
///
/// The configuration surface is every field up to `rotate_speed`. The two
/// trailing fields (`mode`, `initial_setup`) are runtime state owned by the
/// per-frame update functions; hosts should construct the value with
/// `default()` and adjust only the configuration fields.
#[derive(Clone, Copy, PartialEq, Eq, Structural, Debug)]
pub struct TopDownCamera {
    /// When true, the camera pose is overwritten from the target every frame.
    pub follow: bool,
    /// When false, edge scrolling is disabled entirely; the cursor edge bands
    /// are not consulted.
    pub cursor_enabled: bool,
    /// Width of the edge bands, in thousandths of a pixel per axis.
    pub cursor_edge_margin: EdgeMargin,
    /// When false, wheel input is ignored (see `mouse::zoom_condition`).
    pub zoom_enabled: bool,
    pub zoom: Zoom,
    pub height: Height,
    /// Full edge-scroll speed, in thousandths of a world unit per second.
    pub max_speed: u32,
    /// Yaw per pixel of horizontal mouse motion, in thousandths of a radian.
    pub rotate_speed: u32,
    /// Runtime state: the current input mode. Set by `mouse::mode_switch`.
    pub mode: CameraMode,
    /// Runtime state: becomes true after the first target synchronization and
    /// never resets. Set by `sync::sync_player_camera`.
    pub initial_setup: bool,
}

impl TopDownCamera {
    /// The edge bands must be at least one fixed-point step wide: the edge
    /// ratio divides the cursor distance by the band width.
    pub open spec fn wf(self) -> bool {
        &&& self.cursor_edge_margin.x >= 1
        &&& self.cursor_edge_margin.y >= 1
    }
}

impl Default for TopDownCamera {
    fn default() -> (r: Self)
        ensures
            r.follow == false,
            r.cursor_enabled == true,
            r.cursor_edge_margin.x == 30 * UNIT,
            r.cursor_edge_margin.y == 30 * UNIT,
            r.zoom_enabled == true,
            r.zoom.min == 5 * UNIT,
            r.zoom.max == 50 * UNIT,
            r.zoom.speed == 10 * UNIT,
            r.height.min == 5 * UNIT,
            r.height.max == 50 * UNIT,
            r.max_speed == 200 * UNIT,
            r.rotate_speed == UNIT / 100,
            r.mode == CameraMode::Move,
            r.initial_setup == false,
            r.wf(),
    {
        TopDownCamera {
            follow: false,
            cursor_enabled: true,
            cursor_edge_margin: EdgeMargin { x: 30 * UNIT, y: 30 * UNIT },
            zoom_enabled: true,
            zoom: Zoom::new(5 * UNIT, 50 * UNIT, 10 * UNIT),
            height: Height::new(5 * UNIT, 50 * UNIT),
            max_speed: 200 * UNIT,
            rotate_speed: UNIT / 100,
            mode: CameraMode::Move,
            initial_setup: false,
        }
    }
}

} // verus!
