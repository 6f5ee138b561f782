//! Orbit-camera pose and perspective-projection parameters.
//!
//! The camera circles a focus point at `distance_milli` milliunits, with yaw
//! and pitch in millidegrees. Building the actual view and projection
//! matrices takes trigonometry, which the graphics host performs from this
//! exact pose.

use vstd::prelude::*;
use crate::fixed::Vec3Milli;

verus! {

/// Smallest pitch the pose may take, in millidegrees.
pub const PITCH_MIN_MDEG: i64 = 5_000;

/// Largest pitch the pose may take, in millidegrees.
pub const PITCH_MAX_MDEG: i64 = 89_000;

/// Smallest focus distance, in milliunits.
pub const DIST_MIN_MILLI: i64 = 2_000;

/// Largest focus distance, in milliunits.
pub const DIST_MAX_MILLI: i64 = 50_000;

/// Yaw saturates at this magnitude instead of overflowing (millidegrees).
pub const YAW_LIMIT_MDEG: i64 = 0x100_0000_0000;

/// Pitch of a freshly constructed camera, in millidegrees.
pub const PITCH_START_MDEG: i64 = 50_000;

/// Distance of a freshly constructed camera, in milliunits.
pub const DIST_START_MILLI: i64 = 10_000;

/// Orbit-camera pose: a focus point plus yaw, pitch and distance.
#[derive(Clone, Copy, PartialEq, Eq, Structural, Debug)]
pub struct OsrsCamera {
    /// Point the camera looks at, in milliunits.
    pub focus_point: Vec3Milli,
    /// Rotation about the vertical axis, in millidegrees.
    pub yaw_mdeg: i64,
    /// Elevation above the ground plane, in millidegrees.
    pub pitch_mdeg: i64,
    /// Distance from the focus point to the eye, in milliunits.
    pub distance_milli: i64,
}

impl OsrsCamera {
    /// Pitch and distance lie in their clamping intervals and yaw is saturated.
    pub open spec fn pose_wf(self) -> bool {
        &&& PITCH_MIN_MDEG <= self.pitch_mdeg <= PITCH_MAX_MDEG
        &&& DIST_MIN_MILLI <= self.distance_milli <= DIST_MAX_MILLI
        &&& -YAW_LIMIT_MDEG <= self.yaw_mdeg <= YAW_LIMIT_MDEG
    }

    /// A camera looking at `focus_point` from the default yaw, pitch and
    /// distance.
    pub fn new(focus_point: Vec3Milli) -> (r: OsrsCamera)
        ensures
            r.focus_point == focus_point,
            r.yaw_mdeg == 0,
            r.pitch_mdeg == PITCH_START_MDEG,
            r.distance_milli == DIST_START_MILLI,
            r.pose_wf(),
    {
        OsrsCamera {
            focus_point,
            yaw_mdeg: 0,
            pitch_mdeg: PITCH_START_MDEG,
            distance_milli: DIST_START_MILLI,
        }
    }
}

/// Perspective-frustum parameters. The aspect ratio is the exact quotient
/// `width / height`, kept as the pair itself.
#[derive(Clone, Copy, PartialEq, Eq, Structural, Debug)]
pub struct Projection {
    /// Viewport width in pixels; positive.
    pub width: u32,
    /// Viewport height in pixels; positive.
    pub height: u32,
    /// Vertical field of view, in millidegrees.
    pub fovy_mdeg: i64,
    /// Near clip plane, in milliunits.
    pub znear_milli: i64,
    /// Far clip plane, in milliunits.
    pub zfar_milli: i64,
}

impl Projection {
    /// The viewport is non-degenerate and the clip planes are ordered.
    pub open spec fn wf(self) -> bool {
        &&& self.width > 0
        &&& self.height > 0
        &&& 0 < self.znear_milli < self.zfar_milli
        &&& 0 < self.fovy_mdeg < 180_000
    }

    /// A frustum for a `width` by `height` viewport.
    pub fn new(width: u32, height: u32, fovy_mdeg: i64, znear_milli: i64, zfar_milli: i64) -> (r:
        Projection)
        requires
            width > 0,
            height > 0,
            0 < znear_milli < zfar_milli,
            0 < fovy_mdeg < 180_000,
        ensures
            r == (Projection { width, height, fovy_mdeg, znear_milli, zfar_milli }),
            r.wf(),
    {
        Projection { width, height, fovy_mdeg, znear_milli, zfar_milli }
    }

    /// Recompute the aspect ratio for a new viewport. Callers guard against
    /// degenerate dimensions.
    pub fn resize(&mut self, width: u32, height: u32)
        requires
            width > 0,
            height > 0,
        ensures
            final(self).width == width,
            final(self).height == height,
            final(self).fovy_mdeg == old(self).fovy_mdeg,
            final(self).znear_milli == old(self).znear_milli,
            final(self).zfar_milli == old(self).zfar_milli,
            old(self).wf() ==> final(self).wf(),
    {
        self.width = width;
        self.height = height;
    }
}

} // verus!
