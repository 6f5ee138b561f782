//! Input accumulation for the orbit camera.
//!
//! Discrete, already-decoded input signals are folded into pending deltas;
//! once per frame `update_camera` applies and clears them. Pitch is clamped
//! into `[PITCH_MIN_MDEG, PITCH_MAX_MDEG]` and distance into
//! `[DIST_MIN_MILLI, DIST_MAX_MILLI]` on every application.

use vstd::prelude::*;
use crate::camera::DIST_MAX_MILLI;
use crate::camera::DIST_MIN_MILLI;
use crate::camera::OsrsCamera;
use crate::camera::PITCH_MAX_MDEG;
use crate::camera::PITCH_MIN_MDEG;
use crate::camera::YAW_LIMIT_MDEG;
use crate::fixed::clamped_add;
use crate::fixed::scale_milli;
use crate::fixed::spec_clamp;
use crate::fixed::spec_scale_milli;
use crate::fixed::ACC_LIMIT;
use crate::fixed::FACTOR_LIMIT;

verus! {

/// Scroll deltas are scaled by this factor over `MILLI` before they move the
/// camera distance.
pub const ZOOM_SENS_MILLI: i64 = 500;

/// Pixel-scroll deltas count a tenth of a milliunit per millipixel, with the
/// sign flipped; this factor over `MILLI` expresses the tenth.
pub const PIXEL_SCROLL_FACTOR_MILLI: i64 = 100;

/// A decoded input signal, as the window host hands it over.
#[derive(Clone, Copy, PartialEq, Eq, Structural, Debug)]
pub enum InputEvent {
    /// The left arrow key changed state.
    ArrowLeft { pressed: bool },
    /// The right arrow key changed state.
    ArrowRight { pressed: bool },
    /// The middle mouse button changed state.
    MiddleMouse { pressed: bool },
    /// Scroll-wheel motion reported in lines, scaled to milli-lines.
    ScrollLines { y_milli: i64 },
    /// Scroll-wheel motion reported in pixels, scaled to millipixels.
    ScrollPixels { y_milli: i64 },
    /// Any signal the controller does not consume.
    Other,
}

/// Pending input state: held buttons plus per-frame accumulators.
#[derive(Clone, Copy, PartialEq, Eq, Structural, Debug)]
pub struct CameraController {
    /// Left arrow key held.
    pub is_left_pressed: bool,
    /// Right arrow key held.
    pub is_right_pressed: bool,
    /// Middle mouse button held.
    pub is_middle_mouse_pressed: bool,
    /// Yaw applied per update while an arrow key is held, in millidegrees.
    pub rotation_speed_mdeg: i64,
    /// Orbit millidegrees per millipixel of mouse motion, over `MILLI`.
    pub mouse_sensitivity_milli: i64,
    /// Pending mouse motion along x, in millipixels.
    pub mouse_delta_x_milli: i64,
    /// Pending mouse motion along y, in millipixels.
    pub mouse_delta_y_milli: i64,
    /// Pending scroll, in milli-lines (positive zooms out).
    pub zoom_delta_milli: i64,
}

impl CameraController {
    /// Sensitivities are small factors and accumulators are saturated.
    pub open spec fn wf(self) -> bool {
        &&& 0 <= self.rotation_speed_mdeg <= FACTOR_LIMIT
        &&& 0 <= self.mouse_sensitivity_milli <= FACTOR_LIMIT
        &&& -ACC_LIMIT <= self.mouse_delta_x_milli <= ACC_LIMIT
        &&& -ACC_LIMIT <= self.mouse_delta_y_milli <= ACC_LIMIT
        &&& -ACC_LIMIT <= self.zoom_delta_milli <= ACC_LIMIT
    }

    /// A controller with no pending input.
    pub fn new(rotation_speed_mdeg: i64, mouse_sensitivity_milli: i64) -> (r: CameraController)
        requires
            0 <= rotation_speed_mdeg <= FACTOR_LIMIT,
            0 <= mouse_sensitivity_milli <= FACTOR_LIMIT,
        ensures
            r.rotation_speed_mdeg == rotation_speed_mdeg,
            r.mouse_sensitivity_milli == mouse_sensitivity_milli,
            !r.is_left_pressed,
            !r.is_right_pressed,
            !r.is_middle_mouse_pressed,
            r.mouse_delta_x_milli == 0,
            r.mouse_delta_y_milli == 0,
            r.zoom_delta_milli == 0,
            r.wf(),
    {
        CameraController {
            is_left_pressed: false,
            is_right_pressed: false,
            is_middle_mouse_pressed: false,
            rotation_speed_mdeg,
            mouse_sensitivity_milli,
            mouse_delta_x_milli: 0,
            mouse_delta_y_milli: 0,
            zoom_delta_milli: 0,
        }
    }
}

/// The controller state after one input signal, and whether the signal was
/// consumed. Button states are overwritten ("last writer wins"); scroll
/// deltas accumulate, saturating at `ACC_LIMIT`.
pub open spec fn spec_process_events(c: CameraController, e: InputEvent) -> (CameraController,
    bool) {
    match e {
        InputEvent::ArrowLeft { pressed } => (
            CameraController { is_left_pressed: pressed, ..c },
            true,
        ),
        InputEvent::ArrowRight { pressed } => (
            CameraController { is_right_pressed: pressed, ..c },
            true,
        ),
        InputEvent::MiddleMouse { pressed } => (
            CameraController { is_middle_mouse_pressed: pressed, ..c },
            true,
        ),
        InputEvent::ScrollLines { y_milli } => (
            CameraController {
                zoom_delta_milli: spec_clamp(
                    c.zoom_delta_milli - y_milli,
                    -ACC_LIMIT as int,
                    ACC_LIMIT as int,
                ) as i64,
                ..c
            },
            true,
        ),
        InputEvent::ScrollPixels { y_milli } => (
            CameraController {
                zoom_delta_milli: spec_clamp(
                    c.zoom_delta_milli + spec_scale_milli(
                        -y_milli as int,
                        PIXEL_SCROLL_FACTOR_MILLI as int,
                    ),
                    -ACC_LIMIT as int,
                    ACC_LIMIT as int,
                ) as i64,
                ..c
            },
            true,
        ),
        InputEvent::Other => (c, false),
    }
}

/// The controller and camera after one frame update: held arrow keys and, if
/// the middle mouse button is held, the pending mouse deltas turn the yaw and
/// pitch; the pending scroll moves the distance; pitch and distance are
/// clamped; all accumulators reset to zero.
pub open spec fn spec_update_camera(c: CameraController, cam: OsrsCamera) -> (CameraController,
    OsrsCamera) {
    let yaw_limit = YAW_LIMIT_MDEG as int;
    let yaw0 = cam.yaw_mdeg as int;
    let yaw1 = if c.is_left_pressed {
        spec_clamp(yaw0 - c.rotation_speed_mdeg, -yaw_limit, yaw_limit)
    } else {
        yaw0
    };
    let yaw2 = if c.is_right_pressed {
        spec_clamp(yaw1 + c.rotation_speed_mdeg, -yaw_limit, yaw_limit)
    } else {
        yaw1
    };
    let yaw3 = if c.is_middle_mouse_pressed {
        spec_clamp(
            yaw2 + spec_scale_milli(
                c.mouse_delta_x_milli as int,
                c.mouse_sensitivity_milli as int,
            ),
            -yaw_limit,
            yaw_limit,
        )
    } else {
        yaw2
    };
    let pitch1 = if c.is_middle_mouse_pressed {
        spec_clamp(
            cam.pitch_mdeg - spec_scale_milli(
                c.mouse_delta_y_milli as int,
                c.mouse_sensitivity_milli as int,
            ),
            PITCH_MIN_MDEG as int,
            PITCH_MAX_MDEG as int,
        )
    } else {
        cam.pitch_mdeg as int
    };
    let dist1 = spec_clamp(
        cam.distance_milli + spec_scale_milli(c.zoom_delta_milli as int, ZOOM_SENS_MILLI as int),
        DIST_MIN_MILLI as int,
        DIST_MAX_MILLI as int,
    );
    (
        CameraController {
            mouse_delta_x_milli: 0,
            mouse_delta_y_milli: 0,
            zoom_delta_milli: 0,
            ..c
        },
        OsrsCamera {
            focus_point: cam.focus_point,
            yaw_mdeg: yaw3 as i64,
            pitch_mdeg: pitch1 as i64,
            distance_milli: dist1 as i64,
        },
    )
}

impl CameraController {
    /// Fold one decoded input signal into the pending state; the result says
    /// whether the signal was consumed.
    pub fn process_events(&mut self, event: &InputEvent) -> (handled: bool)
        requires
            old(self).wf(),
            match *event {
                InputEvent::ScrollLines { y_milli } => -ACC_LIMIT <= y_milli <= ACC_LIMIT,
                InputEvent::ScrollPixels { y_milli } => -ACC_LIMIT <= y_milli <= ACC_LIMIT,
                _ => true,
            },
        ensures
            (*final(self), handled) == spec_process_events(*old(self), *event),
            final(self).wf(),
    {
        match *event {
            InputEvent::ArrowLeft { pressed } => {
                self.is_left_pressed = pressed;
                true
            },
            InputEvent::ArrowRight { pressed } => {
                self.is_right_pressed = pressed;
                true
            },
            InputEvent::MiddleMouse { pressed } => {
                self.is_middle_mouse_pressed = pressed;
                true
            },
            InputEvent::ScrollLines { y_milli } => {
                self.zoom_delta_milli = clamped_add(
                    self.zoom_delta_milli,
                    -y_milli,
                    -ACC_LIMIT,
                    ACC_LIMIT,
                );
                true
            },
            InputEvent::ScrollPixels { y_milli } => {
                let scaled: i64 = scale_milli(-y_milli, PIXEL_SCROLL_FACTOR_MILLI);
                self.zoom_delta_milli = clamped_add(
                    self.zoom_delta_milli,
                    scaled,
                    -ACC_LIMIT,
                    ACC_LIMIT,
                );
                true
            },
            InputEvent::Other => false,
        }
    }

    /// Accumulate relative mouse motion, in millipixels.
    pub fn process_mouse_motion(&mut self, delta_x_milli: i64, delta_y_milli: i64)
        requires
            old(self).wf(),
        ensures
            *final(self) == (CameraController {
                mouse_delta_x_milli: spec_clamp(
                    old(self).mouse_delta_x_milli + delta_x_milli,
                    -ACC_LIMIT as int,
                    ACC_LIMIT as int,
                ) as i64,
                mouse_delta_y_milli: spec_clamp(
                    old(self).mouse_delta_y_milli + delta_y_milli,
                    -ACC_LIMIT as int,
                    ACC_LIMIT as int,
                ) as i64,
                ..*old(self)
            }),
            final(self).wf(),
    {
        self.mouse_delta_x_milli = clamped_add(
            self.mouse_delta_x_milli,
            delta_x_milli,
            -ACC_LIMIT,
            ACC_LIMIT,
        );
        self.mouse_delta_y_milli = clamped_add(
            self.mouse_delta_y_milli,
            delta_y_milli,
            -ACC_LIMIT,
            ACC_LIMIT,
        );
    }

    /// Apply the pending deltas to the camera pose, then clear them.
    pub fn update_camera(&mut self, camera: &mut OsrsCamera)
        requires
            old(self).wf(),
        ensures
            (*final(self), *final(camera)) == spec_update_camera(*old(self), *old(camera)),
            final(self).wf(),
            DIST_MIN_MILLI <= final(camera).distance_milli <= DIST_MAX_MILLI,
            old(self).is_middle_mouse_pressed ==> PITCH_MIN_MDEG <= final(camera).pitch_mdeg
                <= PITCH_MAX_MDEG,
            old(camera).pose_wf() ==> final(camera).pose_wf(),
    {
        if self.is_left_pressed {
            camera.yaw_mdeg = clamped_add(
                camera.yaw_mdeg,
                -self.rotation_speed_mdeg,
                -YAW_LIMIT_MDEG,
                YAW_LIMIT_MDEG,
            );
        }
        if self.is_right_pressed {
            camera.yaw_mdeg = clamped_add(
                camera.yaw_mdeg,
                self.rotation_speed_mdeg,
                -YAW_LIMIT_MDEG,
                YAW_LIMIT_MDEG,
            );
        }
        if self.is_middle_mouse_pressed {
            let yaw_delta: i64 = scale_milli(self.mouse_delta_x_milli, self.mouse_sensitivity_milli);
            camera.yaw_mdeg = clamped_add(camera.yaw_mdeg, yaw_delta, -YAW_LIMIT_MDEG, YAW_LIMIT_MDEG);
            let pitch_delta: i64 = scale_milli(
                self.mouse_delta_y_milli,
                self.mouse_sensitivity_milli,
            );
            camera.pitch_mdeg = clamped_add(
                camera.pitch_mdeg,
                -pitch_delta,
                PITCH_MIN_MDEG,
                PITCH_MAX_MDEG,
            );
        }
        let zoom_step: i64 = scale_milli(self.zoom_delta_milli, ZOOM_SENS_MILLI);
        camera.distance_milli = clamped_add(
            camera.distance_milli,
            zoom_step,
            DIST_MIN_MILLI,
            DIST_MAX_MILLI,
        );
        self.zoom_delta_milli = 0;
        self.mouse_delta_x_milli = 0;
        self.mouse_delta_y_milli = 0;
    }
}

/// The camera pose after a whole sequence of frame updates, each applying one
/// recorded controller state.
pub open spec fn camera_after_updates(cam: OsrsCamera, ctrls: Seq<CameraController>) -> OsrsCamera
    decreases ctrls.len(),
{
    if ctrls.len() == 0 {
        cam
    } else {
        camera_after_updates(spec_update_camera(ctrls[0], cam).1, ctrls.skip(1))
    }
}

/// After any sequence of update applications, a well-formed pose stays well
/// formed: pitch remains within `[5, 89]` degrees and distance within
/// `[2, 50]` units.
pub proof fn lemma_pose_wf_after_updates(cam: OsrsCamera, ctrls: Seq<CameraController>)
    requires
        cam.pose_wf(),
    ensures
        camera_after_updates(cam, ctrls).pose_wf(),
    decreases ctrls.len(),
{
    if ctrls.len() > 0 {
        let stepped = spec_update_camera(ctrls[0], cam).1;
        assert(stepped.pose_wf());
        lemma_pose_wf_after_updates(stepped, ctrls.skip(1));
    }
}

/// After at least one update application, the distance lies within
/// `[2, 50]` units whatever pose the camera started from.
pub proof fn lemma_distance_clamped_after_updates(cam: OsrsCamera, ctrls: Seq<CameraController>)
    requires
        ctrls.len() > 0,
    ensures
        DIST_MIN_MILLI <= camera_after_updates(cam, ctrls).distance_milli <= DIST_MAX_MILLI,
    decreases ctrls.len(),
{
    let stepped = spec_update_camera(ctrls[0], cam).1;
    if ctrls.len() == 1 {
        assert(camera_after_updates(cam, ctrls) == camera_after_updates(stepped, ctrls.skip(1)));
        assert(ctrls.skip(1).len() == 0);
    } else {
        lemma_distance_clamped_after_updates(stepped, ctrls.skip(1));
    }
}

} // verus!
