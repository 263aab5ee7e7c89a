//! The camera subsystem: a look-at/perspective camera, the uniform matrix
//! derived from it, and a key-driven dolly controller.
//!
//! All scalar parameters are single-precision bit patterns. The derived
//! view-projection matrix is `projection * view` with
//! `view = look_at_rh(eye, target, up)` and
//! `projection = perspective_rh(radians(fovy), aspect, znear, zfar)`,
//! which the contracts state exactly over the named `glam` operations.

use vstd::prelude::*;

use crate::fbits::f32_radians_of;
use crate::fbits::f32_gt_of;
use crate::fbits::f32_to_radians;
use crate::fbits::f32_gt;
use crate::fbits::F32_ZERO;
use crate::fbits::F32_ONE;
use crate::linalg::Vec3Bits;
use crate::linalg::Mat4Bits;
use crate::linalg::vec3_sub_of;
use crate::linalg::vec3_add_of;
use crate::linalg::vec3_scale_of;
use crate::linalg::vec3_cross_of;
use crate::linalg::vec3_normalize_of;
use crate::linalg::vec3_length_of;
use crate::linalg::mat4_look_at_rh_of;
use crate::linalg::mat4_perspective_rh_of;
use crate::linalg::mat4_mul_of;
use crate::linalg::vec3_sub;
use crate::linalg::vec3_add;
use crate::linalg::vec3_scale;
use crate::linalg::vec3_cross;
use crate::linalg::vec3_normalize;
use crate::linalg::vec3_length;
use crate::linalg::mat4_look_at_rh;
use crate::linalg::mat4_perspective_rh;
use crate::linalg::mat4_mul;

verus! {

/// A look-at/perspective camera. `fovy` is the vertical field of view in
/// degrees; all scalar fields are single-precision bit patterns.
#[derive(Clone, Copy, PartialEq, Eq, Structural, Debug)]
pub struct Camera {
    pub eye: Vec3Bits,
    pub target: Vec3Bits,
    pub up: Vec3Bits,
    pub aspect: u32,
    pub fovy: u32,
    pub znear: u32,
    pub zfar: u32,
}

impl Camera {
    /// The column-major bits of the view-projection matrix this camera derives:
    /// `perspective_rh(radians(fovy), aspect, znear, zfar) * look_at_rh(eye, target, up)`.
    pub open spec fn view_proj_spec(self) -> Seq<u32> {
        mat4_mul_of(
            mat4_perspective_rh_of(f32_radians_of(self.fovy), self.aspect, self.znear, self.zfar),
            mat4_look_at_rh_of(self.eye.bits(), self.target.bits(), self.up.bits()),
        )
    }

    /// Derive the view-projection matrix from the current parameters.
    pub fn build_view_projection_matrix(&self) -> (r: Mat4Bits)
        ensures
            r.bits() == self.view_proj_spec(),
    {
        let view = mat4_look_at_rh(&self.eye, &self.target, &self.up);
        let proj = mat4_perspective_rh(
            f32_to_radians(self.fovy),
            self.aspect,
            self.znear,
            self.zfar,
        );
        mat4_mul(&proj, &view)
    }
}

/// The view-projection matrix is a pure function of the camera parameters:
/// two cameras with equal eye, target, up, field of view, aspect ratio and
/// near and far planes derive bit-identical matrices.
pub proof fn lemma_view_proj_deterministic(a: Camera, b: Camera)
    requires
        a.eye == b.eye,
        a.target == b.target,
        a.up == b.up,
        a.aspect == b.aspect,
        a.fovy == b.fovy,
        a.znear == b.znear,
        a.zfar == b.zfar,
    ensures
        a.view_proj_spec() == b.view_proj_spec(),
{
}

/// The entry at column-major index `i` of the identity matrix, as bits.
pub open spec fn mat4_identity_entry(i: int) -> u32 {
    if i == 0 || i == 5 || i == 10 || i == 15 {
        F32_ONE
    } else {
        F32_ZERO
    }
}

/// The camera matrix as uploaded to the uniform buffer.
#[derive(Clone, Copy, Debug)]
pub struct CameraUniform {
    pub view_proj: Mat4Bits,
}

impl CameraUniform {
    /// A fresh uniform holds the identity matrix.
    pub fn new() -> (r: CameraUniform)
        ensures
            r.view_proj.bits().len() == 16,
            forall|i: int| 0 <= i < 16 ==> r.view_proj.bits()[i] == mat4_identity_entry(i),
    {
        let m: [u32; 16] = [
            F32_ONE, F32_ZERO, F32_ZERO, F32_ZERO,
            F32_ZERO, F32_ONE, F32_ZERO, F32_ZERO,
            F32_ZERO, F32_ZERO, F32_ONE, F32_ZERO,
            F32_ZERO, F32_ZERO, F32_ZERO, F32_ONE,
        ];
        CameraUniform { view_proj: Mat4Bits { m } }
    }

    /// Recompute the uniform matrix from the camera's current parameters.
    pub fn update_view_proj(&mut self, camera: &Camera)
        ensures
            final(self).view_proj.bits() == camera.view_proj_spec(),
    {
        self.view_proj = camera.build_view_projection_matrix();
    }
}

/// A directional key the controller reacts to.
#[derive(Clone, Copy, PartialEq, Eq, Structural, Debug)]
pub enum KeyCode {
    W,
    A,
    S,
    D,
    Up,
    Down,
    Left,
    Right,
    Escape,
}

/// Accumulates pressed directional keys and applies them to a camera as
/// dolly and strafe steps of a fixed speed (a single-precision bit pattern).
#[derive(Clone, Copy, PartialEq, Eq, Structural, Debug)]
pub struct CameraController {
    pub speed: u32,
    pub is_forward_pressed: bool,
    pub is_backward_pressed: bool,
    pub is_left_pressed: bool,
    pub is_right_pressed: bool,
}

impl CameraController {
    /// A fresh controller with the given speed and no key pressed.
    pub fn new(speed: u32) -> (r: CameraController)
        ensures
            r.speed == speed,
            !r.is_forward_pressed,
            !r.is_backward_pressed,
            !r.is_left_pressed,
            !r.is_right_pressed,
    {
        CameraController {
            speed,
            is_forward_pressed: false,
            is_backward_pressed: false,
            is_left_pressed: false,
            is_right_pressed: false,
        }
    }

    /// The controller after a key changes to the given pressed state.
    pub open spec fn with_key(self, key: KeyCode, pressed: bool) -> CameraController {
        match key {
            KeyCode::W | KeyCode::Up => CameraController { is_forward_pressed: pressed, ..self },
            KeyCode::A | KeyCode::Left => CameraController { is_left_pressed: pressed, ..self },
            KeyCode::S | KeyCode::Down => CameraController { is_backward_pressed: pressed, ..self },
            KeyCode::D | KeyCode::Right => CameraController { is_right_pressed: pressed, ..self },
            KeyCode::Escape => self,
        }
    }

    /// Whether the controller reacts to the given key at all.
    pub open spec fn handles_key(key: KeyCode) -> bool {
        !(key is Escape)
    }

    /// Record a key press or release. Returns whether the key was one the
    /// controller reacts to.
    pub fn process_key(&mut self, key: KeyCode, pressed: bool) -> (handled: bool)
        ensures
            *final(self) == old(self).with_key(key, pressed),
            handled == CameraController::handles_key(key),
    {
        match key {
            KeyCode::W | KeyCode::Up => {
                self.is_forward_pressed = pressed;
                true
            }
            KeyCode::A | KeyCode::Left => {
                self.is_left_pressed = pressed;
                true
            }
            KeyCode::S | KeyCode::Down => {
                self.is_backward_pressed = pressed;
                true
            }
            KeyCode::D | KeyCode::Right => {
                self.is_right_pressed = pressed;
                true
            }
            KeyCode::Escape => false,
        }
    }

    /// The eye position after one controller step, as a function of the
    /// pressed flags and the eye, target and up bit patterns. The forward
    /// step is guarded: it fires only while the eye-to-target distance still
    /// exceeds the speed, so a dolly can never cross the look-at point.
    /// Strafing re-aims the eye on the circle of the current distance.
    pub open spec fn updated_eye(
        self,
        eye: (u32, u32, u32),
        target: (u32, u32, u32),
        up: (u32, u32, u32),
    ) -> (u32, u32, u32) {
        let forward0 = vec3_sub_of(target, eye);
        let forward_norm = vec3_normalize_of(forward0);
        let forward_mag = vec3_length_of(forward0);
        let eye1 = if self.is_forward_pressed && f32_gt_of(forward_mag, self.speed) {
            vec3_add_of(eye, vec3_scale_of(forward_norm, self.speed))
        } else {
            eye
        };
        let eye2 = if self.is_backward_pressed {
            vec3_sub_of(eye1, vec3_scale_of(forward_norm, self.speed))
        } else {
            eye1
        };
        let right = vec3_cross_of(forward_norm, up);
        let forward = vec3_sub_of(target, eye2);
        let mag = vec3_length_of(forward);
        let eye3 = if self.is_right_pressed {
            vec3_sub_of(
                target,
                vec3_scale_of(
                    vec3_normalize_of(vec3_add_of(forward, vec3_scale_of(right, self.speed))),
                    mag,
                ),
            )
        } else {
            eye2
        };
        let eye4 = if self.is_left_pressed {
            vec3_sub_of(
                target,
                vec3_scale_of(
                    vec3_normalize_of(vec3_sub_of(forward, vec3_scale_of(right, self.speed))),
                    mag,
                ),
            )
        } else {
            eye3
        };
        eye4
    }

    /// Apply one step of the accumulated key state to the camera's eye
    /// position; every other camera parameter is left unchanged.
    pub fn update_camera(&self, camera: &mut Camera)
        ensures
            final(camera).eye.bits() == self.updated_eye(
                old(camera).eye.bits(),
                old(camera).target.bits(),
                old(camera).up.bits(),
            ),
            final(camera).target == old(camera).target,
            final(camera).up == old(camera).up,
            final(camera).aspect == old(camera).aspect,
            final(camera).fovy == old(camera).fovy,
            final(camera).znear == old(camera).znear,
            final(camera).zfar == old(camera).zfar,
    {
        let forward0 = vec3_sub(&camera.target, &camera.eye);
        let forward_norm = vec3_normalize(&forward0);
        let forward_mag = vec3_length(&forward0);

        if self.is_forward_pressed && f32_gt(forward_mag, self.speed) {
            camera.eye = vec3_add(&camera.eye, &vec3_scale(&forward_norm, self.speed));
        }
        if self.is_backward_pressed {
            camera.eye = vec3_sub(&camera.eye, &vec3_scale(&forward_norm, self.speed));
        }

        let right = vec3_cross(&forward_norm, &camera.up);
        let forward = vec3_sub(&camera.target, &camera.eye);
        let forward_mag = vec3_length(&forward);

        if self.is_right_pressed {
            camera.eye = vec3_sub(
                &camera.target,
                &vec3_scale(
                    &vec3_normalize(&vec3_add(&forward, &vec3_scale(&right, self.speed))),
                    forward_mag,
                ),
            );
        }
        if self.is_left_pressed {
            camera.eye = vec3_sub(
                &camera.target,
                &vec3_scale(
                    &vec3_normalize(&vec3_sub(&forward, &vec3_scale(&right, self.speed))),
                    forward_mag,
                ),
            );
        }
    }
}

/// A forward press while the eye-to-target distance does not exceed the
/// controller's speed is a no-op: with no other key pressed, the eye does not
/// move, so a dolly step never brings the eye closer than one step to the
/// target.
pub proof fn lemma_forward_at_min_distance_is_noop(
    c: CameraController,
    eye: (u32, u32, u32),
    target: (u32, u32, u32),
    up: (u32, u32, u32),
)
    requires
        c.is_forward_pressed,
        !c.is_backward_pressed,
        !c.is_left_pressed,
        !c.is_right_pressed,
        !f32_gt_of(vec3_length_of(vec3_sub_of(target, eye)), c.speed),
    ensures
        c.updated_eye(eye, target, up) == eye,
{
}

} // verus!
