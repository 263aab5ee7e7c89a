//! The render state and the per-frame decision loop.
//!
//! `State` mirrors everything the frame loop decides on: the surface
//! configuration and window size, the depth texture's dimensions, the clear
//! color, the camera with its uniform and controller, and the instance set.
//! The GPU objects themselves live with the unverified shell, which calls
//! `handle_window_event`, `update`, `render_plan` and `recover_after_render`
//! in its event loop and performs the actions they return. The resize policy
//! — a zero-area request is a no-op, and the depth texture always matches the
//! surface — is stated here and proved.

use vstd::prelude::*;

use crate::fbits::F32_ZERO;
use crate::fbits::F32_ONE;
use crate::fbits::F32_TWO;
use crate::fbits::F32_TENTH;
use crate::fbits::F32_FIFTH;
use crate::fbits::F32_FORTY_FIVE;
use crate::fbits::F32_HUNDRED;
use crate::fbits::F64_ONE;
use crate::fbits::f32_div_of;
use crate::fbits::f32_from_u32_of;
use crate::fbits::f64_div_of;
use crate::fbits::f64_from_u32_of;
use crate::fbits::f32_div;
use crate::fbits::f32_from_u32;
use crate::fbits::f64_div;
use crate::fbits::f64_from_u32;
use crate::linalg::Vec3Bits;
use crate::camera::Camera;
use crate::camera::CameraUniform;
use crate::camera::CameraController;
use crate::camera::KeyCode;
use crate::instance::Instance;
use crate::instance::NUM_INSTANCES_PER_ROW;
use crate::instance::grid_instance_of;
use crate::instance::make_instances;
use crate::mesh::index_data;

verus! {

/// A window or surface size in pixels.
#[derive(Clone, Copy, PartialEq, Eq, Structural, Debug)]
pub struct Extent {
    pub width: u32,
    pub height: u32,
}

/// The dimensions the surface is configured with. The present format and
/// modes are negotiated and held by the GPU shell; the logic reads only the
/// dimensions.
#[derive(Clone, Copy, PartialEq, Eq, Structural, Debug)]
pub struct SurfaceConfigModel {
    pub width: u32,
    pub height: u32,
}

/// The dimensions of the depth texture, which must always match the surface.
#[derive(Clone, Copy, PartialEq, Eq, Structural, Debug)]
pub struct DepthTextureModel {
    pub width: u32,
    pub height: u32,
}

/// A clear color; each channel is the bit pattern of a double-precision
/// value in `[0, 1]`.
#[derive(Clone, Copy, PartialEq, Eq, Structural, Debug)]
pub struct ClearColor {
    pub r: u64,
    pub g: u64,
    pub b: u64,
    pub a: u64,
}

/// A window event, as the windowing shell hands it to the frame loop.
#[derive(Clone, Copy, PartialEq, Eq, Structural, Debug)]
pub enum WindowEvent {
    Resized { width: u32, height: u32 },
    CursorMoved { x: u64, y: u64 },
    KeyInput { key: KeyCode, pressed: bool },
    CloseRequested,
    Other,
}

/// What the event loop does after a window event.
#[derive(Clone, Copy, PartialEq, Eq, Structural, Debug)]
pub enum LoopDirective {
    /// Keep running; nothing for the shell to do.
    Continue,
    /// Keep running; the surface was resized, so the shell must reconfigure
    /// it and recreate the depth texture at the state's dimensions.
    Reconfigure,
    /// Leave the event loop.
    Exit,
}

/// How a failed surface acquisition is answered.
#[derive(Clone, Copy, PartialEq, Eq, Structural, Debug)]
pub enum SurfaceErrorKind {
    /// The surface was lost and must be reconfigured.
    Lost,
    /// The surface is outdated; the next frame will retry.
    Outdated,
    /// Acquiring timed out; the next frame will retry.
    Timeout,
    /// The device is out of memory; unrecoverable.
    OutOfMemory,
}

/// What the shell does after a failed surface acquisition.
#[derive(Clone, Copy, PartialEq, Eq, Structural, Debug)]
pub enum RenderRecovery {
    /// Reconfigure the surface and recreate the depth texture, then retry on
    /// the next frame.
    Reconfigure,
    /// Skip this frame and retry on the next.
    SkipFrame,
    /// Terminate the loop.
    Exit,
}

/// Everything one render pass needs from the state, as plain values.
#[derive(Clone, Copy, PartialEq, Eq, Structural, Debug)]
pub struct RenderPlan {
    /// The color attachment is cleared to this.
    pub clear_color: ClearColor,
    /// The depth attachment is cleared to this single-precision value (the
    /// far plane, 1.0).
    pub depth_clear: u32,
    /// The indexed draw covers indices `0 .. num_indices`.
    pub num_indices: u32,
    /// The draw is instanced over `0 .. num_instances`.
    pub num_instances: u32,
}

/// The render state: the decision-relevant mirror of the window, surface,
/// camera and instance set.
#[derive(Debug)]
pub struct State {
    pub size: Extent,
    pub config: SurfaceConfigModel,
    pub depth_texture: DepthTextureModel,
    pub bg_color: ClearColor,
    pub camera: Camera,
    pub camera_uniform: CameraUniform,
    pub camera_controller: CameraController,
    pub instances: Vec<Instance>,
    pub num_indices: u32,
}

/// The camera the demo starts with: one unit up and two back, looking at the
/// origin, with a 45-degree vertical field of view and the window's aspect
/// ratio.
pub open spec fn initial_camera(width: u32, height: u32) -> Camera {
    Camera {
        eye: Vec3Bits { x: F32_ZERO, y: F32_ONE, z: F32_TWO },
        target: Vec3Bits { x: F32_ZERO, y: F32_ZERO, z: F32_ZERO },
        up: Vec3Bits { x: F32_ZERO, y: F32_ONE, z: F32_ZERO },
        aspect: f32_div_of(f32_from_u32_of(width), f32_from_u32_of(height)),
        fovy: F32_FORTY_FIVE,
        znear: F32_TENTH,
        zfar: F32_HUNDRED,
    }
}

/// Opaque black: the clear color the demo starts with.
pub open spec fn black() -> ClearColor {
    ClearColor { r: 0, g: 0, b: 0, a: F64_ONE }
}

impl State {
    /// Well-formedness: the depth texture and the stored size always match
    /// the surface configuration, the instance set is the full grid's, and
    /// the index count is the mesh's.
    pub open spec fn wf(self) -> bool {
        &&& self.depth_texture.width == self.config.width
        &&& self.depth_texture.height == self.config.height
        &&& self.size.width == self.config.width
        &&& self.size.height == self.config.height
        &&& self.instances@.len() == NUM_INSTANCES_PER_ROW * NUM_INSTANCES_PER_ROW
        &&& self.num_indices == index_data().len()
    }

    /// Build the initial state for a window of the given size.
    pub fn new(width: u32, height: u32) -> (s: State)
        ensures
            s.wf(),
            s.size == (Extent { width, height }),
            s.config == (SurfaceConfigModel { width, height }),
            s.depth_texture == (DepthTextureModel { width, height }),
            s.bg_color == black(),
            s.camera == initial_camera(width, height),
            s.camera_uniform.view_proj.bits() == s.camera.view_proj_spec(),
            s.camera_controller == (CameraController {
                speed: F32_FIFTH,
                is_forward_pressed: false,
                is_backward_pressed: false,
                is_left_pressed: false,
                is_right_pressed: false,
            }),
            forall|i: int| 0 <= i < s.instances@.len() ==> s.instances@[i] == grid_instance_of(i),
    {
        let camera = Camera {
            eye: Vec3Bits { x: F32_ZERO, y: F32_ONE, z: F32_TWO },
            target: Vec3Bits { x: F32_ZERO, y: F32_ZERO, z: F32_ZERO },
            up: Vec3Bits { x: F32_ZERO, y: F32_ONE, z: F32_ZERO },
            aspect: f32_div(f32_from_u32(width), f32_from_u32(height)),
            fovy: F32_FORTY_FIVE,
            znear: F32_TENTH,
            zfar: F32_HUNDRED,
        };
        let mut camera_uniform = CameraUniform::new();
        camera_uniform.update_view_proj(&camera);
        let instances = make_instances();
        let indices = crate::mesh::indices();
        State {
            size: Extent { width, height },
            config: SurfaceConfigModel { width, height },
            depth_texture: DepthTextureModel { width, height },
            bg_color: ClearColor { r: 0, g: 0, b: 0, a: F64_ONE },
            camera,
            camera_uniform,
            camera_controller: CameraController::new(F32_FIFTH),
            instances,
            num_indices: indices.len() as u32,
        }
    }

    /// The state after a resize request: a request with both dimensions
    /// nonzero sets the stored size, the surface configuration and the depth
    /// texture to the new dimensions; a zero-area request changes nothing.
    pub open spec fn resize_spec(self, width: u32, height: u32) -> State {
        if width > 0 && height > 0 {
            State {
                size: Extent { width, height },
                config: SurfaceConfigModel { width, height },
                depth_texture: DepthTextureModel { width, height },
                ..self
            }
        } else {
            self
        }
    }

    /// Apply a resize request. Returns whether the surface configuration
    /// changed, in which case the shell must reconfigure the surface and
    /// recreate the depth texture at the new dimensions.
    pub fn resize(&mut self, width: u32, height: u32) -> (reconfigured: bool)
        ensures
            *final(self) == old(self).resize_spec(width, height),
            reconfigured == (width > 0 && height > 0),
            old(self).wf() ==> final(self).wf(),
    {
        if width > 0 && height > 0 {
            self.size = Extent { width, height };
            self.config = SurfaceConfigModel { width, height };
            self.depth_texture = DepthTextureModel { width, height };
            true
        } else {
            false
        }
    }

    /// The clear color derived from a cursor position: the red and green
    /// channels are the cursor's fractions of the window's width and height,
    /// blue and alpha are 1.0. The cursor coordinates are double-precision
    /// bit patterns.
    pub open spec fn bg_after_cursor(self, x: u64, y: u64) -> ClearColor {
        ClearColor {
            r: f64_div_of(x, f64_from_u32_of(self.size.width)),
            g: f64_div_of(y, f64_from_u32_of(self.size.height)),
            b: F64_ONE,
            a: F64_ONE,
        }
    }

    /// Feed one window event to the input handlers: a cursor move recolors
    /// the background and is consumed; a key event only updates the camera
    /// controller's pressed flags; everything else is left to the caller.
    pub fn input(&mut self, event: &WindowEvent) -> (consumed: bool)
        ensures
            match *event {
                WindowEvent::CursorMoved { x, y } => {
                    &&& *final(self) == (State { bg_color: old(self).bg_after_cursor(x, y), ..*old(self) })
                    &&& consumed
                },
                WindowEvent::KeyInput { key, pressed } => {
                    &&& *final(self) == (State {
                        camera_controller: old(self).camera_controller.with_key(key, pressed),
                        ..*old(self)
                    })
                    &&& !consumed
                },
                _ => *final(self) == *old(self) && !consumed,
            },
            old(self).wf() ==> final(self).wf(),
    {
        match event {
            WindowEvent::KeyInput { key, pressed } => {
                self.camera_controller.process_key(*key, *pressed);
                false
            }
            WindowEvent::CursorMoved { x, y } => {
                self.bg_color = ClearColor {
                    r: f64_div(*x, f64_from_u32(self.size.width)),
                    g: f64_div(*y, f64_from_u32(self.size.height)),
                    b: F64_ONE,
                    a: F64_ONE,
                };
                true
            }
            _ => false,
        }
    }

    /// Handle one window event as the event loop does: input first; an
    /// unconsumed close request or escape press ends the loop; an unconsumed
    /// resize applies the resize policy and tells the shell whether to
    /// reconfigure.
    pub fn handle_window_event(&mut self, event: &WindowEvent) -> (d: LoopDirective)
        ensures
            match *event {
                WindowEvent::CursorMoved { x, y } => {
                    &&& *final(self) == (State { bg_color: old(self).bg_after_cursor(x, y), ..*old(self) })
                    &&& d == LoopDirective::Continue
                },
                WindowEvent::KeyInput { key, pressed } => {
                    &&& *final(self) == (State {
                        camera_controller: old(self).camera_controller.with_key(key, pressed),
                        ..*old(self)
                    })
                    &&& d == (if key is Escape && pressed {
                        LoopDirective::Exit
                    } else {
                        LoopDirective::Continue
                    })
                },
                WindowEvent::CloseRequested => {
                    &&& *final(self) == *old(self)
                    &&& d == LoopDirective::Exit
                },
                WindowEvent::Resized { width, height } => {
                    &&& *final(self) == old(self).resize_spec(width, height)
                    &&& d == (if width > 0 && height > 0 {
                        LoopDirective::Reconfigure
                    } else {
                        LoopDirective::Continue
                    })
                },
                WindowEvent::Other => *final(self) == *old(self) && d == LoopDirective::Continue,
            },
            old(self).wf() ==> final(self).wf(),
    {
        let consumed = self.input(event);
        if consumed {
            return LoopDirective::Continue;
        }
        match event {
            WindowEvent::CloseRequested => LoopDirective::Exit,
            WindowEvent::KeyInput { key, pressed } => {
                if matches!(key, KeyCode::Escape) && *pressed {
                    LoopDirective::Exit
                } else {
                    LoopDirective::Continue
                }
            }
            WindowEvent::Resized { width, height } => {
                if self.resize(*width, *height) {
                    LoopDirective::Reconfigure
                } else {
                    LoopDirective::Continue
                }
            }
            _ => LoopDirective::Continue,
        }
    }

    /// The update phase of one frame: apply the accumulated key state to the
    /// camera and recompute the uniform matrix. The shell then uploads the
    /// packed uniform to the camera buffer.
    pub fn update(&mut self)
        ensures
            final(self).camera.eye.bits() == old(self).camera_controller.updated_eye(
                old(self).camera.eye.bits(),
                old(self).camera.target.bits(),
                old(self).camera.up.bits(),
            ),
            final(self).camera.target == old(self).camera.target,
            final(self).camera.up == old(self).camera.up,
            final(self).camera.aspect == old(self).camera.aspect,
            final(self).camera.fovy == old(self).camera.fovy,
            final(self).camera.znear == old(self).camera.znear,
            final(self).camera.zfar == old(self).camera.zfar,
            final(self).camera_uniform.view_proj.bits() == final(self).camera.view_proj_spec(),
            *final(self) == (State {
                camera: final(self).camera,
                camera_uniform: final(self).camera_uniform,
                ..*old(self)
            }),
            old(self).wf() ==> final(self).wf(),
    {
        let controller = self.camera_controller;
        controller.update_camera(&mut self.camera);
        let camera = self.camera;
        self.camera_uniform.update_view_proj(&camera);
    }

    /// The render phase's parameters: what the recorded pass clears to and
    /// how many indices and instances the one draw call covers.
    pub fn render_plan(&self) -> (p: RenderPlan)
        requires
            self.instances@.len() <= u32::MAX,
        ensures
            p.clear_color == self.bg_color,
            p.depth_clear == F32_ONE,
            p.num_indices == self.num_indices,
            p.num_instances == self.instances@.len(),
    {
        RenderPlan {
            clear_color: self.bg_color,
            depth_clear: F32_ONE,
            num_indices: self.num_indices,
            num_instances: self.instances.len() as u32,
        }
    }

    /// Answer a failed surface acquisition: a lost surface is reconfigured at
    /// the current size and retried; an out-of-memory failure ends the loop;
    /// an outdated or timed-out acquisition skips the frame.
    pub fn recover_after_render(&mut self, error: &SurfaceErrorKind) -> (r: RenderRecovery)
        ensures
            match *error {
                SurfaceErrorKind::Lost => {
                    &&& *final(self) == old(self).resize_spec(
                        old(self).size.width,
                        old(self).size.height,
                    )
                    &&& r == (if old(self).size.width > 0 && old(self).size.height > 0 {
                        RenderRecovery::Reconfigure
                    } else {
                        RenderRecovery::SkipFrame
                    })
                },
                SurfaceErrorKind::OutOfMemory => *final(self) == *old(self) && r
                    == RenderRecovery::Exit,
                _ => *final(self) == *old(self) && r == RenderRecovery::SkipFrame,
            },
            old(self).wf() ==> final(self).wf(),
    {
        match error {
            SurfaceErrorKind::Lost => {
                let width = self.size.width;
                let height = self.size.height;
                if self.resize(width, height) {
                    RenderRecovery::Reconfigure
                } else {
                    RenderRecovery::SkipFrame
                }
            }
            SurfaceErrorKind::OutOfMemory => RenderRecovery::Exit,
            _ => RenderRecovery::SkipFrame,
        }
    }
}

/// Pick the surface format: the first reported sRGB format if any is sRGB,
/// else the first reported format. `srgb` holds, for each format the surface
/// supports in order, whether it is sRGB; the result is an index into that
/// order.
pub fn pick_surface_format_index(srgb: &Vec<bool>) -> (i: usize)
    requires
        srgb@.len() > 0,
    ensures
        i < srgb@.len(),
        (exists|k: int| 0 <= k < srgb@.len() && srgb@[k]) ==> srgb@[i as int] && (forall|k: int|
            0 <= k < i ==> !srgb@[k]),
        !(exists|k: int| 0 <= k < srgb@.len() && srgb@[k]) ==> i == 0,
{
    let mut j: usize = 0;
    while j < srgb.len()
        invariant
            j <= srgb@.len(),
            forall|k: int| 0 <= k < j ==> !srgb@[k],
        decreases srgb@.len() - j,
    {
        if srgb[j] {
            return j;
        }
        j = j + 1;
    }
    0
}

/// A resize request with both dimensions nonzero leaves the surface
/// configured at exactly those dimensions, and the depth texture at the
/// surface's dimensions.
pub proof fn lemma_resize_nonzero_sets_dimensions(s: State, width: u32, height: u32)
    requires
        width > 0,
        height > 0,
    ensures
        s.resize_spec(width, height).config == (SurfaceConfigModel { width, height }),
        s.resize_spec(width, height).size == (Extent { width, height }),
        s.resize_spec(width, height).depth_texture.width == s.resize_spec(
            width,
            height,
        ).config.width,
        s.resize_spec(width, height).depth_texture.height == s.resize_spec(
            width,
            height,
        ).config.height,
{
}

/// A zero-area resize request changes nothing: the prior surface
/// configuration and depth texture are kept as they are.
pub proof fn lemma_resize_zero_is_noop(s: State, width: u32, height: u32)
    requires
        width == 0 || height == 0,
    ensures
        s.resize_spec(width, height) == s,
{
}

/// A queued zero-area resize has no bearing on a later real one: resizing by
/// zero and then by any dimensions leaves exactly the state the later resize
/// alone would.
pub proof fn lemma_zero_resize_then_resize(s: State, width: u32, height: u32)
    ensures
        s.resize_spec(0, 0).resize_spec(width, height) == s.resize_spec(width, height),
{
}

} // verus!
