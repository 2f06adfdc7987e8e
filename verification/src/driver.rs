//! The frame driver: what the composition is at any moment, how input and
//! time change it, and what each frame uploads and draws.

use crate::commands::{
    Attachment, BindGroup, Bindings, BufferWrite, Color, CommandEncoder, DepthLoad, IndexFormat,
    LoadOp, Queue, RenderPassCommand,
};
use crate::obj_mesh_test::{MeshPassError, ObjMeshTest};
use crate::obj_parser::Mesh;
use crate::pipeline::ShaderId;
use crate::shadertoy_buffer::{ShaderToylikeBuffer, QUAD_INDEX_COUNT};
use crate::texture::{Texture, TextureFormat};
use crate::timeline::{pulse, pulse_open, CameraPreset, OverlayTexture, Timeline};
use crate::uniforms::{
    saturating_sum, ElementState, MouseButton, ShaderToyUniforms, Uniforms, SUBPIXELS,
};
use vstd::prelude::*;

verus! {

/// Number of the first feedback pass.
pub const PASS_BUFFER_A: u32 = 0;

/// Number of the second feedback pass.
pub const PASS_BUFFER_B: u32 = 1;

/// Number of the pass that composes the feedback onto the surface.
pub const PASS_BUFFER_SCREEN: u32 = 2;

/// Number of the pass that draws overlays.
pub const PASS_FS_QUAD: u32 = 3;

/// Number of the primary mesh pass.
pub const PASS_WORLD: u32 = 4;

/// Number of the pass of the first animation frame; the others follow.
pub const PASS_FIRST_DANCER: u32 = 5;

/// Width and height of the feedback targets. They are independent of the
/// surface, so that the cost of the feedback passes does not grow with the
/// window.
pub const FEEDBACK_TARGET_SIZE: u32 = 8192;

/// How long the per-beat flash holds the simulated mouse button down, in
/// milliseconds.
pub const BEAT_FLASH_MS: u64 = 55;

/// How long the fast flash that advances the animation stays open, in
/// milliseconds.
pub const DANCE_FLASH_MS: u64 = 60;

/// Exit code after a request to close.
pub const EXIT_OK: i32 = 0;

/// Exit code after a fatal error of the graphics backend.
pub const EXIT_FATAL: i32 = 1;

/// Where the driver stands in its life.
#[derive(Clone, Copy, Debug, PartialEq, Eq, Structural)]
pub enum Phase {
    /// Nothing has been built yet.
    Uninitialized,
    /// Backend, textures and pipelines exist; no frame has been asked for
    /// since.
    Configured,
    /// Frames are being presented.
    Running,
    /// The surface is being reconfigured; the next frame resumes running.
    Resizing,
    /// The process is on its way out.
    Terminated,
}

/// What moves the driver from phase to phase.
#[derive(Clone, Copy, Debug, PartialEq, Eq, Structural)]
pub enum Signal {
    /// Backend, textures and pipelines have been built.
    Built,
    /// The surface has to be configured anew.
    Reconfigure,
    /// A frame is asked for.
    Redraw,
    /// The process is to end.
    Quit,
    /// Anything that leaves the phase alone.
    Other,
}

impl Phase {
    /// The phase that follows `self` on `signal`. Nothing leaves
    /// `Terminated`.
    pub open spec fn after(self, signal: Signal) -> Phase {
        match (self, signal) {
            (Phase::Terminated, _) => Phase::Terminated,
            (_, Signal::Quit) => Phase::Terminated,
            (_, Signal::Other) => self,
            (Phase::Uninitialized, Signal::Built) => Phase::Configured,
            (Phase::Uninitialized, _) => Phase::Uninitialized,
            (_, Signal::Built) => self,
            (_, Signal::Reconfigure) => Phase::Resizing,
            (Phase::Configured, Signal::Redraw) => Phase::Configured,
            (_, Signal::Redraw) => Phase::Running,
        }
    }

    /// A frame asked for in this phase is drawn.
    pub open spec fn draws(self) -> bool {
        self == Phase::Running || self == Phase::Resizing
    }

    /// Executable form of [`Self::after`].
    pub fn next(self, signal: Signal) -> (phase: Phase)
        ensures
            phase == self.after(signal),
    {
        match (self, signal) {
            (Phase::Terminated, _) => Phase::Terminated,
            (_, Signal::Quit) => Phase::Terminated,
            (_, Signal::Other) => self,
            (Phase::Uninitialized, Signal::Built) => Phase::Configured,
            (Phase::Uninitialized, _) => Phase::Uninitialized,
            (_, Signal::Built) => self,
            (_, Signal::Reconfigure) => Phase::Resizing,
            (Phase::Configured, Signal::Redraw) => Phase::Configured,
            (_, Signal::Redraw) => Phase::Running,
        }
    }
}

/// Why the surface image of a frame could not be had.
#[derive(Clone, Copy, Debug, PartialEq, Eq, Structural)]
pub enum SurfaceError {
    /// Acquiring the image took too long.
    Timeout,
    /// The surface has changed and must be configured anew.
    Outdated,
    /// The surface was lost and must be configured anew.
    Lost,
    /// The backend is out of memory.
    OutOfMemory,
}

/// What the outside world reports to the driver.
#[derive(Clone, Copy, Debug, PartialEq, Eq, Structural)]
pub enum Event {
    /// The surface changed size.
    Resized { width: u32, height: u32 },
    /// A frame is due. `song_ms` is the time since the soundtrack started,
    /// in milliseconds, `delta_us` the time since the previous frame, in
    /// microseconds.
    RedrawRequested { song_ms: u64, delta_us: u64 },
    /// The surface image for the frame last handed out could not be had.
    SurfaceFailed(SurfaceError),
    /// The pointer moved; the position is in 1/256 of a pixel.
    CursorMoved { x: i64, y: i64 },
    /// A mouse button went down or up.
    MouseInput { state: ElementState, button: MouseButton },
    /// The window is to be closed.
    CloseRequested,
    /// The escape key went down.
    EscapePressed,
}

/// The uploads and passes of one frame, each in submission order. All
/// uploads come before the first pass.
#[derive(Debug)]
pub struct Frame {
    pub uploads: Vec<BufferWrite>,
    pub passes: Vec<RenderPassCommand>,
}

/// What the driver asks of the outside world in answer to an event.
#[derive(Debug)]
pub enum Action {
    /// Nothing.
    Idle,
    /// Recreate the depth target and configure the surface for this size.
    Reconfigure { width: u32, height: u32 },
    /// Carry out the uploads, record and submit the passes, present.
    Render(Frame),
    /// Note that the frame was skipped and go on.
    SkipFrame,
    /// End the process with this exit code.
    Exit { code: i32 },
}

/// A full-screen pass into its own target: it clears the target to the
/// backdrop and samples the target of pass `input`.
pub open spec fn feedback_pass(id: u32, input: u32) -> RenderPassCommand {
    RenderPassCommand {
        pass: id,
        target: Attachment::Target(id),
        color_load: LoadOp::Clear(Color::backdrop()),
        depth_load: None,
        bindings: Bindings::Sampled { input: BindGroup::Target(input) },
        index_format: IndexFormat::Uint16,
        index_count: QUAD_INDEX_COUNT,
    }
}

/// The pass that composes the target of pass `input` onto the cleared
/// surface.
pub open spec fn composite_pass(id: u32, input: u32) -> RenderPassCommand {
    RenderPassCommand {
        pass: id,
        target: Attachment::Surface,
        color_load: LoadOp::Clear(Color::backdrop()),
        depth_load: None,
        bindings: Bindings::Sampled { input: BindGroup::Target(input) },
        index_format: IndexFormat::Uint16,
        index_count: QUAD_INDEX_COUNT,
    }
}

/// The pass that lays one overlay over what the surface already shows.
pub open spec fn overlay_pass(texture: OverlayTexture) -> RenderPassCommand {
    RenderPassCommand {
        pass: PASS_FS_QUAD,
        target: Attachment::Surface,
        color_load: LoadOp::Load,
        depth_load: None,
        bindings: Bindings::Sampled { input: BindGroup::Overlay(texture) },
        index_format: IndexFormat::Uint16,
        index_count: QUAD_INDEX_COUNT,
    }
}

/// The primary mesh pass: it clears colour and depth.
pub open spec fn primary_mesh_pass(index_count: u32) -> RenderPassCommand {
    RenderPassCommand {
        pass: PASS_WORLD,
        target: Attachment::Surface,
        color_load: LoadOp::Clear(Color::black()),
        depth_load: Some(DepthLoad::Clear),
        bindings: Bindings::Mesh,
        index_format: IndexFormat::Uint32,
        index_count,
    }
}

/// The pass of animation frame `frame`: it keeps colour and depth.
pub open spec fn dancer_pass(frame: int, index_count: u32) -> RenderPassCommand {
    RenderPassCommand {
        pass: (PASS_FIRST_DANCER + frame) as u32,
        target: Attachment::Surface,
        color_load: LoadOp::Load,
        depth_load: Some(DepthLoad::Load),
        bindings: Bindings::Mesh,
        index_format: IndexFormat::Uint32,
        index_count,
    }
}

/// The animation frame that follows `frame` in a sequence of `len` frames:
/// the next one, or the first after the last.
pub open spec fn next_dancer_frame(frame: int, len: int) -> int {
    if frame + 1 >= len {
        0
    } else {
        frame + 1
    }
}

/// The animation frame `ticks` advances after `frame`.
pub open spec fn dancer_frame_after(frame: int, len: int, ticks: nat) -> int
    decreases ticks,
{
    if ticks == 0 {
        frame
    } else {
        next_dancer_frame(dancer_frame_after(frame, len, (ticks - 1) as nat), len)
    }
}

/// Advancing the animation counts modulo the length of the sequence: the
/// frame never leaves the sequence and returns to the first frame exactly
/// when the count reaches the length.
pub proof fn lemma_dancer_frame_wraps(frame: int, len: int, ticks: nat)
    requires
        0 <= frame < len,
    ensures
        dancer_frame_after(frame, len, ticks) == (frame + ticks) % len,
        0 <= dancer_frame_after(frame, len, ticks) < len,
    decreases ticks,
{
    if ticks == 0 {
        vstd::arithmetic::div_mod::lemma_small_mod(frame as nat, len as nat);
    } else {
        lemma_dancer_frame_wraps(frame, len, (ticks - 1) as nat);
        let before = frame + ticks - 1;
        vstd::arithmetic::div_mod::lemma_fundamental_div_mod(before, len);
        vstd::arithmetic::div_mod::lemma_mod_bound(before, len);
        let q = before / len;
        let r = before % len;
        if r + 1 >= len {
            assert(before + 1 == len * (q + 1)) by (nonlinear_arith)
                requires
                    before == len * q + r,
                    r + 1 == len,
            ;
            vstd::arithmetic::div_mod::lemma_mod_multiples_basic(q + 1, len);
            assert((len * (q + 1)) % len == 0) by {
                assert(len * (q + 1) == (q + 1) * len) by (nonlinear_arith);
            }
        } else {
            vstd::arithmetic::div_mod::lemma_fundamental_div_mod_converse(
                before + 1,
                len,
                q,
                r + 1,
            );
        }
    }
}


/// What an [`Action`] asks for, with its lists as sequences.
pub enum Reaction {
    Idle,
    Reconfigure { width: u32, height: u32 },
    Render { uploads: Seq<BufferWrite>, passes: Seq<RenderPassCommand> },
    SkipFrame,
    Exit { code: i32 },
}

impl View for Action {
    type V = Reaction;

    open spec fn view(&self) -> Reaction {
        match self {
            Action::Idle => Reaction::Idle,
            Action::Reconfigure { width, height } => Reaction::Reconfigure {
                width: *width,
                height: *height,
            },
            Action::Render(frame) => Reaction::Render {
                uploads: frame.uploads@,
                passes: frame.passes@,
            },
            Action::SkipFrame => Reaction::SkipFrame,
            Action::Exit { code } => Reaction::Exit { code: *code },
        }
    }
}

/// Why the composition could not be set up.
#[derive(Clone, Copy, Debug, PartialEq, Eq, Structural)]
pub enum StateError {
    /// The surface has no extent.
    ZeroSurface,
    /// The primary mesh cannot be drawn.
    World(MeshPassError),
    /// There are more animation frames than pass numbers.
    TooManyDancers,
    /// The mesh of this animation frame cannot be drawn.
    Dancer { frame: usize, error: MeshPassError },
}

/// The composition as contracts see it.
pub struct StateView {
    pub phase: Phase,
    /// Size of the surface.
    pub width: u32,
    pub height: u32,
    pub format: TextureFormat,
    /// Width and height of the depth target.
    pub depth: (u32, u32),
    /// Width and height of each feedback target.
    pub feedback: (u32, u32),
    pub uniforms: Uniforms,
    /// Number of indices of the primary mesh.
    pub world_indices: u32,
    /// Number of indices of each animation frame.
    pub dancer_indices: Seq<u32>,
    /// The animation frame that is drawn.
    pub dancer_frame: nat,
    pub camera: CameraPreset,
    pub timeline: Timeline,
}

impl StateView {
    /// What holds of the composition at all times: the surface has an
    /// extent, the depth target matches it, every animation frame has a pass
    /// number, and the current animation frame exists unless there is none.
    pub open spec fn wf(self) -> bool {
        &&& self.phase != Phase::Uninitialized
        &&& self.width > 0 && self.height > 0
        &&& self.depth == (self.width, self.height)
        &&& PASS_FIRST_DANCER + self.dancer_indices.len() <= u32::MAX
        &&& if self.dancer_indices.len() == 0 {
            self.dancer_frame == 0
        } else {
            self.dancer_frame < self.dancer_indices.len()
        }
    }

    /// The pass is the composition's full-screen pass number `id`, which
    /// runs shader `shader` and owns a feedback target.
    pub open spec fn is_quad(self, pass: ShaderToylikeBuffer, id: u32, shader: u32) -> bool {
        pass.is_created_from(id, ShaderId(shader), self.feedback.0, self.feedback.1, self.format)
    }

    /// The pass is the composition's primary mesh pass.
    pub open spec fn is_world(self, pass: ObjMeshTest) -> bool {
        pass.is_mesh_pass(PASS_WORLD, ShaderId(SHADER_OBJ), self.format, self.world_indices)
    }

    /// The pass is the composition's pass of animation frame `frame`.
    pub open spec fn is_dancer(self, pass: ObjMeshTest, frame: int) -> bool {
        pass.is_mesh_pass(
            (PASS_FIRST_DANCER + frame) as u32,
            ShaderId(SHADER_OBJ),
            self.format,
            self.dancer_indices[frame],
        )
    }

    /// The overlays the timeline selects at the elapsed time.
    pub open spec fn overlays(self) -> Seq<OverlayTexture> {
        self.timeline.overlays_at(self.uniforms.elapsed_us)
    }

    /// The passes of a frame, in order: the two feedback passes, each
    /// sampling the other's target; the composition of the first onto the
    /// surface; the primary mesh, which clears; the current animation frame,
    /// which does not; and one pass per overlay, none of which clears.
    pub open spec fn passes(self) -> Seq<RenderPassCommand> {
        seq![
            feedback_pass(PASS_BUFFER_A, PASS_BUFFER_B),
            feedback_pass(PASS_BUFFER_B, PASS_BUFFER_A),
            composite_pass(PASS_BUFFER_SCREEN, PASS_BUFFER_A),
            primary_mesh_pass(self.world_indices),
        ] + (if self.dancer_indices.len() > 0 {
            seq![dancer_pass(self.dancer_frame as int, self.dancer_indices[self.dancer_frame as int])]
        } else {
            Seq::empty()
        }) + self.overlays().map_values(|o: OverlayTexture| overlay_pass(o))
    }

    /// The uploads of a frame: the uniform block, the model transform of the
    /// primary mesh and the camera.
    pub open spec fn uploads(self) -> Seq<BufferWrite> {
        seq![
            BufferWrite::Uniforms(self.uniforms),
            BufferWrite::Model(PASS_WORLD),
            BufferWrite::Camera { preset: self.camera, elapsed_us: self.uniforms.elapsed_us },
        ]
    }

    /// The composition after the surface took the size `width` by `height`:
    /// resolution and depth target follow, the feedback targets do not.
    pub open spec fn resized(self, width: u32, height: u32) -> StateView {
        StateView {
            width,
            height,
            depth: (width, height),
            uniforms: Uniforms { width, height, ..self.uniforms },
            ..self
        }
    }

    /// The composition after synchronising to the soundtrack at `song_ms`:
    /// while the fast flash is open the animation advances by one frame;
    /// while the beat flash is open the pointer sits in the middle of the
    /// surface with the left button down, otherwise the left button is up.
    pub open spec fn synced(self, song_ms: u64) -> StateView {
        let period = self.timeline.tempo_of().period();
        let dancer_frame = if pulse_open(song_ms as int, period / 4, DANCE_FLASH_MS as int) {
            next_dancer_frame(self.dancer_frame as int, self.dancer_indices.len() as int) as nat
        } else {
            self.dancer_frame
        };
        let uniforms = if pulse_open(song_ms as int, period, BEAT_FLASH_MS as int) {
            Uniforms {
                mouse_x: (self.width * (SUBPIXELS / 2)) as i64,
                mouse_y: (self.height * (SUBPIXELS / 2)) as i64,
                left_down: true,
                ..self.uniforms
            }
        } else {
            Uniforms { left_down: false, ..self.uniforms }
        };
        StateView { dancer_frame, uniforms, ..self }
    }

    /// The composition after `delta_us` more microseconds: the elapsed time
    /// has grown and the camera is on the path the timeline gives that time.
    pub open spec fn advanced(self, delta_us: u64) -> StateView {
        let elapsed_us = saturating_sum(self.uniforms.elapsed_us, delta_us);
        StateView {
            uniforms: Uniforms { elapsed_us, ..self.uniforms },
            camera: self.timeline.camera_at(elapsed_us),
            ..self
        }
    }

    /// What `event` means for the phase.
    pub open spec fn signal_of(event: Event) -> Signal {
        match event {
            Event::Resized { width, height } => if width > 0 && height > 0 {
                Signal::Reconfigure
            } else {
                Signal::Other
            },
            Event::RedrawRequested { .. } => Signal::Redraw,
            Event::SurfaceFailed(SurfaceError::Lost) => Signal::Reconfigure,
            Event::SurfaceFailed(SurfaceError::Outdated) => Signal::Reconfigure,
            Event::SurfaceFailed(SurfaceError::OutOfMemory) => Signal::Quit,
            Event::SurfaceFailed(SurfaceError::Timeout) => Signal::Other,
            Event::CursorMoved { .. } => Signal::Other,
            Event::MouseInput { .. } => Signal::Other,
            Event::CloseRequested => Signal::Quit,
            Event::EscapePressed => Signal::Quit,
        }
    }

    /// The composition after `event`.
    ///
    /// A resize to a size without extent is ignored. A lost or outdated
    /// surface is configured anew at its present size. A frame is only
    /// prepared once the surface has been sized. After termination nothing
    /// changes any more.
    pub open spec fn step(self, event: Event) -> StateView {
        let phase = self.phase.after(Self::signal_of(event));
        if self.phase == Phase::Terminated {
            self
        } else {
            match event {
                Event::Resized { width, height } => if width > 0 && height > 0 {
                    StateView { phase, ..self.resized(width, height) }
                } else {
                    self
                },
                Event::RedrawRequested { song_ms, delta_us } => if self.phase.draws() {
                    StateView { phase, ..self.synced(song_ms).advanced(delta_us) }
                } else {
                    self
                },
                Event::SurfaceFailed(SurfaceError::Lost) => StateView {
                    phase,
                    ..self.resized(self.width, self.height)
                },
                Event::SurfaceFailed(SurfaceError::Outdated) => StateView {
                    phase,
                    ..self.resized(self.width, self.height)
                },
                Event::SurfaceFailed(_) => StateView { phase, ..self },
                Event::CursorMoved { x, y } => StateView {
                    uniforms: Uniforms { mouse_x: x, mouse_y: y, ..self.uniforms },
                    ..self
                },
                Event::MouseInput { state, button } => StateView {
                    uniforms: self.uniforms.with_button(button, state == ElementState::Pressed),
                    ..self
                },
                Event::CloseRequested => StateView { phase, ..self },
                Event::EscapePressed => StateView { phase, ..self },
            }
        }
    }

    /// What the driver asks for in answer to `event`.
    pub open spec fn reaction(self, event: Event) -> Reaction {
        if self.phase == Phase::Terminated {
            Reaction::Idle
        } else {
            match event {
                Event::Resized { width, height } => if width > 0 && height > 0 {
                    Reaction::Reconfigure { width, height }
                } else {
                    Reaction::Idle
                },
                Event::RedrawRequested { .. } => if self.phase.draws() {
                    Reaction::Render {
                        uploads: self.step(event).uploads(),
                        passes: self.step(event).passes(),
                    }
                } else {
                    Reaction::Idle
                },
                Event::SurfaceFailed(SurfaceError::Lost) => Reaction::Reconfigure {
                    width: self.width,
                    height: self.height,
                },
                Event::SurfaceFailed(SurfaceError::Outdated) => Reaction::Reconfigure {
                    width: self.width,
                    height: self.height,
                },
                Event::SurfaceFailed(SurfaceError::OutOfMemory) => Reaction::Exit {
                    code: EXIT_FATAL,
                },
                Event::SurfaceFailed(SurfaceError::Timeout) => Reaction::SkipFrame,
                Event::CursorMoved { .. } => Reaction::Idle,
                Event::MouseInput { .. } => Reaction::Idle,
                Event::CloseRequested => Reaction::Exit { code: EXIT_OK },
                Event::EscapePressed => Reaction::Exit { code: EXIT_OK },
            }
        }
    }
}

/// Shader of the first feedback pass.
pub const SHADER_BUFFER_A: u32 = 0;

/// Shader of the second feedback pass.
pub const SHADER_BUFFER_B: u32 = 1;

/// Shader of the pass that composes the feedback onto the surface.
pub const SHADER_BUFFER_SCREEN: u32 = 2;

/// Shader of the overlay pass.
pub const SHADER_FS_QUAD: u32 = 3;

/// Shader of all mesh passes.
pub const SHADER_OBJ: u32 = 4;

/// The surface and the depth target that goes with it. The two only ever
/// change together.
#[derive(Debug)]
struct SurfaceState {
    width: u32,
    height: u32,
    format: TextureFormat,
    depth_texture: Texture,
}

/// The composition: its passes, its uniform block, its place in the
/// animation and on the timeline, and the phase of its driver.
#[derive(Debug)]
pub struct State {
    phase: Phase,
    surface: SurfaceState,
    toylike_uniforms: ShaderToyUniforms,
    buffer_a: ShaderToylikeBuffer,
    buffer_b: ShaderToylikeBuffer,
    buffer_screen: ShaderToylikeBuffer,
    fs_quad: ShaderToylikeBuffer,
    obj_mesh_test: ObjMeshTest,
    dancer: Vec<ObjMeshTest>,
    dancer_frame: usize,
    camera: CameraPreset,
    timeline: Timeline,
}

impl View for State {
    type V = StateView;

    closed spec fn view(&self) -> StateView {
        StateView {
            phase: self.phase,
            width: self.surface.width,
            height: self.surface.height,
            format: self.surface.format,
            depth: (self.surface.depth_texture.width, self.surface.depth_texture.height),
            feedback: (self.buffer_a.target_rtt.width, self.buffer_a.target_rtt.height),
            uniforms: self.toylike_uniforms.uniforms,
            world_indices: self.obj_mesh_test.num_indices,
            dancer_indices: Seq::new(self.dancer@.len(), |i: int| self.dancer@[i].num_indices),
            dancer_frame: self.dancer_frame as nat,
            camera: self.camera,
            timeline: self.timeline,
        }
    }
}

impl State {
    /// The composition is well-formed, the depth target is that of the
    /// surface, and every pass has the number and the description it was
    /// set up with.
    #[verifier::type_invariant]
    spec fn inv(self) -> bool {
        &&& self@.wf()
        &&& self.surface.depth_texture.is_depth_target(self.surface.width, self.surface.height)
        &&& self.buffer_a.id == PASS_BUFFER_A
        &&& self.buffer_b.id == PASS_BUFFER_B
        &&& self.buffer_screen.id == PASS_BUFFER_SCREEN
        &&& self.fs_quad.id == PASS_FS_QUAD
        &&& self.fs_quad.num_indices == QUAD_INDEX_COUNT
        &&& self.buffer_a.num_indices == QUAD_INDEX_COUNT
        &&& self.buffer_b.num_indices == QUAD_INDEX_COUNT
        &&& self.buffer_screen.num_indices == QUAD_INDEX_COUNT
        &&& self.obj_mesh_test.id == PASS_WORLD
        &&& forall|i: int|
            0 <= i < self.dancer@.len() ==> (#[trigger] self.dancer@[i]).id == PASS_FIRST_DANCER + i
        &&& Self::described(
            self.buffer_a,
            self.buffer_b,
            self.buffer_screen,
            self.fs_quad,
            self.obj_mesh_test,
            self.dancer@,
            self.surface.format,
        )
    }

    /// Every pass is described as its constructor describes it.
    #[verifier::opaque]
    spec fn described(
        buffer_a: ShaderToylikeBuffer,
        buffer_b: ShaderToylikeBuffer,
        buffer_screen: ShaderToylikeBuffer,
        fs_quad: ShaderToylikeBuffer,
        obj_mesh_test: ObjMeshTest,
        dancer: Seq<ObjMeshTest>,
        format: TextureFormat,
    ) -> bool {
        let width = buffer_a.target_rtt.width;
        let height = buffer_a.target_rtt.height;
        &&& buffer_a.is_created_from(PASS_BUFFER_A, ShaderId(SHADER_BUFFER_A), width, height, format)
        &&& buffer_b.is_created_from(PASS_BUFFER_B, ShaderId(SHADER_BUFFER_B), width, height, format)
        &&& buffer_screen.is_created_from(
            PASS_BUFFER_SCREEN,
            ShaderId(SHADER_BUFFER_SCREEN),
            width,
            height,
            format,
        )
        &&& fs_quad.is_created_from(PASS_FS_QUAD, ShaderId(SHADER_FS_QUAD), width, height, format)
        &&& obj_mesh_test.is_mesh_pass(
            PASS_WORLD,
            ShaderId(SHADER_OBJ),
            format,
            obj_mesh_test.num_indices,
        )
        &&& forall|i: int|
            0 <= i < dancer.len() ==> (#[trigger] dancer[i]).is_mesh_pass(
                (PASS_FIRST_DANCER + i) as u32,
                ShaderId(SHADER_OBJ),
                format,
                dancer[i].num_indices,
            )
    }

    /// What keeps the composition from being set up, if anything: a surface
    /// without extent, then a primary mesh that cannot be drawn, then more
    /// animation frames than pass numbers, then the first animation frame
    /// that cannot be drawn.
    pub open spec fn setup_fault(width: u32, height: u32, world: Mesh, dancers: Seq<Mesh>) -> Option<
        StateError,
    > {
        if width == 0 || height == 0 {
            Some(StateError::ZeroSurface)
        } else if ObjMeshTest::mesh_fault(world) is Some {
            Some(StateError::World(ObjMeshTest::mesh_fault(world).unwrap()))
        } else if PASS_FIRST_DANCER + dancers.len() > u32::MAX {
            Some(StateError::TooManyDancers)
        } else {
            Self::dancer_fault(dancers, dancers.len() as int)
        }
    }

    /// The first of the first `n` animation frames that cannot be drawn,
    /// with what is wrong with it.
    pub open spec fn dancer_fault(dancers: Seq<Mesh>, n: int) -> Option<StateError>
        decreases n,
    {
        if n <= 0 {
            None
        } else {
            match Self::dancer_fault(dancers, n - 1) {
                Some(e) => Some(e),
                None => match ObjMeshTest::mesh_fault(dancers[n - 1]) {
                    Some(error) => Some(StateError::Dancer { frame: (n - 1) as usize, error }),
                    None => None,
                },
            }
        }
    }

    /// The composition as it is set up: configured, at rest, at the start
    /// of the animation and of the timeline.
    pub open spec fn initial_view(
        width: u32,
        height: u32,
        surface_format: TextureFormat,
        world: Mesh,
        dancers: Seq<Mesh>,
        timeline: Timeline,
    ) -> StateView {
        StateView {
            phase: Phase::Uninitialized.after(Signal::Built),
            width,
            height,
            format: surface_format,
            depth: (width, height),
            feedback: (FEEDBACK_TARGET_SIZE, FEEDBACK_TARGET_SIZE),
            uniforms: Uniforms::initial(),
            world_indices: world.faces@.len() as u32,
            dancer_indices: Seq::new(dancers.len(), |i: int| dancers[i].faces@.len() as u32),
            dancer_frame: 0,
            camera: CameraPreset::Drift,
            timeline,
        }
    }

    /// Sets the composition up for a surface of the given size and format:
    /// a depth target of that size, the four full-screen passes with
    /// feedback targets of their own fixed size, one mesh pass for `world`
    /// and one for each of `dancers`, in this order.
    pub fn new(
        width: u32,
        height: u32,
        surface_format: TextureFormat,
        world: &Mesh,
        dancers: &Vec<Mesh>,
        timeline: Timeline,
    ) -> (state: Result<State, StateError>)
        ensures
            match state {
                Ok(s) => Self::setup_fault(width, height, *world, dancers@) is None && s@
                    == Self::initial_view(width, height, surface_format, *world, dancers@, timeline)
                    && s@.wf(),
                Err(e) => Self::setup_fault(width, height, *world, dancers@) == Some(e),
            },
    {
        if width == 0 || height == 0 {
            return Err(StateError::ZeroSurface);
        }
        let obj_mesh_test = match ObjMeshTest::create(
            PASS_WORLD,
            ShaderId(SHADER_OBJ),
            surface_format,
            world,
        ) {
            Ok(pass) => pass,
            Err(e) => {
                return Err(StateError::World(e));
            },
        };
        if dancers.len() > (u32::MAX - PASS_FIRST_DANCER) as usize {
            return Err(StateError::TooManyDancers);
        }
        let mut dancer: Vec<ObjMeshTest> = Vec::new();
        let mut i: usize = 0;
        while i < dancers.len()
            invariant
                i <= dancers@.len(),
                width > 0 && height > 0,
                ObjMeshTest::mesh_fault(*world) is None,
                PASS_FIRST_DANCER + dancers@.len() <= u32::MAX,
                Self::dancer_fault(dancers@, i as int) is None,
                dancer@.len() == i,
                forall|k: int|
                    0 <= k < i ==> (#[trigger] dancer@[k]).is_mesh_pass(
                        (PASS_FIRST_DANCER + k) as u32,
                        ShaderId(SHADER_OBJ),
                        surface_format,
                        dancers@[k].faces@.len() as u32,
                    ),
            decreases dancers@.len() - i,
        {
            let id: u32 = PASS_FIRST_DANCER + i as u32;
            match ObjMeshTest::create(id, ShaderId(SHADER_OBJ), surface_format, &dancers[i]) {
                Ok(pass) => {
                    dancer.push(pass);
                },
                Err(error) => {
                    proof {
                        assert(Self::dancer_fault(dancers@, i + 1) == Some(
                            StateError::Dancer { frame: i, error },
                        ));
                        Self::lemma_dancer_fault_persists(dancers@, i + 1, dancers@.len() as int);
                    }
                    return Err(StateError::Dancer { frame: i, error });
                },
            }
            i += 1;
        }
        let size = FEEDBACK_TARGET_SIZE;
        let buffer_a = ShaderToylikeBuffer::create(
            PASS_BUFFER_A,
            ShaderId(SHADER_BUFFER_A),
            size,
            size,
            surface_format,
        ).unwrap();
        let buffer_b = ShaderToylikeBuffer::create(
            PASS_BUFFER_B,
            ShaderId(SHADER_BUFFER_B),
            size,
            size,
            surface_format,
        ).unwrap();
        let buffer_screen = ShaderToylikeBuffer::create(
            PASS_BUFFER_SCREEN,
            ShaderId(SHADER_BUFFER_SCREEN),
            size,
            size,
            surface_format,
        ).unwrap();
        let fs_quad = ShaderToylikeBuffer::create(
            PASS_FS_QUAD,
            ShaderId(SHADER_FS_QUAD),
            size,
            size,
            surface_format,
        ).unwrap();
        proof {
            reveal(State::described);
        }
        let state = State {
            phase: Phase::Uninitialized.next(Signal::Built),
            surface: SurfaceState {
                width,
                height,
                format: surface_format,
                depth_texture: Texture::create_depth_texture(width, height),
            },
            toylike_uniforms: ShaderToyUniforms::new(),
            buffer_a,
            buffer_b,
            buffer_screen,
            fs_quad,
            obj_mesh_test,
            dancer,
            dancer_frame: 0,
            camera: CameraPreset::Drift,
            timeline,
        };
        proof {
            assert(state@.dancer_indices =~= Seq::new(
                dancers@.len(),
                |i: int| dancers@[i].faces@.len() as u32,
            ));
        }
        Ok(state)
    }

    /// Once an animation frame cannot be drawn, that stays the first fault.
    pub proof fn lemma_dancer_fault_persists(dancers: Seq<Mesh>, n: int, m: int)
        requires
            0 <= n <= m,
            Self::dancer_fault(dancers, n) is Some,
        ensures
            Self::dancer_fault(dancers, m) == Self::dancer_fault(dancers, n),
        decreases m - n,
    {
        if n < m {
            Self::lemma_dancer_fault_persists(dancers, n, m - 1);
        }
    }
}


impl State {
    /// The phase of the driver.
    pub fn phase(&self) -> (phase: Phase)
        ensures
            phase == self@.phase,
    {
        self.phase
    }

    /// Width and height of the surface.
    pub fn size(&self) -> (size: (u32, u32))
        ensures
            size == (self@.width, self@.height),
    {
        (self.surface.width, self.surface.height)
    }

    /// Format of the surface.
    pub fn surface_format(&self) -> (format: TextureFormat)
        ensures
            format == self@.format,
    {
        self.surface.format
    }

    /// The uniform block as it stands.
    pub fn uniforms(&self) -> (block: Uniforms)
        ensures
            block == self@.uniforms,
    {
        self.toylike_uniforms.uniforms
    }

    /// The depth target; it always has the size of the surface.
    pub fn depth_texture(&self) -> (depth: &Texture)
        ensures
            depth.is_depth_target(self@.width, self@.height),
            (depth.width, depth.height) == self@.depth,
    {
        proof {
            use_type_invariant(self);
        }
        &self.surface.depth_texture
    }

    /// The animation frame that is drawn; `None` when there is no animation.
    pub fn dancer_frame(&self) -> (frame: Option<usize>)
        ensures
            frame == if self@.dancer_indices.len() > 0 {
                Some(self@.dancer_frame as usize)
            } else {
                None
            },
    {
        proof {
            use_type_invariant(self);
        }
        if self.dancer_frame < self.dancer.len() {
            Some(self.dancer_frame)
        } else {
            None
        }
    }

    /// Number of animation frames.
    pub fn dancer_len(&self) -> (len: usize)
        ensures
            len == self@.dancer_indices.len(),
    {
        self.dancer.len()
    }

    /// The camera path in force.
    pub fn camera(&self) -> (preset: CameraPreset)
        ensures
            preset == self@.camera,
    {
        self.camera
    }

    /// The timeline the composition follows.
    pub fn timeline(&self) -> (timeline: &Timeline)
        ensures
            *timeline == self@.timeline,
    {
        &self.timeline
    }

    /// The first feedback pass.
    pub fn buffer_a(&self) -> (pass: &ShaderToylikeBuffer)
        ensures
            self@.is_quad(*pass, PASS_BUFFER_A, SHADER_BUFFER_A),
    {
        proof {
            use_type_invariant(self);
            reveal(State::described);
        }
        &self.buffer_a
    }

    /// The second feedback pass.
    pub fn buffer_b(&self) -> (pass: &ShaderToylikeBuffer)
        ensures
            self@.is_quad(*pass, PASS_BUFFER_B, SHADER_BUFFER_B),
    {
        proof {
            use_type_invariant(self);
            reveal(State::described);
        }
        &self.buffer_b
    }

    /// The pass that composes the feedback onto the surface.
    pub fn buffer_screen(&self) -> (pass: &ShaderToylikeBuffer)
        ensures
            self@.is_quad(*pass, PASS_BUFFER_SCREEN, SHADER_BUFFER_SCREEN),
    {
        proof {
            use_type_invariant(self);
            reveal(State::described);
        }
        &self.buffer_screen
    }

    /// The pass that draws overlays.
    pub fn fs_quad(&self) -> (pass: &ShaderToylikeBuffer)
        ensures
            self@.is_quad(*pass, PASS_FS_QUAD, SHADER_FS_QUAD),
    {
        proof {
            use_type_invariant(self);
            reveal(State::described);
        }
        &self.fs_quad
    }

    /// The primary mesh pass.
    pub fn obj_mesh_test(&self) -> (pass: &ObjMeshTest)
        ensures
            self@.is_world(*pass),
    {
        proof {
            use_type_invariant(self);
            reveal(State::described);
        }
        &self.obj_mesh_test
    }

    /// The pass of animation frame `frame`, `None` past the last frame.
    pub fn dancer(&self, frame: usize) -> (pass: Option<&ObjMeshTest>)
        ensures
            pass.is_some() == (frame < self@.dancer_indices.len()),
            pass matches Some(p) ==> self@.is_dancer(*p, frame as int),
    {
        proof {
            use_type_invariant(self);
            reveal(State::described);
        }
        if frame < self.dancer.len() {
            Some(&self.dancer[frame])
        } else {
            None
        }
    }

    /// Moves the pointer; the position is in 1/256 of a pixel.
    pub fn update_mousexy(&mut self, mx: i64, my: i64)
        ensures
            final(self)@ == (StateView {
                uniforms: Uniforms { mouse_x: mx, mouse_y: my, ..old(self)@.uniforms },
                ..old(self)@
            }),
            final(self)@.wf(),
    {
        proof {
            use_type_invariant(&*self);
        }
        self.toylike_uniforms.uniforms.mouse_x = mx;
        self.toylike_uniforms.uniforms.mouse_y = my;
    }

    /// Records that a mouse button went down or up. Only the left and the
    /// right button leave a trace.
    pub fn update_mouse_event(&mut self, element_state: &ElementState, button: &MouseButton)
        ensures
            final(self)@ == (StateView {
                uniforms: old(self)@.uniforms.with_button(
                    *button,
                    *element_state == ElementState::Pressed,
                ),
                ..old(self)@
            }),
            final(self)@.wf(),
    {
        proof {
            use_type_invariant(&*self);
        }
        let down = match *element_state {
            ElementState::Pressed => true,
            ElementState::Released => false,
        };
        match *button {
            MouseButton::Left => {
                self.toylike_uniforms.uniforms.left_down = down;
            },
            MouseButton::Right => {
                self.toylike_uniforms.uniforms.right_down = down;
            },
            _ => {},
        }
    }

    /// Synchronises to the soundtrack, `elapsed_millis` milliseconds after
    /// its start: advances the animation while the fast flash is open, and
    /// simulates a click in the middle of the surface while the beat flash
    /// is open.
    pub fn draw_sync_test(&mut self, elapsed_millis: u64)
        ensures
            final(self)@ == old(self)@.synced(elapsed_millis),
            final(self)@.wf(),
    {
        proof {
            use_type_invariant(&*self);
        }
        let period = self.timeline.tempo().beat_period_ms();
        let is_beat = pulse(elapsed_millis, period, BEAT_FLASH_MS);
        let is_beat_x2 = pulse(elapsed_millis, period / 4, DANCE_FLASH_MS);
        if is_beat_x2 {
            let next: usize = if self.dancer_frame + 1 >= self.dancer.len() {
                0
            } else {
                self.dancer_frame + 1
            };
            self.dancer_frame = next;
        }
        if is_beat {
            self.toylike_uniforms.uniforms.mouse_x = self.surface.width as i64 * (SUBPIXELS / 2);
            self.toylike_uniforms.uniforms.mouse_y = self.surface.height as i64 * (SUBPIXELS / 2);
            self.toylike_uniforms.uniforms.left_down = true;
        } else {
            self.toylike_uniforms.uniforms.left_down = false;
        }
    }

    /// Takes note of a new surface size. A size without extent is ignored;
    /// otherwise the depth target is described anew for the new size and the
    /// resolution in the uniform block follows. The feedback targets keep
    /// their size. Returns whether the surface has to be configured anew.
    pub fn resize(&mut self, width: u32, height: u32) -> (reconfigure: bool)
        ensures
            reconfigure == (width > 0 && height > 0),
            final(self)@ == if reconfigure {
                old(self)@.resized(width, height)
            } else {
                old(self)@
            },
            final(self)@.wf(),
    {
        proof {
            use_type_invariant(&*self);
        }
        if width > 0 && height > 0 {
            self.surface = SurfaceState {
                width,
                height,
                format: self.surface.format,
                depth_texture: Texture::create_depth_texture(width, height),
            };
            self.toylike_uniforms.uniforms.width = width;
            self.toylike_uniforms.uniforms.height = height;
            true
        } else {
            false
        }
    }

    /// Offers an event to the composition before the driver acts on it.
    /// The composition consumes none: the answer is always `false` and
    /// nothing changes.
    pub fn input(&mut self, event: &Event) -> (consumed: bool)
        ensures
            !consumed,
            final(self)@ == old(self)@,
            final(self)@.wf(),
    {
        proof {
            use_type_invariant(&*self);
        }
        false
    }

    /// Lets `delta_us` microseconds pass and queues the uploads of the
    /// frame: the uniform block as it then stands, the model transform of
    /// the primary mesh, and the camera.
    pub fn update(&mut self, delta_us: u64, queue: &mut Queue)
        ensures
            final(self)@ == old(self)@.advanced(delta_us),
            final(self)@.wf(),
            final(queue).writes@ == old(queue).writes@ + final(self)@.uploads(),
    {
        proof {
            use_type_invariant(&*self);
        }
        let mut block = self.toylike_uniforms.uniforms;
        block.advance_time(delta_us);
        self.toylike_uniforms.uniforms = block;
        let elapsed_us = block.elapsed_us;
        self.camera = self.timeline.camera_preset(elapsed_us);
        self.toylike_uniforms.push_buffer_to_gfx_card(queue);
        self.obj_mesh_test.push_modelview(queue);
        queue.write_buffer(BufferWrite::Camera { preset: self.camera, elapsed_us });
        proof {
            assert(queue.writes@ =~= old(queue).writes@ + self@.uploads());
        }
    }

    /// Records the passes of the frame as the composition stands.
    pub fn render(&self, encoder: &mut CommandEncoder)
        ensures
            final(encoder).passes@ == old(encoder).passes@ + self@.passes(),
    {
        proof {
            use_type_invariant(self);
        }
        let ghost base = encoder.passes@;
        self.buffer_a.render_to_own_buffer(self.buffer_b.get_target_rtt_bindgroup(), encoder);
        self.buffer_b.render_to_own_buffer(self.buffer_a.get_target_rtt_bindgroup(), encoder);
        self.buffer_screen.render_to_screen(self.buffer_a.get_target_rtt_bindgroup(), encoder);
        self.obj_mesh_test.render_to_screen(encoder);
        if self.dancer_frame < self.dancer.len() {
            self.dancer[self.dancer_frame].render_to_screen_no_clear(encoder);
        }
        let ghost scene = encoder.passes@;
        let overlays = self.timeline.evaluate(self.toylike_uniforms.uniforms.elapsed_us);
        let mut k: usize = 0;
        while k < overlays.len()
            invariant
                k <= overlays@.len(),
                self.fs_quad.id == PASS_FS_QUAD,
                self.fs_quad.num_indices == QUAD_INDEX_COUNT,
                encoder.passes@ == scene + overlays@.take(k as int).map_values(
                    |o: OverlayTexture| overlay_pass(o),
                ),
            decreases overlays@.len() - k,
        {
            self.fs_quad.render_to_screen_without_clear(BindGroup::Overlay(overlays[k]), encoder);
            proof {
                let paint = |o: OverlayTexture| overlay_pass(o);
                assert(overlays@.take(k + 1) =~= overlays@.take(k as int).push(overlays@[k as int]));
                assert(overlays@.take(k + 1).map_values(paint) =~= overlays@.take(
                    k as int,
                ).map_values(paint).push(overlay_pass(overlays@[k as int])));
            }
            k += 1;
        }
        proof {
            assert(overlays@.take(k as int) =~= overlays@);
            assert(encoder.passes@ =~= base + self@.passes());
        }
    }

    /// Acts on one event: changes the composition as the event demands and
    /// says what the outside world has to do.
    pub fn handle(&mut self, event: Event) -> (action: Action)
        ensures
            final(self)@ == old(self)@.step(event),
            final(self)@.wf(),
            action@ == old(self)@.reaction(event),
    {
        proof {
            use_type_invariant(&*self);
        }
        if let Phase::Terminated = self.phase {
            return Action::Idle;
        }
        match event {
            Event::Resized { width, height } => {
                if self.resize(width, height) {
                    proof {
                        use_type_invariant(&*self);
                    }
                    self.phase = self.phase.next(Signal::Reconfigure);
                    Action::Reconfigure { width, height }
                } else {
                    Action::Idle
                }
            },
            Event::RedrawRequested { song_ms, delta_us } => {
                match self.phase {
                    Phase::Running | Phase::Resizing => {
                        self.draw_sync_test(song_ms);
                        let mut queue = Queue::new();
                        self.update(delta_us, &mut queue);
                        let mut encoder = CommandEncoder::new();
                        self.render(&mut encoder);
                        proof {
                            use_type_invariant(&*self);
                        }
                        self.phase = self.phase.next(Signal::Redraw);
                        proof {
                            assert(queue.writes@ =~= self@.uploads());
                            assert(encoder.passes@ =~= self@.passes());
                            assert(self@.uploads() == old(self)@.step(event).uploads());
                            assert(self@ == old(self)@.step(event));
                        }
                        Action::Render(Frame { uploads: queue.writes, passes: encoder.finish() })
                    },
                    _ => Action::Idle,
                }
            },
            Event::SurfaceFailed(SurfaceError::Lost) | Event::SurfaceFailed(
                SurfaceError::Outdated,
            ) => {
                let (width, height) = self.size();
                self.resize(width, height);
                proof {
                    use_type_invariant(&*self);
                }
                self.phase = self.phase.next(Signal::Reconfigure);
                Action::Reconfigure { width, height }
            },
            Event::SurfaceFailed(SurfaceError::OutOfMemory) => {
                self.phase = self.phase.next(Signal::Quit);
                Action::Exit { code: EXIT_FATAL }
            },
            Event::SurfaceFailed(SurfaceError::Timeout) => Action::SkipFrame,
            Event::CursorMoved { x, y } => {
                self.update_mousexy(x, y);
                Action::Idle
            },
            Event::MouseInput { state, button } => {
                self.update_mouse_event(&state, &button);
                Action::Idle
            },
            Event::CloseRequested | Event::EscapePressed => {
                self.phase = self.phase.next(Signal::Quit);
                Action::Exit { code: EXIT_OK }
            },
        }
    }
}


/// Every event leaves the composition well-formed.
pub proof fn lemma_step_keeps_wf(state: StateView, event: Event)
    requires
        state.wf(),
    ensures
        state.step(event).wf(),
{
}

/// After a resize to a size with extent, resolution and depth target have
/// exactly that size, the feedback targets are as they were, and the surface
/// is to be configured for that size. A resize to a size without extent
/// changes nothing and asks for nothing.
pub proof fn lemma_resize_follows_surface(state: StateView, width: u32, height: u32)
    requires
        state.wf(),
        state.phase != Phase::Terminated,
    ensures
        ({
            let after = state.step(Event::Resized { width, height });
            let asked = state.reaction(Event::Resized { width, height });
            if width > 0 && height > 0 {
                &&& (after.uniforms.width, after.uniforms.height) == (width, height)
                &&& after.depth == (width, height)
                &&& after.feedback == state.feedback
                &&& asked == Reaction::Reconfigure { width, height }
            } else {
                &&& after == state
                &&& asked == Reaction::Idle
            }
        }),
{
}

/// A lost or outdated surface does not end the process: the driver asks for
/// the surface to be configured anew at its present size, and the next
/// frame that is asked for is rendered and brings the driver back to
/// running.
pub proof fn lemma_surface_loss_recovers(
    state: StateView,
    error: SurfaceError,
    song_ms: u64,
    delta_us: u64,
)
    requires
        state.wf(),
        state.phase != Phase::Terminated,
        error == SurfaceError::Lost || error == SurfaceError::Outdated,
    ensures
        ({
            let lost = Event::SurfaceFailed(error);
            let redraw = Event::RedrawRequested { song_ms, delta_us };
            let recovering = state.step(lost);
            &&& state.reaction(lost) == Reaction::Reconfigure {
                width: state.width,
                height: state.height,
            }
            &&& recovering.phase == Phase::Resizing
            &&& recovering.reaction(redraw) is Render
            &&& recovering.step(redraw).phase == Phase::Running
        }),
{
}

/// The driver terminates exactly when it asks for the process to end, and
/// it asks for that only on a request to close, on the escape key and when
/// the backend is out of memory.
pub proof fn lemma_exit_is_deliberate(state: StateView, event: Event)
    requires
        state.phase != Phase::Terminated,
    ensures
        state.step(event).phase == Phase::Terminated <==> state.reaction(event) is Exit,
        state.reaction(event) is Exit <==> (event == Event::CloseRequested || event
            == Event::EscapePressed || event == Event::SurfaceFailed(SurfaceError::OutOfMemory)),
        state.reaction(event) matches Reaction::Exit { code } ==> (code == EXIT_FATAL <==> event
            == Event::SurfaceFailed(SurfaceError::OutOfMemory)),
{
}


/// A frame uploads the uniform block exactly once, first of all, and as it
/// stands when the passes are recorded: every pass of the frame sees the
/// same snapshot.
pub proof fn lemma_one_snapshot_per_frame(state: StateView)
    ensures
        state.uploads()[0] == BufferWrite::Uniforms(state.uniforms),
        forall|i: int|
            0 < i < state.uploads().len() ==> !(#[trigger] state.uploads()[i] is Uniforms),
{
}

} // verus!
