//! What a frame asks of the graphics backend, as plain data: buffer uploads
//! and render passes, in the order in which they are to be carried out.

use crate::timeline::{CameraPreset, OverlayTexture};
use crate::uniforms::Uniforms;
use vstd::prelude::*;

verus! {

/// A colour with channels in thousandths of full intensity.
#[derive(Clone, Copy, Debug, PartialEq, Eq, Structural)]
pub struct Color {
    pub r: u16,
    pub g: u16,
    pub b: u16,
    pub a: u16,
}

impl Color {
    /// The background that full-screen passes clear to.
    pub open spec fn backdrop() -> Color {
        Color { r: 100, g: 200, b: 300, a: 1000 }
    }

    /// Opaque black, the background of the primary mesh pass.
    pub open spec fn black() -> Color {
        Color { r: 0, g: 0, b: 0, a: 1000 }
    }

    /// Opaque white, the default material colour.
    pub open spec fn white() -> Color {
        Color { r: 1000, g: 1000, b: 1000, a: 1000 }
    }

    /// Executable form of [`Self::backdrop`].
    pub fn background() -> (c: Color)
        ensures
            c == Color::backdrop(),
    {
        Color { r: 100, g: 200, b: 300, a: 1000 }
    }

    /// Executable form of [`Self::black`].
    pub fn opaque_black() -> (c: Color)
        ensures
            c == Color::black(),
    {
        Color { r: 0, g: 0, b: 0, a: 1000 }
    }

    /// Executable form of [`Self::white`].
    pub fn opaque_white() -> (c: Color)
        ensures
            c == Color::white(),
    {
        Color { r: 1000, g: 1000, b: 1000, a: 1000 }
    }
}

/// What a pass does to the colour attachment before it draws.
#[derive(Clone, Copy, Debug, PartialEq, Eq, Structural)]
pub enum LoadOp {
    /// Start from a uniform colour; whatever the attachment held is lost.
    Clear(Color),
    /// Keep what earlier passes drew.
    Load,
}

/// What a pass does to the depth attachment before it draws.
#[derive(Clone, Copy, Debug, PartialEq, Eq, Structural)]
pub enum DepthLoad {
    /// Reset every depth value to the far plane.
    Clear,
    /// Keep the depth of what earlier passes drew.
    Load,
}

/// Where a pass draws.
#[derive(Clone, Copy, Debug, PartialEq, Eq, Structural)]
pub enum Attachment {
    /// The persistent render target owned by the pass with this number.
    Target(u32),
    /// The presentable surface image of the current frame.
    Surface,
}

/// A texture together with its sampler, as a pass can sample it.
#[derive(Clone, Copy, Debug, PartialEq, Eq, Structural)]
pub enum BindGroup {
    /// The render target of the pass with this number.
    Target(u32),
    /// A texture of the overlay catalogue.
    Overlay(OverlayTexture),
    /// A decoded image that was staged at startup, by number.
    Image(u32),
}

/// What a pass binds besides its pipeline and geometry.
#[derive(Clone, Copy, Debug, PartialEq, Eq, Structural)]
pub enum Bindings {
    /// Group 0 is the shared uniform block, group 1 the sampled input.
    Sampled { input: BindGroup },
    /// The three groups of a mesh pass: shared uniforms with the camera,
    /// material with diffuse texture, and the model transform.
    Mesh,
}

/// Width of the indices in an index buffer.
#[derive(Clone, Copy, Debug, PartialEq, Eq, Structural)]
pub enum IndexFormat {
    Uint16,
    Uint32,
}

/// One render pass of a frame.
#[derive(Clone, Copy, Debug, PartialEq, Eq, Structural)]
pub struct RenderPassCommand {
    /// Number of the pass whose pipeline and geometry are used.
    pub pass: u32,
    pub target: Attachment,
    pub color_load: LoadOp,
    /// `None` for a pass without depth attachment.
    pub depth_load: Option<DepthLoad>,
    pub bindings: Bindings,
    pub index_format: IndexFormat,
    pub index_count: u32,
}

impl RenderPassCommand {
    /// The texture the pass samples, if it samples one.
    pub open spec fn input(self) -> Option<BindGroup> {
        match self.bindings {
            Bindings::Sampled { input } => Some(input),
            Bindings::Mesh => None,
        }
    }

    /// The pass samples the very target it draws into.
    pub open spec fn samples_own_target(self) -> bool {
        match (self.target, self.input()) {
            (Attachment::Target(t), Some(BindGroup::Target(s))) => t == s,
            _ => false,
        }
    }

    /// Executable form of [`Self::samples_own_target`].
    pub fn reads_own_target(&self) -> (hazard: bool)
        ensures
            hazard == self.samples_own_target(),
    {
        match (self.target, self.bindings) {
            (Attachment::Target(t), Bindings::Sampled { input: BindGroup::Target(s) }) => t == s,
            _ => false,
        }
    }
}

/// The render passes recorded for one frame, in submission order.
#[derive(Debug)]
pub struct CommandEncoder {
    pub passes: Vec<RenderPassCommand>,
}

impl CommandEncoder {
    /// An encoder with nothing recorded.
    pub fn new() -> (encoder: CommandEncoder)
        ensures
            encoder.passes@ == Seq::<RenderPassCommand>::empty(),
    {
        CommandEncoder { passes: Vec::new() }
    }

    /// Appends one pass.
    pub fn record(&mut self, command: RenderPassCommand)
        ensures
            final(self).passes@ == old(self).passes@.push(command),
    {
        self.passes.push(command);
    }

    /// Ends recording and hands out the passes.
    pub fn finish(self) -> (passes: Vec<RenderPassCommand>)
        ensures
            passes@ == self.passes@,
    {
        self.passes
    }
}

/// One buffer upload of a frame.
#[derive(Clone, Copy, Debug, PartialEq, Eq, Structural)]
pub enum BufferWrite {
    /// The shared uniform block, as one consistent snapshot.
    Uniforms(Uniforms),
    /// The model transform of the mesh pass with this number.
    Model(u32),
    /// The view-projection of the camera on the given path at the given
    /// elapsed time in microseconds.
    Camera { preset: CameraPreset, elapsed_us: u64 },
}

/// The buffer uploads queued for one frame, in submission order.
#[derive(Debug)]
pub struct Queue {
    pub writes: Vec<BufferWrite>,
}

impl Queue {
    /// A queue with nothing in it.
    pub fn new() -> (queue: Queue)
        ensures
            queue.writes@ == Seq::<BufferWrite>::empty(),
    {
        Queue { writes: Vec::new() }
    }

    /// Appends one upload.
    pub fn write_buffer(&mut self, write: BufferWrite)
        ensures
            final(self).writes@ == old(self).writes@.push(write),
    {
        self.writes.push(write);
    }
}

} // verus!
