//! The uniform block shared by all passes: pointer state, viewport
//! resolution and elapsed time.

use crate::commands::{BufferWrite, Queue};
use vstd::prelude::*;

verus! {

/// Pointer coordinates are kept in this many parts of a pixel.
pub const SUBPIXELS: i64 = 256;

/// Size of the block in a uniform buffer, in bytes: four lanes of pointer
/// state, two of resolution, one of time and one of padding, four bytes each.
pub const UNIFORM_BLOCK_BYTES: u64 = 32;

/// A mouse button as the input source reports it.
#[derive(Clone, Copy, Debug, PartialEq, Eq, Structural)]
pub enum MouseButton {
    Left,
    Right,
    Middle,
    Other,
}

/// Whether a button went down or up.
#[derive(Clone, Copy, Debug, PartialEq, Eq, Structural)]
pub enum ElementState {
    Pressed,
    Released,
}

/// The uniform block.
#[derive(Clone, Copy, Debug, PartialEq, Eq, Structural)]
pub struct Uniforms {
    /// Pointer position in [`SUBPIXELS`] parts of a pixel.
    pub mouse_x: i64,
    pub mouse_y: i64,
    pub left_down: bool,
    pub right_down: bool,
    pub width: u32,
    pub height: u32,
    /// Elapsed time in microseconds.
    pub elapsed_us: u64,
}

/// Sum that stops at the largest representable time instead of wrapping.
pub open spec fn saturating_sum(elapsed_us: u64, delta_us: u64) -> u64 {
    if elapsed_us + delta_us > u64::MAX {
        u64::MAX
    } else {
        (elapsed_us + delta_us) as u64
    }
}

/// Elapsed time after advancing by each of `deltas` in turn.
pub open spec fn elapsed_after(start_us: u64, deltas: Seq<u64>) -> u64
    decreases deltas.len(),
{
    if deltas.len() == 0 {
        start_us
    } else {
        saturating_sum(elapsed_after(start_us, deltas.drop_last()), deltas.last())
    }
}

/// Exact total of `deltas`.
pub open spec fn total(deltas: Seq<u64>) -> int
    decreases deltas.len(),
{
    if deltas.len() == 0 {
        0
    } else {
        total(deltas.drop_last()) + deltas.last()
    }
}

impl Uniforms {
    /// The block at startup: pointer at rest in the origin, no resolution,
    /// no time elapsed.
    pub open spec fn initial() -> Uniforms {
        Uniforms {
            mouse_x: 0,
            mouse_y: 0,
            left_down: false,
            right_down: false,
            width: 0,
            height: 0,
            elapsed_us: 0,
        }
    }

    /// The block at startup.
    pub fn new() -> (block: Uniforms)
        ensures
            block == Uniforms::initial(),
    {
        Uniforms {
            mouse_x: 0,
            mouse_y: 0,
            left_down: false,
            right_down: false,
            width: 0,
            height: 0,
            elapsed_us: 0,
        }
    }

    /// Moves the pointer.
    pub fn set_mouse(&mut self, x: i64, y: i64)
        ensures
            *final(self) == (Uniforms { mouse_x: x, mouse_y: y, ..*old(self) }),
    {
        self.mouse_x = x;
        self.mouse_y = y;
    }

    /// The block after `button` went down (`down`) or up. Only the left and
    /// the right button are part of the block.
    pub open spec fn with_button(self, button: MouseButton, down: bool) -> Uniforms {
        match button {
            MouseButton::Left => Uniforms { left_down: down, ..self },
            MouseButton::Right => Uniforms { right_down: down, ..self },
            _ => self,
        }
    }

    /// Records that `button` went down (`down`) or up.
    pub fn set_mouse_button(&mut self, button: MouseButton, down: bool)
        ensures
            *final(self) == old(self).with_button(button, down),
    {
        match button {
            MouseButton::Left => {
                self.left_down = down;
            },
            MouseButton::Right => {
                self.right_down = down;
            },
            _ => {},
        }
    }

    /// Sets the viewport resolution.
    pub fn set_resolution(&mut self, width: u32, height: u32)
        ensures
            *final(self) == (Uniforms { width, height, ..*old(self) }),
    {
        self.width = width;
        self.height = height;
    }

    /// Adds `delta_us` to the elapsed time. Time never runs backwards and
    /// never wraps: it stops at the largest representable value.
    pub fn advance_time(&mut self, delta_us: u64)
        ensures
            *final(self) == (Uniforms {
                elapsed_us: saturating_sum(old(self).elapsed_us, delta_us),
                ..*old(self)
            }),
            final(self).elapsed_us >= old(self).elapsed_us,
            delta_us == 0 ==> *final(self) == *old(self),
    {
        self.elapsed_us = if delta_us > u64::MAX - self.elapsed_us {
            u64::MAX
        } else {
            self.elapsed_us + delta_us
        };
    }

    /// Puts the pointer in the middle of the viewport.
    pub fn center_mouse(&mut self)
        ensures
            *final(self) == (Uniforms {
                mouse_x: (old(self).width * (SUBPIXELS / 2)) as i64,
                mouse_y: (old(self).height * (SUBPIXELS / 2)) as i64,
                ..*old(self)
            }),
    {
        self.mouse_x = self.width as i64 * (SUBPIXELS / 2);
        self.mouse_y = self.height as i64 * (SUBPIXELS / 2);
    }
}

/// Repeated advances never decrease the elapsed time: after more advances
/// the time is at least what it was after fewer.
pub proof fn lemma_time_is_monotonic(start_us: u64, deltas: Seq<u64>, i: int, j: int)
    requires
        0 <= i <= j <= deltas.len(),
    ensures
        start_us <= elapsed_after(start_us, deltas.take(i)) <= elapsed_after(
            start_us,
            deltas.take(j),
        ),
    decreases j - i, i,
{
    if i < j {
        lemma_time_is_monotonic(start_us, deltas, i, j - 1);
        assert(deltas.take(j).drop_last() =~= deltas.take(j - 1));
    } else if i > 0 {
        lemma_time_is_monotonic(start_us, deltas, i - 1, i - 1);
        assert(deltas.take(i).drop_last() =~= deltas.take(i - 1));
    } else {
        assert(deltas.take(0).len() == 0);
    }
}

/// Advancing by zero changes nothing, wherever it happens in a run of
/// advances.
pub proof fn lemma_zero_advance_is_noop(start_us: u64, deltas: Seq<u64>)
    ensures
        elapsed_after(start_us, deltas.push(0)) == elapsed_after(start_us, deltas),
{
    assert(deltas.push(0).drop_last() =~= deltas);
}

/// Elapsed time is exact: as long as the total fits, it is the start plus
/// the sum of all advances, with nothing lost to rounding.
pub proof fn lemma_time_is_exact(start_us: u64, deltas: Seq<u64>)
    ensures
        elapsed_after(start_us, deltas) == if start_us + total(deltas) > u64::MAX {
            u64::MAX as int
        } else {
            start_us + total(deltas)
        },
        total(deltas) >= 0,
    decreases deltas.len(),
{
    if deltas.len() > 0 {
        lemma_time_is_exact(start_us, deltas.drop_last());
    }
}

/// The uniform block together with the duty to upload it. The block is
/// changed by input handlers and by the frame driver; passes only ever see
/// the snapshot that was last pushed.
#[derive(Clone, Copy, Debug)]
pub struct ShaderToyUniforms {
    pub uniforms: Uniforms,
}

impl ShaderToyUniforms {
    /// A block in its startup state.
    pub fn new() -> (block: ShaderToyUniforms)
        ensures
            block.uniforms == Uniforms::initial(),
    {
        ShaderToyUniforms { uniforms: Uniforms::new() }
    }

    /// Access to the block for in-place changes.
    pub fn uni(&mut self) -> (block: &mut Uniforms)
        ensures
            *block == old(self).uniforms,
            final(self).uniforms == *final(block),
    {
        &mut self.uniforms
    }

    /// Queues the upload of the current snapshot.
    pub fn push_buffer_to_gfx_card(&self, queue: &mut Queue)
        ensures
            final(queue).writes@ == old(queue).writes@.push(BufferWrite::Uniforms(self.uniforms)),
    {
        queue.write_buffer(BufferWrite::Uniforms(self.uniforms));
    }
}

} // verus!
