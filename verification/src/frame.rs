//! What one frame hands to the renderer.

use crate::uniform::{in_memory, UNIFORM_SIZE};
use crate::viewport::ViewRectangle;
use vstd::prelude::*;

verus! {

/// Side of the square drawing region, in screen points.
pub const REGION_SIDE: u16 = 680;

/// The slot of the binding set at which the shader finds the uniform buffer.
pub const UNIFORM_SLOT: u32 = 0;

/// The index at which the pipeline expects its one binding set.
pub const BINDING_SET: u32 = 0;

/// Vertices of the full-screen quadrilateral, drawn as a triangle strip.
pub const QUAD_VERTICES: u32 = 4;

/// The first of a frame's two operations: overwrite the uniform buffer with
/// `bytes`, starting at `offset`.
#[derive(Debug)]
pub struct UniformWrite {
    pub offset: u64,
    pub bytes: Vec<u8>,
}

/// The second of a frame's two operations: bind the pipeline, bind its
/// binding set at index `binding_set`, and draw `instances` instances of
/// `vertices` vertices each.
#[derive(Clone, Copy, Debug, PartialEq, Eq, Structural)]
pub struct Draw {
    pub binding_set: u32,
    pub vertices: u32,
    pub instances: u32,
}

/// The operations of one frame, in the order in which the renderer is to
/// perform them: `prepare`, then `paint`.
#[derive(Debug)]
pub struct FrameCommands {
    pub prepare: UniformWrite,
    pub paint: Draw,
}

/// The draw operation of every frame: the quadrilateral, once.
pub open spec fn quad_draw() -> Draw {
    Draw { binding_set: BINDING_SET, vertices: QUAD_VERTICES, instances: 1 }
}

/// Returns the two operations that show `view`. The write replaces the whole
/// uniform buffer, no more and no less, with the view's coordinates; the
/// draw is the same in every frame.
pub fn frame_commands(view: &ViewRectangle) -> (commands: FrameCommands)
    ensures
        commands.prepare.offset == 0,
        in_memory(view.layout(), commands.prepare.bytes@),
        commands.prepare.offset + commands.prepare.bytes@.len() == UNIFORM_SIZE,
        commands.paint == quad_draw(),
{
    FrameCommands {
        prepare: UniformWrite { offset: 0, bytes: view.payload_bytes() },
        paint: Draw { binding_set: BINDING_SET, vertices: QUAD_VERTICES, instances: 1 },
    }
}

} // verus!
