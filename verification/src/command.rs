//! The commands a frame records: a render pass over the acquired frame,
//! modelled as plain data so that what a draw call does is checkable.

use vstd::prelude::*;

verus! {

/// An eight-bit-per-channel colour. The driver takes channels as
/// normalized floats; a channel value c here stands for c / 255.
#[derive(Clone, Copy, Debug, PartialEq, Eq, Structural)]
pub struct Color {
    pub r: u8,
    pub g: u8,
    pub b: u8,
    pub a: u8,
}

/// The fixed clear colour of the quad's render pass.
pub open spec fn cornflower_blue() -> Color {
    Color { r: 100u8, g: 149u8, b: 237u8, a: 255u8 }
}

/// Builds the render pass's clear colour.
pub fn clear_color() -> (c: Color)
    ensures
        c == cornflower_blue(),
{
    Color { r: 100, g: 149, b: 237, a: 255 }
}

/// How the index buffer's bytes are read.
#[derive(Clone, Copy, Debug, PartialEq, Eq, Structural)]
pub enum IndexFormat {
    /// Two bytes per index, little-endian.
    Uint16,
}

/// One recorded command of a frame's render pass.
#[derive(Clone, Copy, Debug, PartialEq, Eq, Structural)]
pub enum RenderCommand {
    /// Opens a render pass on the frame's texture, clearing it to the
    /// given colour and storing the result.
    BeginRenderPass { clear: Color },
    /// Selects the quad's compiled pipeline.
    SetPipeline,
    /// Binds the quad's bind group at the given group index.
    SetBindGroup { index: u32 },
    /// Binds the quad's index buffer.
    SetIndexBuffer { format: IndexFormat },
    /// Binds the quad's vertex buffer at the given slot.
    SetVertexBuffer { slot: u32 },
    /// Draws `index_count` indices starting at `first_index`, offset by
    /// `base_vertex`, for the given instance range.
    DrawIndexed {
        first_index: u32,
        index_count: u32,
        base_vertex: i32,
        first_instance: u32,
        instance_count: u32,
    },
}

} // verus!
