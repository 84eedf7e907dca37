//! The textured-quad pipeline: the geometry buffers, the bind group, and
//! the pipeline's fixed-function state, with the render pass it records
//! each frame.

use vstd::prelude::*;
use crate::binding::{
    quad_bind_group, quad_bind_group_spec, quad_layout, quad_layout_spec, bind_group_complete,
    check_bind_group_complete, BindGroupEntry, BindGroupLayoutEntry,
};
use crate::command::{clear_color, cornflower_blue, IndexFormat, RenderCommand};
use crate::device::{FrameEncoder, GraphicsDevice};
use crate::geometry::{quad_indices, quad_indices_spec, quad_vertices, quad_vertices_spec};
use crate::packing::{index_list_bytes, pack_indices, pack_vertices, vertex_list_bytes};
use crate::swapchain::TextureFormat;

verus! {

/// What a GPU buffer of this renderer holds and is used for.
pub struct Buffer {
    /// The bytes uploaded at creation.
    pub contents: Vec<u8>,
    pub usage: BufferUsage,
}

/// The ways this renderer uses a buffer.
#[derive(Clone, Copy, Debug, PartialEq, Eq, Structural)]
pub enum BufferUsage {
    Vertex,
    Index,
}

/// The format of one vertex attribute.
#[derive(Clone, Copy, Debug, PartialEq, Eq, Structural)]
pub enum VertexFormat {
    /// Two 32-bit floats.
    Float2,
}

/// One attribute of the vertex buffer's layout.
#[derive(Clone, Copy, Debug, PartialEq, Eq, Structural)]
pub struct VertexAttribute {
    pub format: VertexFormat,
    /// Byte offset of the attribute within one vertex.
    pub offset: u64,
    /// The location the shader binds the attribute at.
    pub shader_location: u32,
}

/// How the vertices are assembled into triangles.
#[derive(Clone, Copy, Debug, PartialEq, Eq, Structural)]
pub enum PrimitiveTopology {
    /// Each vertex after the second makes a triangle with the two before
    /// it.
    TriangleStrip,
}

/// Which winding counts as the front of a triangle.
#[derive(Clone, Copy, Debug, PartialEq, Eq, Structural)]
pub enum FrontFace {
    CounterClockwise,
}

/// Which faces are culled.
#[derive(Clone, Copy, Debug, PartialEq, Eq, Structural)]
pub enum CullMode {
    Front,
}

/// The compiled pipeline's declared state: its resource layout, vertex
/// layout, primitive state and colour target format.
pub struct RenderPipeline {
    /// The bind group layout of group 0, the only group declared.
    pub layout: Vec<BindGroupLayoutEntry>,
    /// Bytes from one vertex to the next in the vertex buffer.
    pub vertex_stride: u64,
    /// The attributes of one vertex, in shader-location order.
    pub vertex_attributes: Vec<VertexAttribute>,
    pub topology: PrimitiveTopology,
    pub front_face: FrontFace,
    pub cull_mode: CullMode,
    /// The format of the pipeline's colour target.
    pub target_format: TextureFormat,
}

/// The quad's vertex layout: position then texture coordinate, two floats
/// each, at shader locations 0 and 1.
pub open spec fn quad_vertex_attributes_spec() -> Seq<VertexAttribute> {
    seq![
        VertexAttribute { format: VertexFormat::Float2, offset: 0u64, shader_location: 0u32 },
        VertexAttribute { format: VertexFormat::Float2, offset: 8u64, shader_location: 1u32 },
    ]
}

/// The commands one quad draw records: clear, bind everything, and one
/// indexed draw of the four strip indices.
pub open spec fn render_commands_spec() -> Seq<RenderCommand> {
    seq![
        RenderCommand::BeginRenderPass { clear: cornflower_blue() },
        RenderCommand::SetPipeline,
        RenderCommand::SetBindGroup { index: 0u32 },
        RenderCommand::SetIndexBuffer { format: IndexFormat::Uint16 },
        RenderCommand::SetVertexBuffer { slot: 0u32 },
        RenderCommand::DrawIndexed {
            first_index: 0u32,
            index_count: 4u32,
            base_vertex: 0i32,
            first_instance: 0u32,
            instance_count: 1u32,
        },
    ]
}

/// A single fixed-geometry pipeline that draws one full-screen quad.
pub struct TexturedQuad {
    pub vertex_buf: Buffer,
    pub index_buf: Buffer,
    /// The resources supplied to group 0. Still empty: the layout expects
    /// three, so drawing will fail bind-group validation.
    pub bind_group: Vec<BindGroupEntry>,
    pub pipeline: RenderPipeline,
}

impl TexturedQuad {
    /// What a correctly built quad holds: the packed corner geometry in
    /// the two buffers, the declared three-slot layout, the still-empty
    /// bind group, and the fixed pipeline state.
    pub open spec fn wf(self) -> bool {
        &&& self.vertex_buf.contents@ == vertex_list_bytes(quad_vertices_spec())
        &&& self.vertex_buf.usage == BufferUsage::Vertex
        &&& self.index_buf.contents@ == index_list_bytes(quad_indices_spec())
        &&& self.index_buf.usage == BufferUsage::Index
        &&& self.bind_group@ == quad_bind_group_spec()
        &&& self.pipeline.layout@ == quad_layout_spec()
        &&& self.pipeline.vertex_stride == 16
        &&& self.pipeline.vertex_attributes@ == quad_vertex_attributes_spec()
        &&& self.pipeline.topology == PrimitiveTopology::TriangleStrip
        &&& self.pipeline.front_face == FrontFace::CounterClockwise
        &&& self.pipeline.cull_mode == CullMode::Front
        &&& self.pipeline.target_format == TextureFormat::R8Unorm
    }

    /// Builds the quad's static geometry and pipeline state against the
    /// given device: the four corner vertices and strip indices packed
    /// into GPU-ready buffers, the three-slot resource layout, a bind
    /// group that supplies none of them, and the strip pipeline with
    /// front-face culling and an R8Unorm colour target.
    pub fn new(graphics_device: &GraphicsDevice) -> (q: TexturedQuad)
        ensures
            q.wf(),
    {
        let _device = graphics_device.device();

        let vertex_data = quad_vertices();
        let index_data = quad_indices();

        proof {
            assert forall|i: int| 0 <= i < vertex_data@.len() implies -1 <= #[trigger] vertex_data@[i].x
                <= 1 && -1 <= vertex_data@[i].y <= 1 && -1 <= vertex_data@[i].u <= 1 && -1
                <= vertex_data@[i].v <= 1 by {
                assert(vertex_data@ == quad_vertices_spec());
            }
        }

        let vertex_buf = Buffer { contents: pack_vertices(&vertex_data), usage: BufferUsage::Vertex };
        let index_buf = Buffer { contents: pack_indices(&index_data), usage: BufferUsage::Index };

        let layout = quad_layout();
        let bind_group = quad_bind_group();

        let mut vertex_attributes: Vec<VertexAttribute> = Vec::new();
        vertex_attributes.push(
            VertexAttribute { format: VertexFormat::Float2, offset: 0, shader_location: 0 },
        );
        vertex_attributes.push(
            VertexAttribute { format: VertexFormat::Float2, offset: 8, shader_location: 1 },
        );
        proof {
            assert(vertex_attributes@ =~= quad_vertex_attributes_spec());
        }

        let pipeline = RenderPipeline {
            layout,
            vertex_stride: 16,
            vertex_attributes,
            topology: PrimitiveTopology::TriangleStrip,
            front_face: FrontFace::CounterClockwise,
            cull_mode: CullMode::Front,
            target_format: TextureFormat::R8Unorm,
        };

        TexturedQuad { vertex_buf, index_buf, bind_group, pipeline }
    }

    /// Records one draw of the quad into the frame: a render pass that
    /// clears to cornflower blue, binds the pipeline, the (empty) bind
    /// group and both buffers, and draws the four strip indices once.
    /// Nothing else about the encoder changes, and nothing is submitted.
    pub fn render(&self, frame_encoder: &mut FrameEncoder)
        ensures
            final(frame_encoder).commands@ == old(frame_encoder).commands@
                + render_commands_spec(),
            final(frame_encoder).frame == old(frame_encoder).frame,
    {
        let clear = clear_color();
        frame_encoder.commands.push(RenderCommand::BeginRenderPass { clear });
        frame_encoder.commands.push(RenderCommand::SetPipeline);
        frame_encoder.commands.push(RenderCommand::SetBindGroup { index: 0 });
        frame_encoder.commands.push(RenderCommand::SetIndexBuffer { format: IndexFormat::Uint16 });
        frame_encoder.commands.push(RenderCommand::SetVertexBuffer { slot: 0 });
        frame_encoder.commands.push(
            RenderCommand::DrawIndexed {
                first_index: 0,
                index_count: 4,
                base_vertex: 0,
                first_instance: 0,
                instance_count: 1,
            },
        );
        proof {
            assert(frame_encoder.commands@ =~= old(frame_encoder).commands@
                + render_commands_spec());
        }
    }

    /// Whether the bind group supplies every resource the pipeline's
    /// layout declares. For a quad as `new` builds it this is false:
    /// three slots are declared and none is populated.
    pub fn bind_group_is_complete(&self) -> (r: bool)
        ensures
            r == bind_group_complete(self.pipeline.layout@, self.bind_group@),
    {
        check_bind_group_complete(&self.pipeline.layout, &self.bind_group)
    }
}

} // verus!
