use quad_render::binding::{
    check_bind_group_complete, quad_bind_group, quad_layout, BindGroupEntry, BindingType,
    MAT4_BYTES,
};
use quad_render::command::{clear_color, Color, IndexFormat, RenderCommand};
use quad_render::device::GraphicsDevice;
use quad_render::geometry::{quad_indices, quad_vertices};
use quad_render::packing::{pack_indices, pack_vertices};
use quad_render::quad::{
    BufferUsage, CullMode, FrontFace, PrimitiveTopology, TexturedQuad, VertexFormat,
};
use quad_render::swapchain::TextureFormat;

#[test]
fn quad_buffers_hold_the_packed_geometry() {
    let dev = GraphicsDevice::new(800, 600, true, true).unwrap();
    let quad = TexturedQuad::new(&dev);
    assert_eq!(quad.vertex_buf.contents, pack_vertices(&quad_vertices()));
    assert_eq!(quad.vertex_buf.usage, BufferUsage::Vertex);
    assert_eq!(quad.index_buf.contents, pack_indices(&quad_indices()));
    assert_eq!(quad.index_buf.usage, BufferUsage::Index);
}

#[test]
fn quad_pipeline_declares_the_fixed_state() {
    let dev = GraphicsDevice::new(800, 600, true, true).unwrap();
    let quad = TexturedQuad::new(&dev);
    assert_eq!(quad.pipeline.vertex_stride, 16);
    assert_eq!(quad.pipeline.vertex_attributes.len(), 2);
    assert_eq!(quad.pipeline.vertex_attributes[0].format, VertexFormat::Float2);
    assert_eq!(quad.pipeline.vertex_attributes[0].offset, 0);
    assert_eq!(quad.pipeline.vertex_attributes[0].shader_location, 0);
    assert_eq!(quad.pipeline.vertex_attributes[1].format, VertexFormat::Float2);
    assert_eq!(quad.pipeline.vertex_attributes[1].offset, 8);
    assert_eq!(quad.pipeline.vertex_attributes[1].shader_location, 1);
    assert_eq!(quad.pipeline.topology, PrimitiveTopology::TriangleStrip);
    assert_eq!(quad.pipeline.front_face, FrontFace::CounterClockwise);
    assert_eq!(quad.pipeline.cull_mode, CullMode::Front);
    assert_eq!(quad.pipeline.target_format, TextureFormat::R8Unorm);
}

#[test]
fn quad_layout_declares_three_slots() {
    let layout = quad_layout();
    assert_eq!(layout.len(), 3);
    assert_eq!(layout[0].binding, 0);
    assert_eq!(layout[0].ty, BindingType::UniformBuffer { min_binding_size: MAT4_BYTES });
    assert_eq!(layout[1].binding, 1);
    assert_eq!(layout[1].ty, BindingType::Texture);
    assert_eq!(layout[2].binding, 2);
    assert_eq!(layout[2].ty, BindingType::Sampler);
}

#[test]
fn quad_bind_group_is_incomplete() {
    // Three slots declared, none populated: a faithful suite flags this.
    let dev = GraphicsDevice::new(800, 600, true, true).unwrap();
    let quad = TexturedQuad::new(&dev);
    assert_eq!(quad.pipeline.layout.len(), 3);
    assert_eq!(quad.bind_group.len(), 0);
    assert!(!quad.bind_group_is_complete());
}

#[test]
fn a_populated_bind_group_would_be_complete() {
    let layout = quad_layout();
    let group = vec![
        BindGroupEntry {
            binding: 0,
            ty: BindingType::UniformBuffer { min_binding_size: MAT4_BYTES },
        },
        BindGroupEntry { binding: 1, ty: BindingType::Texture },
        BindGroupEntry { binding: 2, ty: BindingType::Sampler },
    ];
    assert!(check_bind_group_complete(&layout, &group));
}

#[test]
fn a_mismatched_bind_group_is_incomplete() {
    let layout = quad_layout();
    let group = vec![
        BindGroupEntry {
            binding: 0,
            ty: BindingType::UniformBuffer { min_binding_size: MAT4_BYTES },
        },
        BindGroupEntry { binding: 1, ty: BindingType::Sampler },
        BindGroupEntry { binding: 2, ty: BindingType::Texture },
    ];
    assert!(!check_bind_group_complete(&layout, &group));
    let empty = quad_bind_group();
    assert!(!check_bind_group_complete(&layout, &empty));
}

#[test]
fn render_records_one_clearing_pass_and_one_draw() {
    let mut dev = GraphicsDevice::new(800, 600, true, true).unwrap();
    let quad = TexturedQuad::new(&dev);
    let mut encoder = dev.begin_frame(true).unwrap();
    quad.render(&mut encoder);
    let expected = vec![
        RenderCommand::BeginRenderPass { clear: Color { r: 100, g: 149, b: 237, a: 255 } },
        RenderCommand::SetPipeline,
        RenderCommand::SetBindGroup { index: 0 },
        RenderCommand::SetIndexBuffer { format: IndexFormat::Uint16 },
        RenderCommand::SetVertexBuffer { slot: 0 },
        RenderCommand::DrawIndexed {
            first_index: 0,
            index_count: 4,
            base_vertex: 0,
            first_instance: 0,
            instance_count: 1,
        },
    ];
    assert_eq!(encoder.commands, expected);
    // Rendering records; it does not submit.
    assert_eq!(dev.queue.submissions, 0);
    encoder.finish(&mut dev);
    assert_eq!(dev.queue.submissions, 1);
}

#[test]
fn clear_color_is_cornflower_blue() {
    assert_eq!(clear_color(), Color { r: 100, g: 149, b: 237, a: 255 });
}
