use rotating_cube::binding::BindingSlot;
use rotating_cube::pipeline::BlendMode;
use rotating_cube::pipeline::VertexAttribute;
use rotating_cube::pipeline::build_pipeline_desc;
use rotating_cube::surface::FormatInfo;

#[test]
fn pipeline_describes_the_interleaved_vertex_layout() {
    let format = FormatInfo { id: 4, srgb: true };
    let desc = build_pipeline_desc(format);
    assert_eq!(desc.vertex_layout.stride, 24);
    assert_eq!(desc.vertex_layout.attributes.len(), 2);
    assert_eq!(
        desc.vertex_layout.attributes[0],
        VertexAttribute { location: 0, offset: 0, components: 3 }
    );
    assert_eq!(
        desc.vertex_layout.attributes[1],
        VertexAttribute { location: 1, offset: 12, components: 3 }
    );
}

#[test]
fn pipeline_targets_the_surface_format_without_depth() {
    let format = FormatInfo { id: 4, srgb: true };
    let desc = build_pipeline_desc(format);
    assert_eq!(desc.output_format, format);
    assert_eq!(desc.blend, BlendMode::Replace);
    assert!(!desc.depth_test);
    assert_eq!(desc.bindings.len(), 2);
    assert_eq!(desc.bindings[0], BindingSlot { slot: 0, byte_size: 64 });
    assert_eq!(desc.bindings[1], BindingSlot { slot: 1, byte_size: 64 });
}
