//! The graphics pipeline description: vertex layout, binding slots, output
//! format and blend state, built exactly once against the startup surface
//! format.
//!
//! The pipeline object itself is compiled by the graphics backend from an
//! opaque shader module; the library fixes every field of the description
//! the backend compiles from.

use vstd::prelude::*;
use crate::binding::BindingSlot;
use crate::binding::uniform_layout_seq;
use crate::geometry::COLOR_OFFSET_BYTES;
use crate::geometry::COMPONENTS_PER_VERTEX;
use crate::geometry::COMPONENT_BYTES;
use crate::geometry::VERTEX_STRIDE_BYTES;
use crate::surface::FormatInfo;

verus! {

/// One vertex attribute: where the shader reads it, its byte offset inside
/// a vertex, and how many 32-bit float components it has.
#[derive(Clone, Copy, Debug, PartialEq, Eq, Structural)]
pub struct VertexAttribute {
    /// The shader location the attribute is bound to.
    pub location: u32,
    /// Byte offset of the attribute inside one vertex.
    pub offset: u32,
    /// Number of 32-bit float components.
    pub components: u32,
}

/// The layout of the one vertex buffer: its stride and its attributes.
pub struct VertexLayout {
    /// Distance in bytes between consecutive vertices.
    pub stride: u32,
    /// The attributes of one vertex, in shader-location order.
    pub attributes: Vec<VertexAttribute>,
}

/// How a fragment's color is combined with the output image.
#[derive(Clone, Copy, Debug, PartialEq, Eq, Structural)]
pub enum BlendMode {
    /// The fragment's color replaces the image's color.
    Replace,
}

/// The complete pipeline description the backend compiles, immutable for
/// the run.
pub struct PipelineDesc {
    /// The layout of the vertex buffer.
    pub vertex_layout: VertexLayout,
    /// The binding slots the pipeline declares for its uniform buffers.
    pub bindings: Vec<BindingSlot>,
    /// The color format of the one output target: the surface's format.
    pub output_format: FormatInfo,
    /// The blend state of the output target.
    pub blend: BlendMode,
    /// Whether a depth attachment is used; the cube is drawn without one.
    pub depth_test: bool,
}

/// The position attribute: shader location 0, at the start of the vertex.
pub open spec fn position_attribute() -> VertexAttribute {
    VertexAttribute { location: 0, offset: 0, components: 3 }
}

/// The color attribute: shader location 1, after the three position floats.
pub open spec fn color_attribute() -> VertexAttribute {
    VertexAttribute { location: 1, offset: COLOR_OFFSET_BYTES as u32, components: 3 }
}

/// Law: the vertex layout constants agree with each other — the stride is
/// the byte size of one vertex and the color attribute starts right after
/// the position components.
pub proof fn lemma_vertex_layout_consistent()
    ensures
        VERTEX_STRIDE_BYTES == COMPONENTS_PER_VERTEX * COMPONENT_BYTES,
        COLOR_OFFSET_BYTES == position_attribute().components * COMPONENT_BYTES,
        COLOR_OFFSET_BYTES + color_attribute().components * COMPONENT_BYTES
            == VERTEX_STRIDE_BYTES,
{
}

/// Builds the pipeline description for the given output color format: one
/// vertex buffer of interleaved position and color, the two uniform slots,
/// replace blending, no depth attachment.
pub fn build_pipeline_desc(output_format: FormatInfo) -> (r: PipelineDesc)
    ensures
        r.vertex_layout.stride == VERTEX_STRIDE_BYTES as u32,
        r.vertex_layout.attributes@ =~= seq![position_attribute(), color_attribute()],
        r.bindings@ =~= uniform_layout_seq(),
        r.output_format == output_format,
        r.blend == BlendMode::Replace,
        !r.depth_test,
{
    let attributes: Vec<VertexAttribute> = vec![
        VertexAttribute { location: 0, offset: 0, components: 3 },
        VertexAttribute { location: 1, offset: 12, components: 3 },
    ];
    let bindings: Vec<BindingSlot> = crate::binding::uniform_binding_layout();
    PipelineDesc {
        vertex_layout: VertexLayout { stride: 24, attributes },
        bindings,
        output_format,
        blend: BlendMode::Replace,
        depth_test: false,
    }
}

} // verus!
