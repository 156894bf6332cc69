//! The graphics-pipeline description.
//!
//! Fixed-function state for the one draw the library supports: viewport and
//! scissor sized to the target extent, no vertex input (vertices are
//! generated in the shader), triangle-list topology, fill rasterization with
//! back-face culling and clockwise front faces, single-sampled no-blend
//! color output, an empty pipeline layout, and the two shader stages.

use vstd::prelude::*;

use crate::shader::{create_stage, shader_entry_point_name, ShaderStage, ShaderStageDesc};
use crate::surface::Extent2D;

verus! {

/// How vertices are assembled into primitives.
#[derive(Clone, Copy, Debug, PartialEq, Eq, Structural)]
pub enum PrimitiveTopology {
    PointList,
    LineList,
    TriangleList,
}

/// How primitives are filled.
#[derive(Clone, Copy, Debug, PartialEq, Eq, Structural)]
pub enum PolygonMode {
    Fill,
    Line,
}

/// Which faces are culled.
#[derive(Clone, Copy, Debug, PartialEq, Eq, Structural)]
pub enum CullMode {
    NoCulling,
    Front,
    Back,
}

/// Which winding counts as the front face.
#[derive(Clone, Copy, Debug, PartialEq, Eq, Structural)]
pub enum FrontFace {
    Clockwise,
    CounterClockwise,
}

/// Everything the graphics pipeline is created from.
#[derive(Debug)]
pub struct PipelineDesc {
    pub viewport_width: u32,
    pub viewport_height: u32,
    pub scissor_width: u32,
    pub scissor_height: u32,
    pub vertex_binding_count: u32,
    pub vertex_attribute_count: u32,
    pub topology: PrimitiveTopology,
    pub primitive_restart: bool,
    pub polygon_mode: PolygonMode,
    pub cull_mode: CullMode,
    pub front_face: FrontFace,
    pub sample_count: u32,
    pub blend_enable: bool,
    pub descriptor_set_layout_count: u32,
    pub push_constant_range_count: u32,
    pub vertex_stage: ShaderStageDesc,
    pub fragment_stage: ShaderStageDesc,
}

/// Build the fixed pipeline description for a target of the given extent:
/// viewport and scissor sized to it, no vertex input, triangle-list topology
/// without primitive restart, fill rasterization with back-face culling and
/// clockwise front faces, single-sampled no-blend output, an empty layout,
/// and the vertex and fragment stages under the shared entry-point name.
pub fn pipeline_description(extent: Extent2D) -> (r: PipelineDesc)
    ensures
        r.viewport_width == extent.width,
        r.viewport_height == extent.height,
        r.scissor_width == extent.width,
        r.scissor_height == extent.height,
        r.vertex_binding_count == 0,
        r.vertex_attribute_count == 0,
        r.topology == PrimitiveTopology::TriangleList,
        !r.primitive_restart,
        r.polygon_mode == PolygonMode::Fill,
        r.cull_mode == CullMode::Back,
        r.front_face == FrontFace::Clockwise,
        r.sample_count == 1,
        !r.blend_enable,
        r.descriptor_set_layout_count == 0,
        r.push_constant_range_count == 0,
        r.vertex_stage.stage == ShaderStage::Vertex,
        r.vertex_stage.entry_point@ == shader_entry_point_name(),
        r.fragment_stage.stage == ShaderStage::Fragment,
        r.fragment_stage.entry_point@ == shader_entry_point_name(),
{
    PipelineDesc {
        viewport_width: extent.width,
        viewport_height: extent.height,
        scissor_width: extent.width,
        scissor_height: extent.height,
        vertex_binding_count: 0,
        vertex_attribute_count: 0,
        topology: PrimitiveTopology::TriangleList,
        primitive_restart: false,
        polygon_mode: PolygonMode::Fill,
        cull_mode: CullMode::Back,
        front_face: FrontFace::Clockwise,
        sample_count: 1,
        blend_enable: false,
        descriptor_set_layout_count: 0,
        push_constant_range_count: 0,
        vertex_stage: create_stage(ShaderStage::Vertex),
        fragment_stage: create_stage(ShaderStage::Fragment),
    }
}

} // verus!
