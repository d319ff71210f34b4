//! Pipeline resources: the one fixed render pipeline and its companions.
//!
//! The pipeline is built once at startup and is immutable afterwards. The
//! library models the pipeline by the values the design fixes: triangle-list
//! topology, counter-clockwise front face, no culling, fill polygon mode, a
//! single sample, no depth/stencil, no blending, a full write mask, one
//! color target in the negotiated surface format, an empty bind-group
//! layout, a nearest/clamp-to-edge sampler, and an empty bind group built
//! from the same layout the pipeline layout was derived from. The host
//! creates the platform objects from this description.

use vstd::prelude::*;
use crate::error::StartupError;
use crate::shader::has_entry_points;
use crate::shader::shader_declares_entry_points;
use crate::surface::FormatInfo;

verus! {

/// Primitive assembly topology.
#[derive(Clone, Copy, PartialEq, Eq, Structural, Debug)]
pub enum Topology {
    PointList,
    LineList,
    TriangleList,
}

/// Which winding order is the front face.
#[derive(Clone, Copy, PartialEq, Eq, Structural, Debug)]
pub enum FrontFace {
    Ccw,
    Cw,
}

/// How polygons are rasterized.
#[derive(Clone, Copy, PartialEq, Eq, Structural, Debug)]
pub enum PolygonMode {
    Fill,
    Line,
}

/// Texture sampling filter.
#[derive(Clone, Copy, PartialEq, Eq, Structural, Debug)]
pub enum FilterMode {
    Nearest,
    Linear,
}

/// How sampling outside the texture is addressed.
#[derive(Clone, Copy, PartialEq, Eq, Structural, Debug)]
pub enum AddressMode {
    ClampToEdge,
    Repeat,
}

/// A bind-group layout, described by how many bindings it declares.
#[derive(Clone, Copy, PartialEq, Eq, Structural, Debug)]
pub struct BindGroupLayoutModel {
    pub entry_count: u32,
}

/// A bind group: the layout it was built against and how many bindings it
/// carries.
#[derive(Clone, Copy, PartialEq, Eq, Structural, Debug)]
pub struct BindGroupModel {
    pub layout: BindGroupLayoutModel,
    pub entry_count: u32,
}

/// The companion sampler.
#[derive(Clone, Copy, PartialEq, Eq, Structural, Debug)]
pub struct SamplerModel {
    pub filter: FilterMode,
    pub address_mode: AddressMode,
}

/// The fixed pipeline and its companion resources, as the host must create
/// them.
#[derive(Clone, Copy, PartialEq, Eq, Structural, Debug)]
pub struct PipelineResources {
    pub color_format: FormatInfo,
    pub topology: Topology,
    pub front_face: FrontFace,
    pub cull_enabled: bool,
    pub polygon_mode: PolygonMode,
    pub sample_count: u32,
    pub depth_stencil_enabled: bool,
    pub blend_enabled: bool,
    pub write_mask_all: bool,
    pub bind_group_layout: BindGroupLayoutModel,
    pub sampler: SamplerModel,
    pub bind_group: BindGroupModel,
}

/// Layout compatibility: the bind group must be built from the very layout
/// the pipeline layout was derived from, and carry as many bindings as the
/// layout declares.
pub open spec fn pipeline_well_formed(p: PipelineResources) -> bool {
    &&& p.bind_group.layout == p.bind_group_layout
    &&& p.bind_group.entry_count == p.bind_group_layout.entry_count
}

/// The full fixed-function description of the one pipeline this design
/// builds, with its color target in the format `format`.
pub open spec fn is_fixed_pipeline_for(p: PipelineResources, format: FormatInfo) -> bool {
    &&& p.color_format == format
    &&& p.topology is TriangleList
    &&& p.front_face is Ccw
    &&& !p.cull_enabled
    &&& p.polygon_mode is Fill
    &&& p.sample_count == 1
    &&& !p.depth_stencil_enabled
    &&& !p.blend_enabled
    &&& p.write_mask_all
    &&& p.bind_group_layout.entry_count == 0
    &&& p.sampler.filter is Nearest
    &&& p.sampler.address_mode is ClampToEdge
    &&& pipeline_well_formed(p)
}

/// Builds the pipeline resources against the negotiated surface format,
/// validating first that the shader source declares both required entry
/// points. A source missing either entry point is a fatal startup failure
/// and yields no pipeline.
pub fn build(shader_source: &[u8], surface_format: FormatInfo) -> (r: Result<
    PipelineResources,
    StartupError,
>)
    ensures
        r is Ok <==> has_entry_points(shader_source@),
        (r matches Ok(p) ==> is_fixed_pipeline_for(p, surface_format)),
        (r matches Err(e) ==> e == StartupError::ShaderEntryPointMissing),
{
    if !shader_declares_entry_points(shader_source) {
        return Err(StartupError::ShaderEntryPointMissing);
    }
    let layout = BindGroupLayoutModel { entry_count: 0 };
    Ok(
        PipelineResources {
            color_format: surface_format,
            topology: Topology::TriangleList,
            front_face: FrontFace::Ccw,
            cull_enabled: false,
            polygon_mode: PolygonMode::Fill,
            sample_count: 1,
            depth_stencil_enabled: false,
            blend_enabled: false,
            write_mask_all: true,
            bind_group_layout: layout,
            sampler: SamplerModel {
                filter: FilterMode::Nearest,
                address_mode: AddressMode::ClampToEdge,
            },
            bind_group: BindGroupModel { layout: layout, entry_count: 0 },
        },
    )
}

/// The one render pass each presented frame records: clear the color target
/// to opaque black, bind the pipeline, bind the empty bind group at slot 0,
/// and draw the hard-coded triangle.
#[derive(Clone, Copy, PartialEq, Eq, Structural, Debug)]
pub struct PassPlan {
    /// Clear color channels, each in 0..=255.
    pub clear_red: u8,
    pub clear_green: u8,
    pub clear_blue: u8,
    pub clear_alpha: u8,
    /// How many vertices the one draw covers.
    pub vertex_count: u32,
    /// How many instances the one draw covers.
    pub instance_count: u32,
    /// The slot the bind group is bound at.
    pub bind_group_slot: u32,
}

/// The pass every frame records: a clear to opaque black and a single draw
/// of 3 vertices and 1 instance, with the bind group at slot 0.
pub fn triangle_pass_plan() -> (plan: PassPlan)
    ensures
        plan.clear_red == 0 && plan.clear_green == 0 && plan.clear_blue == 0,
        plan.clear_alpha == 255,
        plan.vertex_count == 3,
        plan.instance_count == 1,
        plan.bind_group_slot == 0,
{
    PassPlan {
        clear_red: 0,
        clear_green: 0,
        clear_blue: 0,
        clear_alpha: 255,
        vertex_count: 3,
        instance_count: 1,
        bind_group_slot: 0,
    }
}

} // verus!
