//! What a render pipeline for the viewer is built from, as plain values.
//!
//! A pipeline is a compiled shader program together with fixed-function
//! state. The program comes from a source file and is compiled by the GPU
//! driver; the fixed-function state is decided here and never varies, except
//! for the pixel format of the colour target, which follows the surface.

use crate::geometry::Vertex;
use crate::geometry::VertexBufferLayout;
use vstd::prelude::*;
use wgpu::TextureFormat;

verus! {

/// `wgpu::TextureFormat`, the pixel format of a surface or texture. Opaque
/// here: the format that the surface prefers is carried unchanged into the
/// colour target of every pipeline.
#[verifier::external_type_specification]
#[verifier::external_body]
pub struct ExTextureFormat(wgpu::TextureFormat);

/// How consecutive vertices are assembled into primitives.
#[derive(Clone, Copy, Debug, PartialEq, Eq, Structural)]
pub enum PrimitiveTopology {
    PointList,
    LineList,
    LineStrip,
    TriangleList,
    TriangleStrip,
}

/// Which winding of a triangle's corners on the screen makes its front.
#[derive(Clone, Copy, Debug, PartialEq, Eq, Structural)]
pub enum FrontFace {
    Ccw,
    Cw,
}

/// One side of a triangle.
#[derive(Clone, Copy, Debug, PartialEq, Eq, Structural)]
pub enum Face {
    Front,
    Back,
}

/// How the inside of a triangle is rasterized.
#[derive(Clone, Copy, Debug, PartialEq, Eq, Structural)]
pub enum PolygonMode {
    Fill,
    Line,
    Point,
}

/// The width of one entry of an index buffer.
#[derive(Clone, Copy, Debug, PartialEq, Eq, Structural)]
pub enum IndexFormat {
    Uint16,
    Uint32,
}

/// How a fragment's colour is combined with the colour already in the
/// target.
#[derive(Clone, Copy, Debug, PartialEq, Eq, Structural)]
pub enum BlendState {
    /// The new colour replaces the old one.
    Replace,
    /// The new colour is laid over the old one by its alpha.
    AlphaBlending,
    /// As `AlphaBlending`, for colours already multiplied by their alpha.
    PremultipliedAlphaBlending,
}

/// When the surface shows a finished frame.
#[derive(Clone, Copy, Debug, PartialEq, Eq, Structural)]
pub enum PresentMode {
    Immediate,
    Mailbox,
    /// Frames wait for the display's vertical blank, in order.
    Fifo,
}

/// The colour channels a draw may write.
#[derive(Clone, Copy, Debug, PartialEq, Eq, Structural)]
pub struct ColorWrites {
    pub red: bool,
    pub green: bool,
    pub blue: bool,
    pub alpha: bool,
}

/// The shader stages that can see a binding.
#[derive(Clone, Copy, Debug, PartialEq, Eq, Structural)]
pub struct ShaderStages {
    pub vertex: bool,
    pub fragment: bool,
    pub compute: bool,
}

/// Primitive assembly and rasterization.
#[derive(Clone, Copy, Debug, PartialEq, Eq, Structural)]
pub struct PrimitiveState {
    pub topology: PrimitiveTopology,
    pub strip_index_format: Option<IndexFormat>,
    pub front_face: FrontFace,
    pub cull_mode: Option<Face>,
    pub unclipped_depth: bool,
    pub polygon_mode: PolygonMode,
    pub conservative: bool,
}

/// Multisampling.
#[derive(Clone, Copy, Debug, PartialEq, Eq, Structural)]
pub struct MultisampleState {
    pub count: u32,
    pub mask: u64,
    pub alpha_to_coverage_enabled: bool,
}

/// The colour target of the fragment stage.
#[derive(Clone, Copy, Debug, PartialEq, Eq)]
pub struct ColorTargetState {
    pub format: TextureFormat,
    pub blend: Option<BlendState>,
    pub write_mask: ColorWrites,
}

/// The drawable surface as it was last configured, or is to be configured.
#[derive(Clone, Copy, Debug, PartialEq, Eq)]
pub struct SurfaceConfiguration {
    pub format: TextureFormat,
    pub width: u32,
    pub height: u32,
    pub present_mode: PresentMode,
}

/// Everything but the compiled program that a render pipeline is made from.
#[derive(Debug, PartialEq, Eq)]
pub struct RenderPipelineDescriptor {
    /// The name of the vertex stage's entry point in the shader source.
    pub vertex_entry_point: &'static str,
    /// The name of the fragment stage's entry point in the shader source.
    pub fragment_entry_point: &'static str,
    /// The vertex buffers, by slot.
    pub buffers: Vec<VertexBufferLayout>,
    /// The colour targets, by the location of the fragment stage's output.
    pub targets: Vec<ColorTargetState>,
    pub primitive: PrimitiveState,
    /// Whether a depth or stencil test takes part.
    pub depth_stencil: bool,
    pub multisample: MultisampleState,
    /// The number of array layers rendered at once, if more than one.
    pub multiview: Option<u32>,
}

/// One binding of a bind group layout: a uniform buffer.
#[derive(Clone, Copy, Debug, PartialEq, Eq, Structural)]
pub struct BindGroupLayoutEntry {
    pub binding: u32,
    pub visibility: ShaderStages,
    pub has_dynamic_offset: bool,
    pub min_binding_size: Option<u64>,
    /// The length of the binding where it is an array.
    pub count: Option<u32>,
}

/// The uniforms of the viewer, each with a bind group of its own.
#[derive(Clone, Copy, Debug, PartialEq, Eq, Structural)]
pub enum UniformSlot {
    /// The millisecond counter.
    Time,
    /// The cursor position.
    Mouse,
}

/// The binding index of the one buffer in each uniform's bind group.
pub const UNIFORM_BINDING: u32 = 0;

/// The vertex buffer slot that holds the quad.
pub const VERTEX_SLOT: u32 = 0;

/// All four channels.
pub open spec fn all_channels() -> ColorWrites {
    ColorWrites { red: true, green: true, blue: true, alpha: true }
}

/// The rasterization state of every pipeline of the viewer: triangle lists,
/// counter-clockwise fronts, back faces culled, filled.
pub open spec fn fixed_primitive_state() -> PrimitiveState {
    PrimitiveState {
        topology: PrimitiveTopology::TriangleList,
        strip_index_format: None,
        front_face: FrontFace::Ccw,
        cull_mode: Some(Face::Back),
        unclipped_depth: false,
        polygon_mode: PolygonMode::Fill,
        conservative: false,
    }
}

/// One sample per pixel, with every sample enabled.
pub open spec fn fixed_multisample_state() -> MultisampleState {
    MultisampleState { count: 1, mask: u64::MAX, alpha_to_coverage_enabled: false }
}

/// `descriptor` is the viewer's pipeline for a surface of pixel format
/// `format`: the entry points `vs_main` and `fs_main`, the quad's vertex
/// layout in the one vertex buffer slot, one colour target of the surface's
/// format that replaces what it finds and writes all channels, the fixed
/// rasterization state, no depth or stencil test, no multisampling, no
/// multiview.
pub open spec fn is_viewer_pipeline(
    descriptor: RenderPipelineDescriptor,
    format: TextureFormat,
) -> bool {
    &&& descriptor.vertex_entry_point@ == "vs_main"@
    &&& descriptor.fragment_entry_point@ == "fs_main"@
    &&& descriptor.buffers@.len() == 1
    &&& crate::geometry::is_quad_layout(descriptor.buffers@[0])
    &&& descriptor.targets@ == seq![
        ColorTargetState {
            format,
            blend: Some(BlendState::Replace),
            write_mask: all_channels(),
        },
    ]
    &&& descriptor.primitive == fixed_primitive_state()
    &&& !descriptor.depth_stencil
    &&& descriptor.multisample == fixed_multisample_state()
    &&& descriptor.multiview.is_none()
}

/// The layout entry of a uniform's bind group: one uniform buffer at the
/// shared binding index, visible to the vertex and the fragment stage, with
/// no dynamic offset and no minimum size.
pub open spec fn uniform_entry() -> BindGroupLayoutEntry {
    BindGroupLayoutEntry {
        binding: UNIFORM_BINDING,
        visibility: ShaderStages { vertex: true, fragment: true, compute: false },
        has_dynamic_offset: false,
        min_binding_size: None,
        count: None,
    }
}

/// The order of the bind groups in the pipeline layout: group `i` belongs to
/// the uniform at position `i`.
pub open spec fn group_order() -> Seq<UniformSlot> {
    seq![UniformSlot::Time, UniformSlot::Mouse]
}

impl UniformSlot {
    /// The index of the uniform's bind group: 0 for the time, 1 for the
    /// mouse.
    pub open spec fn group_index(self) -> u32 {
        match self {
            UniformSlot::Time => 0,
            UniformSlot::Mouse => 1,
        }
    }

    /// The index of the uniform's bind group, under which the shader source
    /// declares it and the render pass attaches it.
    pub fn group(&self) -> (group: u32)
        ensures
            group == self.group_index(),
            group < group_order().len(),
            group_order()[group as int] == *self,
    {
        match self {
            UniformSlot::Time => 0,
            UniformSlot::Mouse => 1,
        }
    }
}

impl SurfaceConfiguration {
    /// The configuration of a surface of the given pixel format and size:
    /// frames are presented in order at the display's pace.
    pub open spec fn initial(format: TextureFormat, width: u32, height: u32) -> Self {
        SurfaceConfiguration { format, width, height, present_mode: PresentMode::Fifo }
    }

    /// The configuration of a surface of the given pixel format and size:
    /// frames are presented in order at the display's pace.
    pub fn new(format: TextureFormat, width: u32, height: u32) -> (configuration: Self)
        ensures
            configuration == Self::initial(format, width, height),
    {
        SurfaceConfiguration { format, width, height, present_mode: PresentMode::Fifo }
    }
}

/// The uniforms in the order of their bind groups, for the pipeline layout.
pub fn bind_group_order() -> (order: Vec<UniformSlot>)
    ensures
        order@ == group_order(),
        forall|i: int| 0 <= i < order@.len() ==> (#[trigger] order@[i]).group_index() == i,
{
    let order = vec![UniformSlot::Time, UniformSlot::Mouse];
    assert(order@ =~= group_order());
    order
}

/// The layout entry from which the bind group layout of each uniform is
/// made.
pub fn uniform_layout_entry() -> (entry: BindGroupLayoutEntry)
    ensures
        entry == uniform_entry(),
{
    BindGroupLayoutEntry {
        binding: UNIFORM_BINDING,
        visibility: ShaderStages { vertex: true, fragment: true, compute: false },
        has_dynamic_offset: false,
        min_binding_size: None,
        count: None,
    }
}

/// The description of the viewer's pipeline for the surface as configured.
/// Only the pixel format of the surface enters it.
pub fn new_pipeline(surface_config: &SurfaceConfiguration) -> (descriptor:
    RenderPipelineDescriptor)
    ensures
        is_viewer_pipeline(descriptor, surface_config.format),
{
    let buffers = vec![Vertex::desc()];
    let targets = vec![
        ColorTargetState {
            format: surface_config.format,
            blend: Some(BlendState::Replace),
            write_mask: ColorWrites { red: true, green: true, blue: true, alpha: true },
        },
    ];
    assert(targets@ =~= seq![
        ColorTargetState {
            format: surface_config.format,
            blend: Some(BlendState::Replace),
            write_mask: all_channels(),
        },
    ]);
    RenderPipelineDescriptor {
        vertex_entry_point: "vs_main",
        fragment_entry_point: "fs_main",
        buffers,
        targets,
        primitive: PrimitiveState {
            topology: PrimitiveTopology::TriangleList,
            strip_index_format: None,
            front_face: FrontFace::Ccw,
            cull_mode: Some(Face::Back),
            unclipped_depth: false,
            polygon_mode: PolygonMode::Fill,
            conservative: false,
        },
        depth_stencil: false,
        multisample: MultisampleState {
            count: 1,
            mask: 0xffff_ffff_ffff_ffff,
            alpha_to_coverage_enabled: false,
        },
        multiview: None,
    }
}

} // verus!
