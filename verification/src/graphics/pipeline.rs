//! Render pipelines: the shader stages, the vertex layout and the
//! fixed-function state that one is built from.

use super::swap_chain::TextureFormat;
use super::vertex::VertexBufferLayout;
use vstd::prelude::*;

verus! {

/// A compiled shader module, named by the identifier under which the shell
/// holds it. The core never looks inside a module.
#[derive(Clone, Copy, Debug, PartialEq, Eq, Structural)]
pub struct ShaderModule {
    pub id: u32,
}

/// The width of the indices in an index buffer.
#[derive(Clone, Copy, Debug, PartialEq, Eq, Structural)]
pub enum IndexFormat {
    Uint16,
    Uint32,
}

impl IndexFormat {
    /// Size of one index in bytes.
    pub open spec fn spec_size(self) -> nat {
        match self {
            IndexFormat::Uint16 => 2,
            IndexFormat::Uint32 => 4,
        }
    }

    /// Size of one index in bytes.
    pub fn size(&self) -> (bytes: u64)
        ensures
            bytes == self.spec_size(),
    {
        match self {
            IndexFormat::Uint16 => 2,
            IndexFormat::Uint32 => 4,
        }
    }
}

/// How vertices are assembled into primitives.
#[derive(Clone, Copy, Debug, PartialEq, Eq, Structural)]
pub enum PrimitiveTopology {
    PointList,
    LineList,
    LineStrip,
    TriangleList,
    TriangleStrip,
}

/// The winding of a triangle's front face.
#[derive(Clone, Copy, Debug, PartialEq, Eq, Structural)]
pub enum FrontFace {
    Ccw,
    Cw,
}

/// A side of a triangle.
#[derive(Clone, Copy, Debug, PartialEq, Eq, Structural)]
pub enum Face {
    Front,
    Back,
}

/// How a polygon is rasterized.
#[derive(Clone, Copy, Debug, PartialEq, Eq, Structural)]
pub enum PolygonMode {
    Fill,
    Line,
    Point,
}

/// Primitive assembly and rasterization.
#[derive(Clone, Copy, Debug, PartialEq, Eq, Structural)]
pub struct PrimitiveState {
    pub topology: PrimitiveTopology,
    pub strip_index_format: Option<IndexFormat>,
    pub front_face: FrontFace,
    pub cull_mode: Option<Face>,
    pub polygon_mode: PolygonMode,
    pub clamp_depth: bool,
    pub conservative: bool,
}

/// Multisampling.
#[derive(Clone, Copy, Debug, PartialEq, Eq, Structural)]
pub struct MultisampleState {
    pub count: u32,
    pub mask: u64,
    pub alpha_to_coverage_enabled: bool,
}

/// A factor of the blend equation.
#[derive(Clone, Copy, Debug, PartialEq, Eq, Structural)]
pub enum BlendFactor {
    Zero,
    One,
    Src,
    OneMinusSrc,
    SrcAlpha,
    OneMinusSrcAlpha,
    Dst,
    OneMinusDst,
    DstAlpha,
    OneMinusDstAlpha,
    SrcAlphaSaturated,
    Constant,
    OneMinusConstant,
}

/// The operation of the blend equation.
#[derive(Clone, Copy, Debug, PartialEq, Eq, Structural)]
pub enum BlendOperation {
    Add,
    Subtract,
    ReverseSubtract,
    Min,
    Max,
}

/// The blend equation of the colour channels or of the alpha channel.
#[derive(Clone, Copy, Debug, PartialEq, Eq, Structural)]
pub struct BlendComponent {
    pub src_factor: BlendFactor,
    pub dst_factor: BlendFactor,
    pub operation: BlendOperation,
}

impl BlendComponent {
    /// The source replaces the destination: one times the source plus zero
    /// times the destination.
    pub open spec fn spec_replace() -> BlendComponent {
        BlendComponent {
            src_factor: BlendFactor::One,
            dst_factor: BlendFactor::Zero,
            operation: BlendOperation::Add,
        }
    }

    pub fn replace() -> (c: BlendComponent)
        ensures
            c == Self::spec_replace(),
    {
        BlendComponent {
            src_factor: BlendFactor::One,
            dst_factor: BlendFactor::Zero,
            operation: BlendOperation::Add,
        }
    }
}

/// How a fragment is blended into a colour target.
#[derive(Clone, Copy, Debug, PartialEq, Eq, Structural)]
pub struct BlendState {
    pub color: BlendComponent,
    pub alpha: BlendComponent,
}

/// The channels of a colour target that are written.
#[derive(Clone, Copy, Debug, PartialEq, Eq, Structural)]
pub struct ColorWrite {
    pub red: bool,
    pub green: bool,
    pub blue: bool,
    pub alpha: bool,
}

impl ColorWrite {
    pub open spec fn spec_all() -> ColorWrite {
        ColorWrite { red: true, green: true, blue: true, alpha: true }
    }

    /// Every channel is written.
    pub fn all() -> (w: ColorWrite)
        ensures
            w == Self::spec_all(),
    {
        ColorWrite { red: true, green: true, blue: true, alpha: true }
    }
}

/// One colour target of a pipeline.
#[derive(Clone, Copy, Debug, PartialEq, Eq, Structural)]
pub struct ColorTargetState {
    pub format: TextureFormat,
    pub blend: Option<BlendState>,
    pub write_mask: ColorWrite,
}

impl ColorTargetState {
    /// The target that replaces what was there, in every channel.
    pub open spec fn spec_replacing(format: TextureFormat) -> ColorTargetState {
        ColorTargetState {
            format,
            blend: Some(
                BlendState {
                    color: BlendComponent::spec_replace(),
                    alpha: BlendComponent::spec_replace(),
                },
            ),
            write_mask: ColorWrite::spec_all(),
        }
    }

    pub fn replacing(format: TextureFormat) -> (target: ColorTargetState)
        ensures
            target == Self::spec_replacing(format),
    {
        ColorTargetState {
            format,
            blend: Some(
                BlendState { color: BlendComponent::replace(), alpha: BlendComponent::replace() },
            ),
            write_mask: ColorWrite::all(),
        }
    }
}

/// The vertex stage of a pipeline.
#[derive(Clone, Debug)]
pub struct VertexState {
    pub module: ShaderModule,
    pub entry_point: &'static str,
    pub buffers: Vec<VertexBufferLayout>,
}

/// The fragment stage of a pipeline.
#[derive(Clone, Debug)]
pub struct FragmentState {
    pub module: ShaderModule,
    pub entry_point: &'static str,
    pub targets: Vec<ColorTargetState>,
}

/// A bind group layout, named by the identifier under which the shell holds
/// it.
#[derive(Clone, Copy, Debug, PartialEq, Eq, Structural)]
pub struct BindGroupLayout {
    pub id: u32,
}

/// A range of push-constant bytes and the stages that see it.
#[derive(Clone, Copy, Debug, PartialEq, Eq, Structural)]
pub struct PushConstantRange {
    pub vertex: bool,
    pub fragment: bool,
    pub start: u32,
    pub end: u32,
}

/// The resources that a pipeline expects to be bound.
#[derive(Clone, Debug)]
pub struct PipelineLayoutDescriptor {
    pub label: &'static str,
    pub bind_group_layouts: Vec<BindGroupLayout>,
    pub push_constant_ranges: Vec<PushConstantRange>,
}

/// Everything a render pipeline is built from. A pipeline of this core has
/// no depth-stencil state.
#[derive(Clone, Debug)]
pub struct RenderPipelineDescriptor {
    pub label: &'static str,
    pub layout: PipelineLayoutDescriptor,
    pub vertex: VertexState,
    pub fragment: Option<FragmentState>,
    pub primitive: PrimitiveState,
    pub multisample: MultisampleState,
}

/// Whether two lists of vertex buffer layouts describe the same bytes, one
/// by one.
pub open spec fn same_layouts(a: Seq<VertexBufferLayout>, b: Seq<VertexBufferLayout>) -> bool {
    &&& a.len() == b.len()
    &&& forall|i: int| 0 <= i < a.len() ==> (#[trigger] a[i]).same_as(&b[i])
}

fn layouts_match(a: &Vec<VertexBufferLayout>, b: &Vec<VertexBufferLayout>) -> (r: bool)
    ensures
        r == same_layouts(a@, b@),
{
    if a.len() != b.len() {
        return false;
    }
    let mut i: usize = 0;
    while i < a.len()
        invariant
            0 <= i <= a@.len(),
            a@.len() == b@.len(),
            forall|k: int| 0 <= k < i ==> (#[trigger] a@[k]).same_as(&b@[k]),
        decreases a@.len() - i,
    {
        if !a[i].matches(&b[i]) {
            return false;
        }
        i = i + 1;
    }
    true
}

fn targets_match(a: &Vec<ColorTargetState>, b: &Vec<ColorTargetState>) -> (r: bool)
    ensures
        r == (a@ == b@),
{
    if a.len() != b.len() {
        return false;
    }
    let mut i: usize = 0;
    while i < a.len()
        invariant
            0 <= i <= a@.len(),
            a@.len() == b@.len(),
            forall|k: int| 0 <= k < i ==> a@[k] == b@[k],
        decreases a@.len() - i,
    {
        if a[i] != b[i] {
            return false;
        }
        i = i + 1;
    }
    assert(a@ =~= b@);
    true
}

/// A compiled graphics pipeline, known by what it was built from. It has no
/// method that changes it.
#[derive(Clone, Debug)]
pub struct Pipeline {
    descriptor: RenderPipelineDescriptor,
}

impl Pipeline {
    /// What the pipeline was built from.
    pub closed spec fn spec_descriptor(&self) -> RenderPipelineDescriptor {
        self.descriptor
    }

    /// Triangle lists, counter-clockwise front faces, back faces culled,
    /// filled polygons.
    pub open spec fn spec_primitive() -> PrimitiveState {
        PrimitiveState {
            topology: PrimitiveTopology::TriangleList,
            strip_index_format: None,
            front_face: FrontFace::Ccw,
            cull_mode: Some(Face::Back),
            polygon_mode: PolygonMode::Fill,
            clamp_depth: false,
            conservative: false,
        }
    }

    /// One sample per pixel, every sample enabled.
    pub open spec fn spec_multisample() -> MultisampleState {
        MultisampleState { count: 1, mask: u64::MAX, alpha_to_coverage_enabled: false }
    }

    /// The descriptor is the one that [`Pipeline::pipeline_descriptor`]
    /// makes of the three parts.
    pub open spec fn describes(
        desc: RenderPipelineDescriptor,
        layout: PipelineLayoutDescriptor,
        vertex: VertexState,
        fragment: FragmentState,
    ) -> bool {
        &&& desc.label@ == "Render Pipeline"@
        &&& desc.layout == layout
        &&& desc.vertex == vertex
        &&& desc.fragment == Some(fragment)
        &&& desc.primitive == Self::spec_primitive()
        &&& desc.multisample == Self::spec_multisample()
    }

    /// Two pipelines can stand in for each other exactly when they were
    /// built from the same shader modules, the same vertex layouts and the
    /// same fixed-function state.
    pub open spec fn interchangeable(&self, other: &Pipeline) -> bool {
        let a = self.spec_descriptor();
        let b = other.spec_descriptor();
        &&& a.vertex.module == b.vertex.module
        &&& match (a.fragment, b.fragment) {
            (Some(f), Some(g)) => f.module == g.module && f.targets@ == g.targets@,
            (None, None) => true,
            _ => false,
        }
        &&& same_layouts(a.vertex.buffers@, b.vertex.buffers@)
        &&& a.primitive == b.primitive
        &&& a.multisample == b.multisample
    }

    /// The layout of a pipeline that binds no resources.
    pub fn layout_descriptor() -> (layout: PipelineLayoutDescriptor)
        ensures
            layout.label@ == "Pipeline Layout"@,
            layout.bind_group_layouts@.len() == 0,
            layout.push_constant_ranges@.len() == 0,
    {
        PipelineLayoutDescriptor {
            label: "Pipeline Layout",
            bind_group_layouts: Vec::new(),
            push_constant_ranges: Vec::new(),
        }
    }

    /// The descriptor of the pipeline with the given layout and stages and
    /// with the fixed-function state of this core.
    pub fn pipeline_descriptor(
        layout_desc: PipelineLayoutDescriptor,
        vertex: VertexState,
        fragment: FragmentState,
    ) -> (desc: RenderPipelineDescriptor)
        ensures
            Self::describes(desc, layout_desc, vertex, fragment),
    {
        RenderPipelineDescriptor {
            label: "Render Pipeline",
            layout: layout_desc,
            vertex,
            fragment: Some(fragment),
            primitive: PrimitiveState {
                topology: PrimitiveTopology::TriangleList,
                strip_index_format: None,
                front_face: FrontFace::Ccw,
                cull_mode: Some(Face::Back),
                polygon_mode: PolygonMode::Fill,
                clamp_depth: false,
                conservative: false,
            },
            multisample: MultisampleState {
                count: 1,
                mask: 0xffff_ffff_ffff_ffff,
                alpha_to_coverage_enabled: false,
            },
        }
    }

    /// The pipeline built from `descriptor`.
    pub fn new(descriptor: RenderPipelineDescriptor) -> (pipeline: Pipeline)
        ensures
            pipeline.spec_descriptor() == descriptor,
    {
        Pipeline { descriptor }
    }

    /// What the pipeline was built from.
    pub fn descriptor(&self) -> (desc: &RenderPipelineDescriptor)
        ensures
            *desc == self.spec_descriptor(),
    {
        &self.descriptor
    }

    /// Whether the two pipelines can stand in for each other.
    pub fn same_as(&self, other: &Pipeline) -> (r: bool)
        ensures
            r == self.interchangeable(other),
    {
        let a = &self.descriptor;
        let b = &other.descriptor;
        if a.vertex.module != b.vertex.module {
            return false;
        }
        let fragments: bool = match (&a.fragment, &b.fragment) {
            (Some(f), Some(g)) => f.module == g.module && targets_match(&f.targets, &g.targets),
            (None, None) => true,
            _ => false,
        };
        fragments && layouts_match(&a.vertex.buffers, &b.vertex.buffers) && a.primitive
            == b.primitive && a.multisample == b.multisample
    }
}

/// Standing in for each other is an equivalence: every pipeline can stand in
/// for itself, and the relation is symmetric and transitive.
pub proof fn lemma_interchangeable_is_equivalence(a: Pipeline, b: Pipeline, c: Pipeline)
    ensures
        a.interchangeable(&a),
        a.interchangeable(&b) ==> b.interchangeable(&a),
        a.interchangeable(&b) && b.interchangeable(&c) ==> a.interchangeable(&c),
{
}

} // verus!
