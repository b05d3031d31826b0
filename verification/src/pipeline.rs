//! The one render pipeline, as a plain description: a vertex stage that
//! covers the screen from the vertex index alone, a fragment stage that
//! dithers, and fixed-function state without depth, stencil or multisampling.

use vstd::prelude::*;
use crate::command::frame_pass;

verus! {

/// How vertices are assembled into primitives.
#[derive(Clone, Copy, Debug, PartialEq, Eq, Structural)]
pub enum PrimitiveTopology {
    PointList,
    LineList,
    LineStrip,
    TriangleList,
    TriangleStrip,
}

/// The winding of the vertices of a front face.
#[derive(Clone, Copy, Debug, PartialEq, Eq, Structural)]
pub enum FrontFace {
    Ccw,
    Cw,
}

/// A side of a primitive.
#[derive(Clone, Copy, Debug, PartialEq, Eq, Structural)]
pub enum Face {
    Front,
    Back,
}

/// How a polygon is rasterised.
#[derive(Clone, Copy, Debug, PartialEq, Eq, Structural)]
pub enum PolygonMode {
    Fill,
    Line,
    Point,
}

/// The width of the indices of a strip.
#[derive(Clone, Copy, Debug, PartialEq, Eq, Structural)]
pub enum IndexFormat {
    Uint16,
    Uint32,
}

/// How a fragment is combined with what the target holds.
#[derive(Clone, Copy, Debug, PartialEq, Eq, Structural)]
pub enum BlendState {
    /// The fragment replaces it.
    Replace,
    /// The fragment is laid over it by its alpha.
    AlphaBlending,
    /// The same for colours that were multiplied by their alpha.
    PremultipliedAlphaBlending,
}

/// The channels of the target that are written.
#[derive(Clone, Copy, Debug, PartialEq, Eq, Structural)]
pub struct ColorWrites {
    pub red: bool,
    pub green: bool,
    pub blue: bool,
    pub alpha: bool,
}

/// The two shader programs.
#[derive(Clone, Copy, Debug, PartialEq, Eq, Structural)]
pub enum ShaderProgram {
    /// Covers the screen with a triangle strip made from the vertex index.
    CoverScreen,
    /// Computes the dithered colour of a fragment.
    Shader,
}

/// The two binding groups.
#[derive(Clone, Copy, Debug, PartialEq, Eq, Structural)]
pub enum BindGroup {
    /// The group of the dither texture.
    Dither,
    /// The group of the uniform buffer.
    Uniform,
}

/// The vertex stage.
#[derive(Clone, Copy, Debug, PartialEq, Eq)]
pub struct VertexState {
    pub module: ShaderProgram,
    pub entry_point: &'static str,
    /// Vertex buffers that the stage reads.
    pub buffers: u32,
}

/// The one colour target of the fragment stage.
#[derive(Debug, PartialEq, Eq)]
pub struct ColorTargetState<F> {
    pub format: F,
    pub blend: Option<BlendState>,
    pub write_mask: ColorWrites,
}

/// The fragment stage.
#[derive(Debug, PartialEq, Eq)]
pub struct FragmentState<F> {
    pub module: ShaderProgram,
    pub entry_point: &'static str,
    pub target: ColorTargetState<F>,
}

/// Assembly and rasterisation of primitives.
#[derive(Clone, Copy, Debug, PartialEq, Eq, Structural)]
pub struct PrimitiveState {
    pub topology: PrimitiveTopology,
    pub strip_index_format: Option<IndexFormat>,
    pub front_face: FrontFace,
    pub cull_mode: Option<Face>,
    pub unclipped_depth: bool,
    pub polygon_mode: PolygonMode,
    pub conservative: bool,
}

/// Multisampling.
#[derive(Clone, Copy, Debug, PartialEq, Eq, Structural)]
pub struct MultisampleState {
    pub count: u32,
    pub mask: u64,
    pub alpha_to_coverage_enabled: bool,
}

/// The render pipeline. `F` is the type by which the owner of the GPU names
/// pixel formats.
#[derive(Debug, PartialEq, Eq)]
pub struct RenderPipelineDescriptor<F> {
    /// The binding groups of the layout, the group of set 0 first.
    pub bind_group_layouts: [BindGroup; 2],
    /// Ranges of push constants in the layout.
    pub push_constant_ranges: u32,
    pub vertex: VertexState,
    pub fragment: FragmentState<F>,
    pub primitive: PrimitiveState,
    /// Whether there is a depth and stencil attachment.
    pub depth_stencil: bool,
    pub multisample: MultisampleState,
    /// Views rendered at once, if more than one.
    pub multiview: Option<u32>,
}

impl<F> RenderPipelineDescriptor<F> {
    /// Whether this is the pipeline of the renderer for a target of the
    /// given format: the dither group at set 0 and the uniform group at set
    /// 1, no push constants; `vs_main` of the covering program without
    /// vertex buffers; `fs_main` of the dithering program, replacing all
    /// four channels of the target; triangle strips, counter-clockwise
    /// front, back faces culled, filled; no depth or stencil; one sample.
    pub open spec fn is_dither_pipeline(self, format: F) -> bool {
        &&& self.bind_group_layouts@ == seq![BindGroup::Dither, BindGroup::Uniform]
        &&& self.push_constant_ranges == 0
        &&& self.vertex.module == ShaderProgram::CoverScreen
        &&& self.vertex.entry_point@ == "vs_main"@
        &&& self.vertex.buffers == 0
        &&& self.fragment.module == ShaderProgram::Shader
        &&& self.fragment.entry_point@ == "fs_main"@
        &&& self.fragment.target == (ColorTargetState {
            format,
            blend: Some(BlendState::Replace),
            write_mask: ColorWrites { red: true, green: true, blue: true, alpha: true },
        })
        &&& self.primitive == (PrimitiveState {
            topology: PrimitiveTopology::TriangleStrip,
            strip_index_format: None,
            front_face: FrontFace::Ccw,
            cull_mode: Some(Face::Back),
            unclipped_depth: false,
            polygon_mode: PolygonMode::Fill,
            conservative: false,
        })
        &&& !self.depth_stencil
        &&& self.multisample == (MultisampleState {
            count: 1,
            mask: 0xffff_ffff_ffff_ffff,
            alpha_to_coverage_enabled: false,
        })
        &&& self.multiview is None
    }

    /// The set at which a binding group is bound, if the layout has it.
    pub open spec fn set_of(self, group: BindGroup) -> Option<int> {
        if self.bind_group_layouts@[0] == group {
            Some(0int)
        } else if self.bind_group_layouts@[1] == group {
            Some(1int)
        } else {
            None
        }
    }

    /// Describes the pipeline of the renderer for a target of the given
    /// format.
    pub fn build(format: F) -> (pipeline: RenderPipelineDescriptor<F>)
        ensures
            pipeline.is_dither_pipeline(format),
    {
        let layouts = [BindGroup::Dither, BindGroup::Uniform];
        assert(layouts@ =~= seq![BindGroup::Dither, BindGroup::Uniform]);
        assert(!0u64 == 0xffff_ffff_ffff_ffffu64) by (bit_vector);
        RenderPipelineDescriptor {
            bind_group_layouts: layouts,
            push_constant_ranges: 0,
            vertex: VertexState {
                module: ShaderProgram::CoverScreen,
                entry_point: "vs_main",
                buffers: 0,
            },
            fragment: FragmentState {
                module: ShaderProgram::Shader,
                entry_point: "fs_main",
                target: ColorTargetState {
                    format,
                    blend: Some(BlendState::Replace),
                    write_mask: ColorWrites { red: true, green: true, blue: true, alpha: true },
                },
            },
            primitive: PrimitiveState {
                topology: PrimitiveTopology::TriangleStrip,
                strip_index_format: None,
                front_face: FrontFace::Ccw,
                cull_mode: Some(Face::Back),
                unclipped_depth: false,
                polygon_mode: PolygonMode::Fill,
                conservative: false,
            },
            depth_stencil: false,
            multisample: MultisampleState {
                count: 1,
                mask: !0,
                alpha_to_coverage_enabled: false,
            },
            multiview: None,
        }
    }
}

/// What makes a pipeline of the renderer leaves nothing open: two of them
/// for the same format agree in every part.
pub proof fn lemma_dither_pipeline_unique<F>(
    a: RenderPipelineDescriptor<F>,
    b: RenderPipelineDescriptor<F>,
    format: F,
)
    requires
        a.is_dither_pipeline(format),
        b.is_dither_pipeline(format),
    ensures
        a.bind_group_layouts@ == b.bind_group_layouts@,
        a.push_constant_ranges == b.push_constant_ranges,
        a.vertex.module == b.vertex.module,
        a.vertex.entry_point@ == b.vertex.entry_point@,
        a.vertex.buffers == b.vertex.buffers,
        a.fragment.module == b.fragment.module,
        a.fragment.entry_point@ == b.fragment.entry_point@,
        a.fragment.target == b.fragment.target,
        a.primitive == b.primitive,
        a.depth_stencil == b.depth_stencil,
        a.multisample == b.multisample,
        a.multiview == b.multiview,
{
}

/// The pass of a frame binds each group at the set that the layout of the
/// pipeline gives it, and draws the five vertices of the strip that covers
/// the screen, once.
pub proof fn lemma_pass_matches_pipeline<F>(pipeline: RenderPipelineDescriptor<F>, format: F)
    requires
        pipeline.is_dither_pipeline(format),
    ensures
        pipeline.set_of(BindGroup::Dither) == Some(frame_pass().dither_group as int),
        pipeline.set_of(BindGroup::Uniform) == Some(frame_pass().uniform_group as int),
        pipeline.primitive.topology == PrimitiveTopology::TriangleStrip,
        pipeline.vertex.buffers == 0,
        frame_pass().vertices == 5,
        frame_pass().instances == 1,
{
}

} // verus!
