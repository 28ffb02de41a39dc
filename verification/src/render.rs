//! What one frame consists of, and the pipeline it is drawn with.

use vstd::prelude::*;
use crate::color::Color;
use crate::mesh::INDEX_COUNT;

verus! {

/// One indexed draw: the first `index_count` indices of the index buffer,
/// `instance_count` times over.
#[derive(Clone, Copy, Debug, PartialEq, Eq, Structural)]
pub struct DrawIndexed {
    pub index_count: u32,
    pub instance_count: u32,
}

/// The single render pass of a frame, with one colour attachment: the frame.
#[derive(Clone, Copy, Debug, PartialEq, Eq)]
pub struct RenderPass {
    /// The colour the frame is cleared to when the pass begins.
    pub clear_color: Color,
    /// Whether what was rendered is kept when the pass ends.
    pub store: bool,
    /// Whether the pass has a depth and stencil attachment.
    pub depth_stencil: bool,
    /// What is drawn after the clear, if anything.
    pub draw: Option<DrawIndexed>,
}

impl RenderPass {
    /// The pass of one frame: clear to `background`, keep the result, no depth
    /// or stencil, and one draw of the pentagon where there is a pipeline to
    /// draw it with.
    pub open spec fn of_frame(background: Color, pipeline: bool) -> RenderPass {
        RenderPass {
            clear_color: background,
            store: true,
            depth_stencil: false,
            draw: if pipeline {
                Some(DrawIndexed { index_count: INDEX_COUNT, instance_count: 1 })
            } else {
                None
            },
        }
    }

    /// Builds the pass of one frame.
    pub fn new(background: Color, pipeline: bool) -> (pass: RenderPass)
        ensures
            pass == RenderPass::of_frame(background, pipeline),
    {
        let draw = if pipeline {
            Some(DrawIndexed { index_count: INDEX_COUNT, instance_count: 1 })
        } else {
            None
        };
        RenderPass { clear_color: background, store: true, depth_stencil: false, draw }
    }
}

/// How consecutive vertices form primitives.
#[derive(Clone, Copy, Debug, PartialEq, Eq, Structural)]
pub enum PrimitiveTopology {
    PointList,
    LineList,
    LineStrip,
    /// Every three vertices are one triangle.
    TriangleList,
    TriangleStrip,
}

/// Which winding makes a triangle face the viewer.
#[derive(Clone, Copy, Debug, PartialEq, Eq, Structural)]
pub enum FrontFace {
    /// Corners that run counter-clockwise.
    Ccw,
    /// Corners that run clockwise.
    Cw,
}

/// A side of a triangle.
#[derive(Clone, Copy, Debug, PartialEq, Eq, Structural)]
pub enum Face {
    Front,
    Back,
}

/// The number of bytes of one float in a vertex buffer.
pub const FLOAT_BYTES: u64 = 4;

/// The type of one input of the vertex shader: a vector of one to four
/// floats.
#[derive(Clone, Copy, Debug, PartialEq, Eq, Structural)]
pub enum VertexFormat {
    Float32,
    Float32x2,
    Float32x3,
    Float32x4,
}

impl VertexFormat {
    /// The number of floats in the vector.
    pub open spec fn components(self) -> int {
        match self {
            VertexFormat::Float32 => 1,
            VertexFormat::Float32x2 => 2,
            VertexFormat::Float32x3 => 3,
            VertexFormat::Float32x4 => 4,
        }
    }

    /// The number of bytes the vector takes in a vertex.
    pub open spec fn size(self) -> int {
        FLOAT_BYTES * self.components()
    }

    /// Computes the number of bytes the vector takes in a vertex.
    pub fn bytes(self) -> (bytes: u64)
        ensures
            bytes == self.size(),
    {
        match self {
            VertexFormat::Float32 => FLOAT_BYTES,
            VertexFormat::Float32x2 => 2 * FLOAT_BYTES,
            VertexFormat::Float32x3 => 3 * FLOAT_BYTES,
            VertexFormat::Float32x4 => 4 * FLOAT_BYTES,
        }
    }
}

/// One input of the vertex shader: a vector that starts `offset` bytes into
/// each vertex.
#[derive(Clone, Copy, Debug, PartialEq, Eq, Structural)]
pub struct VertexAttribute {
    pub format: VertexFormat,
    pub offset: u64,
    pub shader_location: u32,
}

impl VertexAttribute {
    /// The offset of the first byte behind the attribute.
    pub open spec fn end(self) -> int {
        self.offset + self.format.size()
    }
}

/// How a vertex lies in the vertex buffer: `array_stride` bytes each, the
/// position and the colour inside them.
#[derive(Clone, Copy, Debug, PartialEq, Eq, Structural)]
pub struct VertexLayout {
    pub array_stride: u64,
    pub position: VertexAttribute,
    pub color: VertexAttribute,
}

impl VertexLayout {
    /// The position comes first, the colour behind it, both inside the
    /// vertex, at different shader locations.
    pub open spec fn wf(self) -> bool {
        &&& self.position.end() <= self.color.offset
        &&& self.color.end() <= self.array_stride
        &&& self.position.shader_location != self.color.shader_location
    }

    /// The layout without gaps: the position at the start of the vertex and at
    /// shader location 0, the colour right behind it and at shader location
    /// 1, and nothing after the colour.
    pub open spec fn packed(position: VertexFormat, color: VertexFormat) -> VertexLayout {
        VertexLayout {
            array_stride: (position.size() + color.size()) as u64,
            position: VertexAttribute { format: position, offset: 0, shader_location: 0 },
            color: VertexAttribute { format: color, offset: position.size() as u64, shader_location: 1 },
        }
    }

    /// Lays a position and a colour of the given formats out without gaps.
    pub fn new(position: VertexFormat, color: VertexFormat) -> (layout: VertexLayout)
        ensures
            layout == VertexLayout::packed(position, color),
            layout.wf(),
            layout.color.end() == layout.array_stride,
    {
        let color_offset = position.bytes();
        VertexLayout {
            array_stride: color_offset + color.bytes(),
            position: VertexAttribute { format: position, offset: 0, shader_location: 0 },
            color: VertexAttribute { format: color, offset: color_offset, shader_location: 1 },
        }
    }
}

/// The fixed choices of the pipeline that draws the pentagon.
#[derive(Clone, Copy, Debug, PartialEq, Eq)]
pub struct Pipeline {
    pub topology: PrimitiveTopology,
    pub front_face: FrontFace,
    /// The side of a triangle that is not drawn, if any.
    pub cull_mode: Option<Face>,
    pub layout: VertexLayout,
    /// The number of samples per pixel.
    pub sample_count: u32,
    /// Whether the pipeline tests depth or stencil.
    pub depth_stencil: bool,
}

impl Pipeline {
    /// The pipeline of the pentagon: a list of triangles whose front runs
    /// counter-clockwise and whose back is culled; vertices of three floats
    /// of position at offset 0 and three floats of colour at offset 12; one
    /// sample per pixel; no depth or stencil test.
    pub open spec fn pentagon() -> Pipeline {
        Pipeline {
            topology: PrimitiveTopology::TriangleList,
            front_face: FrontFace::Ccw,
            cull_mode: Some(Face::Back),
            layout: VertexLayout::packed(VertexFormat::Float32x3, VertexFormat::Float32x3),
            sample_count: 1,
            depth_stencil: false,
        }
    }

    /// Builds the pipeline of the pentagon.
    pub fn new() -> (pipeline: Pipeline)
        ensures
            pipeline == Pipeline::pentagon(),
            pipeline.layout.wf(),
    {
        Pipeline {
            topology: PrimitiveTopology::TriangleList,
            front_face: FrontFace::Ccw,
            cull_mode: Some(Face::Back),
            layout: VertexLayout::new(VertexFormat::Float32x3, VertexFormat::Float32x3),
            sample_count: 1,
            depth_stencil: false,
        }
    }
}

/// The vertices of the pentagon fill their layout exactly: position and
/// colour, three floats each, lie back to back and leave no byte of the stride
/// unused. And a frame draws every index of the pentagon once.
pub proof fn lemma_pentagon_layout_is_tight()
    ensures
        Pipeline::pentagon().layout.wf(),
        Pipeline::pentagon().layout.position.offset == 0,
        Pipeline::pentagon().layout.position.end() == Pipeline::pentagon().layout.color.offset == 12,
        Pipeline::pentagon().layout.color.end() == Pipeline::pentagon().layout.array_stride == 24,
        forall|background: Color|
            (#[trigger] RenderPass::of_frame(background, true)).draw == Some(
                DrawIndexed { index_count: crate::mesh::pentagon_indices().len() as u32, instance_count: 1 },
            ),
{
    crate::mesh::lemma_pentagon_is_three_triangles();
}

} // verus!
