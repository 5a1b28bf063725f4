use vstd::prelude::*;

verus! {

/// The element formats of the two vertex streams.
#[derive(PartialEq, Eq, Structural, Clone, Copy, Debug)]
pub enum VertexFormat {
    /// A point: three 32-bit floats.
    Float32x3,
    /// A color: four 32-bit floats.
    Float32x4,
}

impl VertexFormat {
    /// Size of one element in bytes.
    pub open spec fn spec_size(self) -> u64 {
        match self {
            VertexFormat::Float32x3 => 12,
            VertexFormat::Float32x4 => 16,
        }
    }

    /// Size of one element in bytes.
    #[verifier::when_used_as_spec(spec_size)]
    pub fn size(self) -> (r: u64)
        ensures
            r == self.spec_size(),
    {
        match self {
            VertexFormat::Float32x3 => 12,
            VertexFormat::Float32x4 => 16,
        }
    }
}

/// How a vertex buffer advances: per vertex or per instance.
#[derive(PartialEq, Eq, Structural, Clone, Copy, Debug)]
pub enum VertexStepMode {
    Vertex,
    Instance,
}

/// One shader input read from a vertex buffer at `offset` bytes into each
/// element.
#[derive(PartialEq, Eq, Structural, Clone, Copy, Debug)]
pub struct VertexAttribute {
    pub format: VertexFormat,
    pub offset: u64,
    pub shader_location: u32,
}

/// A view of a vertex buffer: its stride, how it advances, and the inputs it
/// feeds.
pub struct VertexBufferLayout {
    pub array_stride: u64,
    pub step_mode: VertexStepMode,
    pub attributes: Vec<VertexAttribute>,
}

/// An attribute literal.
pub open spec fn attribute(format: VertexFormat, offset: u64, shader_location: u32) -> VertexAttribute {
    VertexAttribute { format, offset, shader_location }
}

/// `layout` steps per instance with the given stride and attributes.
pub open spec fn is_layout(layout: VertexBufferLayout, array_stride: u64, attributes: Seq<VertexAttribute>) -> bool {
    &&& layout.array_stride == array_stride
    &&& layout.step_mode == VertexStepMode::Instance
    &&& layout.attributes@ == attributes
}

/// The vertex-buffer views that feed each segment instance its two endpoints
/// (locations 0 and 1) and their colors (locations 2 and 3) straight from the
/// asset's arrays. For strips, two views of each array with a one-element
/// stride, bound one element apart, yield every adjacent pair; for lists, one
/// view of each array with a two-element stride yields consecutive pairs.
pub fn line_gizmo_vertex_buffer_layouts(strip: bool) -> (r: Vec<VertexBufferLayout>)
    ensures
        strip ==> {
            &&& r@.len() == 4
            &&& is_layout(r@[0], 12, seq![attribute(VertexFormat::Float32x3, 0, 0)])
            &&& is_layout(r@[1], 12, seq![attribute(VertexFormat::Float32x3, 0, 1)])
            &&& is_layout(r@[2], 16, seq![attribute(VertexFormat::Float32x4, 0, 2)])
            &&& is_layout(r@[3], 16, seq![attribute(VertexFormat::Float32x4, 0, 3)])
        },
        !strip ==> {
            &&& r@.len() == 2
            &&& is_layout(
                r@[0],
                24,
                seq![attribute(VertexFormat::Float32x3, 0, 0), attribute(VertexFormat::Float32x3, 12, 1)],
            )
            &&& is_layout(
                r@[1],
                32,
                seq![attribute(VertexFormat::Float32x4, 0, 2), attribute(VertexFormat::Float32x4, 16, 3)],
            )
        },
{
    let position_size = VertexFormat::Float32x3.size();
    let color_size = VertexFormat::Float32x4.size();
    if strip {
        let r = vec![
            single_attribute_layout(VertexFormat::Float32x3, 0),
            single_attribute_layout(VertexFormat::Float32x3, 1),
            single_attribute_layout(VertexFormat::Float32x4, 2),
            single_attribute_layout(VertexFormat::Float32x4, 3),
        ];
        r
    } else {
        let mut position_layout = single_attribute_layout(VertexFormat::Float32x3, 0);
        position_layout.array_stride = position_layout.array_stride * 2;
        position_layout.attributes.push(
            VertexAttribute { format: VertexFormat::Float32x3, offset: position_size, shader_location: 1 },
        );
        let mut color_layout = single_attribute_layout(VertexFormat::Float32x4, 2);
        color_layout.array_stride = color_layout.array_stride * 2;
        color_layout.attributes.push(
            VertexAttribute { format: VertexFormat::Float32x4, offset: color_size, shader_location: 3 },
        );
        proof {
            assert(position_layout.attributes@ =~= seq![
                attribute(VertexFormat::Float32x3, 0, 0),
                attribute(VertexFormat::Float32x3, 12, 1),
            ]);
            assert(color_layout.attributes@ =~= seq![
                attribute(VertexFormat::Float32x4, 0, 2),
                attribute(VertexFormat::Float32x4, 16, 3),
            ]);
        }
        vec![position_layout, color_layout]
    }
}

/// A per-instance view with one-element stride and one attribute at offset 0.
fn single_attribute_layout(format: VertexFormat, shader_location: u32) -> (r: VertexBufferLayout)
    ensures
        is_layout(r, format.spec_size(), seq![attribute(format, 0, shader_location)]),
{
    let attributes = vec![VertexAttribute { format, offset: 0, shader_location }];
    proof {
        assert(attributes@ =~= seq![attribute(format, 0, shader_location)]);
    }
    VertexBufferLayout { array_stride: format.size(), step_mode: VertexStepMode::Instance, attributes }
}

/// The number of segment instances an asset of `vertex_count` points is drawn
/// with: none below two points; `vertex_count - 1` adjacent pairs for strips;
/// `vertex_count / 2` consecutive pairs for lists.
pub open spec fn spec_instance_count(vertex_count: u32, strip: bool) -> u32 {
    if vertex_count < 2 {
        0
    } else if strip {
        (vertex_count - 1) as u32
    } else {
        (vertex_count / 2) as u32
    }
}

/// Which vertex buffer a slice is taken from.
#[derive(PartialEq, Eq, Structural, Clone, Copy, Debug)]
pub enum VertexStream {
    Positions,
    Colors,
}

/// A byte range `start..end` of one of the asset's two buffers, bound to the
/// vertex-buffer slot of its index in the plan.
#[derive(PartialEq, Eq, Structural, Clone, Copy, Debug)]
pub struct BufferSlice {
    pub stream: VertexStream,
    pub start: u64,
    pub end: u64,
}

/// How an asset is drawn: the buffer slices bound to slots 0, 1, ... and the
/// number of instances.
pub struct DrawPlan {
    pub slices: Vec<BufferSlice>,
    pub instances: u32,
}

/// A slice literal.
pub open spec fn slice(stream: VertexStream, start: int, end: int) -> BufferSlice {
    BufferSlice { stream, start: start as u64, end: end as u64 }
}

/// Plans drawing an asset of `vertex_count` points (positions of 12 bytes,
/// colors of 16). Below two points nothing is drawn. For strips each buffer
/// is bound twice, once without its last element and once without its first,
/// so that instance `i` reads elements `i` and `i + 1`; for lists each buffer
/// is bound whole and instance `i` reads elements `2i` and `2i + 1`.
pub fn draw_line_gizmo(vertex_count: u32, strip: bool) -> (r: Option<DrawPlan>)
    ensures
        vertex_count < 2 <==> r is None,
        r matches Some(plan) ==> {
            &&& plan.instances == spec_instance_count(vertex_count, strip)
            &&& strip ==> plan.slices@ == seq![
                slice(VertexStream::Positions, 0, 12 * (vertex_count - 1)),
                slice(VertexStream::Positions, 12, 12 * vertex_count),
                slice(VertexStream::Colors, 0, 16 * (vertex_count - 1)),
                slice(VertexStream::Colors, 16, 16 * vertex_count),
            ]
            &&& !strip ==> plan.slices@ == seq![
                slice(VertexStream::Positions, 0, 12 * vertex_count),
                slice(VertexStream::Colors, 0, 16 * vertex_count),
            ]
        },
{
    if vertex_count < 2 {
        return None;
    }
    let n = vertex_count as u64;
    let position_size = VertexFormat::Float32x3.size();
    let color_size = VertexFormat::Float32x4.size();
    let position_bytes = position_size * n;
    let color_bytes = color_size * n;
    if strip {
        let position_head = position_bytes - position_size;
        let color_head = color_bytes - color_size;
        let slices = vec![
            BufferSlice { stream: VertexStream::Positions, start: 0, end: position_head },
            BufferSlice { stream: VertexStream::Positions, start: position_size, end: position_bytes },
            BufferSlice { stream: VertexStream::Colors, start: 0, end: color_head },
            BufferSlice { stream: VertexStream::Colors, start: color_size, end: color_bytes },
        ];
        proof {
            assert(slices@ =~= seq![
                slice(VertexStream::Positions, 0, 12 * (vertex_count - 1)),
                slice(VertexStream::Positions, 12, 12 * vertex_count),
                slice(VertexStream::Colors, 0, 16 * (vertex_count - 1)),
                slice(VertexStream::Colors, 16, 16 * vertex_count),
            ]);
        }
        Some(DrawPlan { slices, instances: vertex_count - 1 })
    } else {
        let slices = vec![
            BufferSlice { stream: VertexStream::Positions, start: 0, end: position_bytes },
            BufferSlice { stream: VertexStream::Colors, start: 0, end: color_bytes },
        ];
        proof {
            assert(slices@ =~= seq![
                slice(VertexStream::Positions, 0, 12 * vertex_count),
                slice(VertexStream::Colors, 0, 16 * vertex_count),
            ]);
        }
        Some(DrawPlan { slices, instances: vertex_count / 2 })
    }
}

/// Which strip instances are drawn, given for each point of a strip asset
/// whether it is a restart marker: instance `i` (points `i` and `i + 1`) is
/// drawn exactly when neither of its points is a marker, so that no segment
/// joins two polylines or reaches a marker.
pub fn strip_instance_mask(is_restart: &Vec<bool>) -> (r: Vec<bool>)
    ensures
        r@.len() == if is_restart@.len() == 0 { 0 } else { is_restart@.len() - 1 },
        forall|i: int| 0 <= i < r@.len() ==> #[trigger] r@[i] == (!is_restart@[i] && !is_restart@[i + 1]),
{
    let mut r: Vec<bool> = Vec::new();
    if is_restart.len() == 0 {
        return r;
    }
    let last: usize = is_restart.len() - 1;
    let mut i: usize = 0;
    while i < last
        invariant
            is_restart@.len() >= 1,
            last == is_restart@.len() - 1,
            i <= last,
            r@.len() == i,
            forall|j: int| 0 <= j < i ==> #[trigger] r@[j] == (!is_restart@[j] && !is_restart@[j + 1]),
        decreases is_restart@.len() - i,
    {
        r.push(!is_restart[i] && !is_restart[i + 1]);
        i = i + 1;
    }
    r
}

} // verus!
