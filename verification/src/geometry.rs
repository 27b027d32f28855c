//! The quad that every frame draws, and the layout of its vertex buffer.
//!
//! The quad's corners lie on whole numbers of clip space, so the table keeps
//! them as integers; they are widened to 32-bit floats only where the vertex
//! buffer is filled. The layout speaks of the floats: five of them per
//! vertex, three for the position and two for the texture coordinate.

use vstd::prelude::*;

verus! {

/// One corner of the mesh: a position in clip space and the texture
/// coordinate that belongs to it.
#[derive(Clone, Copy, Debug, PartialEq, Eq)]
pub struct Vertex {
    pub position: [i32; 3],
    pub tex_coords: [i32; 2],
}

/// The element type of a vertex attribute, by its name in the shading
/// language's host interface.
#[derive(Clone, Copy, Debug, PartialEq, Eq, Structural)]
pub enum VertexFormat {
    /// One 32-bit float.
    Float32,
    /// Two 32-bit floats.
    Float32x2,
    /// Three 32-bit floats.
    Float32x3,
    /// Four 32-bit floats.
    Float32x4,
}

/// Whether a vertex buffer advances once per vertex or once per instance.
#[derive(Clone, Copy, Debug, PartialEq, Eq, Structural)]
pub enum VertexStepMode {
    Vertex,
    Instance,
}

/// Where one attribute of a vertex lies in the buffer and which shader input
/// receives it.
#[derive(Clone, Copy, Debug, PartialEq, Eq, Structural)]
pub struct VertexAttribute {
    pub format: VertexFormat,
    pub offset: u64,
    pub shader_location: u32,
}

/// How the vertex stage reads the vertex buffer.
#[derive(Debug, PartialEq, Eq)]
pub struct VertexBufferLayout {
    pub array_stride: u64,
    pub step_mode: VertexStepMode,
    pub attributes: Vec<VertexAttribute>,
}

/// The quad's four corners. The texture coordinate of a corner is its
/// position moved from the square [-1, 1] to the square [0, 1].
pub open spec fn quad_vertices() -> Seq<(int, int, int, int, int)> {
    seq![(-1, -1, 0, 0, 0), (1, -1, 0, 1, 0), (1, 1, 0, 1, 1), (-1, 1, 0, 0, 1)]
}

/// The quad as two triangles, three indices each.
pub open spec fn quad_indices() -> Seq<u16> {
    seq![2u16, 3u16, 0u16, 1u16, 2u16, 0u16]
}

/// The formats of a vertex's attributes, in the order of their shader
/// locations: the position, then the texture coordinate.
pub open spec fn vertex_formats() -> Seq<VertexFormat> {
    seq![VertexFormat::Float32x3, VertexFormat::Float32x2]
}

/// Twice the signed area of the triangle `a`, `b`, `c` on the screen plane:
/// positive where the corners run counter-clockwise.
pub open spec fn doubled_area(a: Vertex, b: Vertex, c: Vertex) -> int {
    (b.x() - a.x()) * (c.y() - a.y()) - (b.y() - a.y()) * (c.x() - a.x())
}

/// The mesh is fit for an indexed draw of a triangle list under
/// counter-clockwise front faces with back faces culled: the indices come in
/// threes, each names a vertex, and each triangle faces the viewer.
pub open spec fn is_front_facing_mesh(vertices: Seq<Vertex>, indices: Seq<u16>) -> bool {
    &&& indices.len() % 3 == 0
    &&& forall|i: int| 0 <= i < indices.len() ==> (#[trigger] indices[i]) < vertices.len()
    &&& forall|t: int|
        0 <= t < indices.len() / 3 ==> #[trigger] doubled_area(
            vertices[indices[3 * t] as int],
            vertices[indices[3 * t + 1] as int],
            vertices[indices[3 * t + 2] as int],
        ) > 0
}

/// The offset of attribute `i` where the attributes are packed in order with
/// no gaps: the sizes of those before it, added up.
pub open spec fn packed_offset(formats: Seq<VertexFormat>, i: int) -> int
    decreases i,
{
    if i <= 0 {
        0
    } else {
        packed_offset(formats, i - 1) + formats[i - 1].size_in_bytes()
    }
}

/// The attributes that `formats` describe: attribute `i` has format
/// `formats[i]`, shader location `i`, and the packed offset.
pub open spec fn is_packed(attributes: Seq<VertexAttribute>, formats: Seq<VertexFormat>) -> bool {
    &&& attributes.len() == formats.len()
    &&& forall|i: int|
        0 <= i < attributes.len() ==> {
            &&& (#[trigger] attributes[i]).format == formats[i]
            &&& attributes[i].shader_location == i
            &&& attributes[i].offset == packed_offset(formats, i)
        }
}

/// `layout` is the layout of a buffer of the quad's vertices: one record of
/// twenty bytes per vertex, the position at shader location 0 and offset 0,
/// the texture coordinate at location 1 and offset 12.
pub open spec fn is_quad_layout(layout: VertexBufferLayout) -> bool {
    &&& layout.step_mode == VertexStepMode::Vertex
    &&& layout.array_stride == 20
    &&& layout.array_stride == packed_offset(vertex_formats(), 2)
    &&& is_packed(layout.attributes@, vertex_formats())
    &&& layout.attributes@ == seq![
        VertexAttribute { format: VertexFormat::Float32x3, offset: 0, shader_location: 0 },
        VertexAttribute { format: VertexFormat::Float32x2, offset: 12, shader_location: 1 },
    ]
}

impl Vertex {
    /// The horizontal clip-space coordinate.
    pub open spec fn x(self) -> int {
        self.position@[0] as int
    }

    /// The vertical clip-space coordinate.
    pub open spec fn y(self) -> int {
        self.position@[1] as int
    }

    /// The vertex as the five numbers of its buffer record.
    pub open spec fn record(self) -> (int, int, int, int, int) {
        (
            self.position@[0] as int,
            self.position@[1] as int,
            self.position@[2] as int,
            self.tex_coords@[0] as int,
            self.tex_coords@[1] as int,
        )
    }

    /// The layout of a buffer of vertices: the position at shader location 0
    /// and the texture coordinate at location 1, packed, one record per
    /// vertex, with a stride of exactly one record.
    pub fn desc() -> (layout: VertexBufferLayout)
        ensures
            is_quad_layout(layout),
    {
        let formats = vec![VertexFormat::Float32x3, VertexFormat::Float32x2];
        assert(formats@ =~= vertex_formats());
        let (attributes, array_stride) = attribute_array(&formats);
        proof {
            reveal_with_fuel(packed_offset, 3);
            assert(attributes@ =~= seq![
                VertexAttribute { format: VertexFormat::Float32x3, offset: 0, shader_location: 0 },
                VertexAttribute { format: VertexFormat::Float32x2, offset: 12, shader_location: 1 },
            ]);
        }
        VertexBufferLayout { array_stride, step_mode: VertexStepMode::Vertex, attributes }
    }
}

impl VertexFormat {
    /// The bytes one attribute of this format takes in the buffer.
    pub open spec fn size_in_bytes(self) -> int {
        match self {
            VertexFormat::Float32 => 4,
            VertexFormat::Float32x2 => 8,
            VertexFormat::Float32x3 => 12,
            VertexFormat::Float32x4 => 16,
        }
    }

    /// The bytes one attribute of this format takes in the buffer.
    pub fn size(&self) -> (size: u64)
        ensures
            size == self.size_in_bytes(),
    {
        match self {
            VertexFormat::Float32 => 4,
            VertexFormat::Float32x2 => 8,
            VertexFormat::Float32x3 => 12,
            VertexFormat::Float32x4 => 16,
        }
    }
}

/// Lays attributes of the given formats out one after the other, numbering
/// the shader locations from zero, and returns them with the size of the
/// record they make up, which is the stride of a tightly packed buffer.
pub fn attribute_array(formats: &Vec<VertexFormat>) -> (layout: (Vec<VertexAttribute>, u64))
    requires
        formats@.len() <= u32::MAX,
    ensures
        is_packed(layout.0@, formats@),
        layout.1 == packed_offset(formats@, formats@.len() as int),
{
    let mut attributes: Vec<VertexAttribute> = Vec::new();
    let mut offset: u64 = 0;
    let mut location: u32 = 0;
    let mut i: usize = 0;
    while i < formats.len()
        invariant
            formats@.len() <= u32::MAX,
            i <= formats@.len(),
            location == i,
            offset == packed_offset(formats@, i as int),
            offset <= 16 * i,
            attributes@.len() == i,
            forall|k: int|
                0 <= k < i ==> {
                    &&& (#[trigger] attributes@[k]).format == formats@[k]
                    &&& attributes@[k].shader_location == k
                    &&& attributes@[k].offset == packed_offset(formats@, k)
                },
        decreases formats@.len() - i,
    {
        let format = formats[i];
        attributes.push(VertexAttribute { format, offset, shader_location: location });
        offset = offset + format.size();
        location = location + 1;
        i = i + 1;
    }
    (attributes, offset)
}

/// The quad's corners, in the order the indices refer to them.
pub fn vertices() -> (vertices: Vec<Vertex>)
    ensures
        vertices@.len() == 4,
        vertices@.map_values(|v: Vertex| v.record()) == quad_vertices(),
{
    let vertices = vec![
        Vertex { position: [-1, -1, 0], tex_coords: [0, 0] },
        Vertex { position: [1, -1, 0], tex_coords: [1, 0] },
        Vertex { position: [1, 1, 0], tex_coords: [1, 1] },
        Vertex { position: [-1, 1, 0], tex_coords: [0, 1] },
    ];
    assert(vertices@.map_values(|v: Vertex| v.record()) =~= quad_vertices());
    vertices
}

/// The quad's index list: two triangles that share the diagonal from corner
/// 0 to corner 2.
pub fn indices() -> (indices: Vec<u16>)
    ensures
        indices@ == quad_indices(),
{
    let indices = vec![2u16, 3u16, 0u16, 1u16, 2u16, 0u16];
    assert(indices@ =~= quad_indices());
    indices
}

/// The number of indices one draw of the quad covers.
pub fn num_indices() -> (count: u32)
    ensures
        count == quad_indices().len(),
{
    6
}

/// Any table of vertices with the quad's records, drawn with the quad's
/// indices, is a mesh of front-facing triangles: nothing of it is culled and
/// no index points outside the table.
pub proof fn lemma_quad_is_front_facing(vertices: Seq<Vertex>)
    requires
        vertices.map_values(|v: Vertex| v.record()) == quad_vertices(),
    ensures
        is_front_facing_mesh(vertices, quad_indices()),
{
    let records = vertices.map_values(|v: Vertex| v.record());
    assert(vertices.len() == records.len());
    assert(records[0] == vertices[0].record());
    assert(records[1] == vertices[1].record());
    assert(records[2] == vertices[2].record());
    assert(records[3] == vertices[3].record());
    let indices = quad_indices();
    assert forall|t: int| 0 <= t < indices.len() / 3 implies #[trigger] doubled_area(
        vertices[indices[3 * t] as int],
        vertices[indices[3 * t + 1] as int],
        vertices[indices[3 * t + 2] as int],
    ) > 0 by {
        assert(vertices[0].x() == -1 && vertices[0].y() == -1);
        assert(vertices[1].x() == 1 && vertices[1].y() == -1);
        assert(vertices[2].x() == 1 && vertices[2].y() == 1);
        assert(vertices[3].x() == -1 && vertices[3].y() == 1);
        if t == 0 {
            assert(doubled_area(vertices[2], vertices[3], vertices[0]) == 4);
        } else {
            assert(t == 1);
            assert(doubled_area(vertices[1], vertices[2], vertices[0]) == 4);
        }
    }
}

} // verus!
