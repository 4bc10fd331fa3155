//! The layout of the vertex buffers: which attributes a buffer holds, at
//! which offsets, and for which shader locations.

use vstd::prelude::*;
use crate::pipeline::VertexInput;

verus! {

/// The formats of the vertex attributes that the renderer uses: two, three
/// or four 32-bit floating point components.
#[derive(Clone, Copy, Debug, PartialEq, Eq, Structural)]
pub enum VertexFormat {
    Float32x2,
    Float32x3,
    Float32x4,
}

impl VertexFormat {
    /// The size of an attribute of this format, in bytes.
    pub open spec fn spec_size(self) -> u64 {
        match self {
            VertexFormat::Float32x2 => 8,
            VertexFormat::Float32x3 => 12,
            VertexFormat::Float32x4 => 16,
        }
    }

    /// The size of an attribute of this format, in bytes.
    pub fn size(self) -> (n: u64)
        ensures
            n == self.spec_size(),
    {
        match self {
            VertexFormat::Float32x2 => 8,
            VertexFormat::Float32x3 => 12,
            VertexFormat::Float32x4 => 16,
        }
    }
}

/// Whether a buffer advances per vertex or per instance.
#[derive(Clone, Copy, Debug, PartialEq, Eq, Structural)]
pub enum VertexStepMode {
    Vertex,
    Instance,
}

/// One attribute of a vertex buffer.
#[derive(Clone, Copy, Debug, PartialEq, Eq, Structural)]
pub struct VertexAttribute {
    pub format: VertexFormat,
    /// Offset of the attribute from the start of an element, in bytes.
    pub offset: u64,
    pub shader_location: u32,
}

/// The layout of one vertex buffer.
#[derive(Clone, Debug, PartialEq, Eq)]
pub struct VertexBufferLayout {
    /// Size of one element, in bytes.
    pub array_stride: u64,
    pub step_mode: VertexStepMode,
    pub attributes: Vec<VertexAttribute>,
}

/// The most attributes that `pack` lays out in one buffer.
pub const MAX_ATTRIBUTES: usize = 0x1000_0000;

/// The summed sizes of the first `count` formats: the offset at which the
/// attribute at place `count` starts when the attributes are packed without
/// gaps.
pub open spec fn packed_offset(formats: Seq<VertexFormat>, count: int) -> int
    decreases count,
{
    if count <= 0 {
        0
    } else {
        packed_offset(formats, count - 1) + formats[count - 1].spec_size()
    }
}

/// The attribute at place `i` of a buffer that packs `formats` without gaps
/// and numbers the shader locations from `first_location`.
pub open spec fn packed_attribute(formats: Seq<VertexFormat>, first_location: u32, i: int)
    -> VertexAttribute {
    VertexAttribute {
        format: formats[i],
        offset: packed_offset(formats, i) as u64,
        shader_location: (first_location + i) as u32,
    }
}

impl VertexBufferLayout {
    /// Whether the buffer packs `formats` in their order without gaps, with
    /// consecutive shader locations from `first_location`, and an element
    /// is exactly as large as its attributes together.
    pub open spec fn packs(&self, formats: Seq<VertexFormat>, first_location: u32) -> bool {
        &&& self.attributes@ == Seq::new(
            formats.len(),
            |i: int| packed_attribute(formats, first_location, i),
        )
        &&& self.array_stride == packed_offset(formats, formats.len() as int)
    }

    /// Whether every attribute lies inside an element and no two attributes
    /// share a byte or a shader location.
    pub open spec fn wf(&self) -> bool {
        let a = self.attributes@;
        &&& forall|i: int|
            0 <= i < a.len() ==> (#[trigger] a[i]).offset + a[i].format.spec_size()
                <= self.array_stride
        &&& forall|i: int, j: int|
            0 <= i < j < a.len() ==> (#[trigger] a[i]).offset + a[i].format.spec_size() <= (
            #[trigger] a[j]).offset
        &&& forall|i: int, j: int|
            0 <= i < j < a.len() ==> (#[trigger] a[i]).shader_location != (
            #[trigger] a[j]).shader_location
    }
}

/// Offsets grow with the place, by at least the size of what lies between,
/// and no format is larger than 16 bytes.
pub proof fn lemma_packed_offsets(formats: Seq<VertexFormat>, i: int, j: int)
    requires
        0 <= i <= j <= formats.len(),
    ensures
        0 <= packed_offset(formats, i) <= packed_offset(formats, j) <= 16 * j,
        i < j ==> packed_offset(formats, i) + formats[i].spec_size() <= packed_offset(formats, j),
    decreases j - i,
{
    lemma_offset_bound(formats, i);
    if i < j {
        lemma_packed_offsets(formats, i, j - 1);
        lemma_offset_bound(formats, j);
    }
}

proof fn lemma_offset_bound(formats: Seq<VertexFormat>, i: int)
    requires
        0 <= i <= formats.len(),
    ensures
        0 <= packed_offset(formats, i) <= 16 * i,
    decreases i,
{
    if i > 0 {
        lemma_offset_bound(formats, i - 1);
    }
}

/// A buffer that packs its attributes is well formed: the attributes lie
/// inside an element, one after the other, each at its own location.
pub proof fn lemma_packed_is_well_formed(
    layout: VertexBufferLayout,
    formats: Seq<VertexFormat>,
    first_location: u32,
)
    requires
        layout.packs(formats, first_location),
        formats.len() <= MAX_ATTRIBUTES,
        first_location + formats.len() <= u32::MAX,
    ensures
        layout.wf(),
{
    let a = layout.attributes@;
    let n = formats.len() as int;
    assert forall|i: int| 0 <= i < a.len() implies (#[trigger] a[i]).offset
        + a[i].format.spec_size() <= layout.array_stride by {
        lemma_packed_offsets(formats, i, n);
    }
    assert forall|i: int, j: int| 0 <= i < j < a.len() implies (#[trigger] a[i]).offset
        + a[i].format.spec_size() <= (#[trigger] a[j]).offset by {
        lemma_packed_offsets(formats, i, j);
        lemma_packed_offsets(formats, j, n);
    }
    assert forall|i: int, j: int| 0 <= i < j < a.len() implies (
    #[trigger] a[i]).shader_location != (#[trigger] a[j]).shader_location by {
        assert(a[i].shader_location == first_location + i);
        assert(a[j].shader_location == first_location + j);
    }
}

/// Lays out a vertex buffer that holds attributes of the given formats in
/// their order without gaps, for consecutive shader locations from
/// `first_location`. There is no layout if the attributes are more than
/// `MAX_ATTRIBUTES` or the shader locations run out.
pub fn pack(formats: &Vec<VertexFormat>, step_mode: VertexStepMode, first_location: u32) -> (layout:
    Option<VertexBufferLayout>)
    ensures
        layout is Some <==> formats@.len() <= MAX_ATTRIBUTES && first_location + formats@.len()
            <= u32::MAX,
        layout matches Some(l) ==> {
            &&& l.step_mode == step_mode
            &&& l.packs(formats@, first_location)
            &&& l.wf()
        },
{
    if formats.len() > MAX_ATTRIBUTES || formats.len() > (u32::MAX - first_location) as usize {
        return None;
    }
    let mut attributes: Vec<VertexAttribute> = Vec::new();
    let mut offset: u64 = 0;
    let mut i: usize = 0;
    while i < formats.len()
        invariant
            i <= formats.len(),
            formats.len() <= MAX_ATTRIBUTES,
            first_location + formats.len() <= u32::MAX,
            offset == packed_offset(formats@, i as int),
            attributes@.len() == i,
            forall|k: int|
                0 <= k < i ==> #[trigger] attributes@[k] == packed_attribute(
                    formats@,
                    first_location,
                    k,
                ),
        decreases formats.len() - i,
    {
        proof {
            lemma_packed_offsets(formats@, i as int, i as int + 1);
        }
        let format = formats[i];
        attributes.push(
            VertexAttribute { format, offset, shader_location: first_location + i as u32 },
        );
        offset = offset + format.size();
        i += 1;
    }
    let layout = VertexBufferLayout { array_stride: offset, step_mode, attributes };
    proof {
        assert(layout.attributes@ =~= Seq::new(
            formats@.len(),
            |k: int| packed_attribute(formats@, first_location, k),
        ));
        lemma_packed_is_well_formed(layout, formats@, first_location);
    }
    Some(layout)
}

/// The formats of a vertex of a mesh: position, texture coordinate, normal.
pub open spec fn mesh_vertex_formats() -> Seq<VertexFormat> {
    seq![VertexFormat::Float32x3, VertexFormat::Float32x2, VertexFormat::Float32x3]
}

/// The formats of an instance: the four columns of its transform.
pub open spec fn instance_formats() -> Seq<VertexFormat> {
    seq![
        VertexFormat::Float32x4,
        VertexFormat::Float32x4,
        VertexFormat::Float32x4,
        VertexFormat::Float32x4,
    ]
}

/// The first shader location of the attributes of a mesh vertex.
pub const MESH_VERTEX_LOCATION: u32 = 0;

/// The first shader location of the attributes of an instance.
pub const INSTANCE_LOCATION: u32 = 5;

/// The layout of the vertex buffer of a mesh: position at offset 0, texture
/// coordinate at 12, normal at 20, in elements of 32 bytes, for the shader
/// locations 0 to 2.
pub fn mesh_vertex_layout() -> (layout: VertexBufferLayout)
    ensures
        layout.step_mode == VertexStepMode::Vertex,
        layout.packs(mesh_vertex_formats(), MESH_VERTEX_LOCATION),
        layout.wf(),
        layout.array_stride == 32,
        layout.attributes@ == seq![
            VertexAttribute { format: VertexFormat::Float32x3, offset: 0, shader_location: 0 },
            VertexAttribute { format: VertexFormat::Float32x2, offset: 12, shader_location: 1 },
            VertexAttribute { format: VertexFormat::Float32x3, offset: 20, shader_location: 2 },
        ],
{
    let mut formats: Vec<VertexFormat> = Vec::new();
    formats.push(VertexFormat::Float32x3);
    formats.push(VertexFormat::Float32x2);
    formats.push(VertexFormat::Float32x3);
    assert(formats@ =~= mesh_vertex_formats());
    let layout = pack(&formats, VertexStepMode::Vertex, MESH_VERTEX_LOCATION).unwrap();
    proof {
        reveal_with_fuel(packed_offset, 4);
    }
    layout
}

/// The layout of the instance buffer: the columns of the transform at the
/// offsets 0, 16, 32 and 48, in elements of 64 bytes, for the shader
/// locations 5 to 8.
pub fn instance_layout() -> (layout: VertexBufferLayout)
    ensures
        layout.step_mode == VertexStepMode::Instance,
        layout.packs(instance_formats(), INSTANCE_LOCATION),
        layout.wf(),
        layout.array_stride == 64,
        layout.attributes@ == seq![
            VertexAttribute { format: VertexFormat::Float32x4, offset: 0, shader_location: 5 },
            VertexAttribute { format: VertexFormat::Float32x4, offset: 16, shader_location: 6 },
            VertexAttribute { format: VertexFormat::Float32x4, offset: 32, shader_location: 7 },
            VertexAttribute { format: VertexFormat::Float32x4, offset: 48, shader_location: 8 },
        ],
{
    let mut formats: Vec<VertexFormat> = Vec::new();
    formats.push(VertexFormat::Float32x4);
    formats.push(VertexFormat::Float32x4);
    formats.push(VertexFormat::Float32x4);
    formats.push(VertexFormat::Float32x4);
    assert(formats@ =~= instance_formats());
    let layout = pack(&formats, VertexStepMode::Instance, INSTANCE_LOCATION).unwrap();
    proof {
        reveal_with_fuel(packed_offset, 5);
    }
    layout
}

/// The layouts of the vertex buffers that a pipeline reads, by slot: the
/// mesh passes read the vertices in slot 0 and the instances in slot 1, the
/// fullscreen passes read none.
pub fn vertex_buffers(input: VertexInput) -> (layouts: Vec<VertexBufferLayout>)
    ensures
        input == VertexInput::Fullscreen ==> layouts@.len() == 0,
        input == VertexInput::MeshInstanced ==> {
            &&& layouts@.len() == 2
            &&& layouts@[0].step_mode == VertexStepMode::Vertex
            &&& layouts@[0].packs(mesh_vertex_formats(), MESH_VERTEX_LOCATION)
            &&& layouts@[1].step_mode == VertexStepMode::Instance
            &&& layouts@[1].packs(instance_formats(), INSTANCE_LOCATION)
        },
        forall|i: int| 0 <= i < layouts@.len() ==> (#[trigger] layouts@[i]).wf(),
{
    let mut layouts: Vec<VertexBufferLayout> = Vec::new();
    match input {
        VertexInput::MeshInstanced => {
            layouts.push(mesh_vertex_layout());
            layouts.push(instance_layout());
        },
        VertexInput::Fullscreen => {},
    }
    layouts
}

/// No attribute of a mesh vertex shares its shader location with an
/// attribute of an instance.
pub proof fn lemma_mesh_and_instance_locations_differ(
    mesh: VertexBufferLayout,
    instance: VertexBufferLayout,
    i: int,
    j: int,
)
    requires
        mesh.packs(mesh_vertex_formats(), MESH_VERTEX_LOCATION),
        instance.packs(instance_formats(), INSTANCE_LOCATION),
        0 <= i < mesh.attributes@.len(),
        0 <= j < instance.attributes@.len(),
    ensures
        mesh.attributes@[i].shader_location != instance.attributes@[j].shader_location,
{
}

} // verus!
