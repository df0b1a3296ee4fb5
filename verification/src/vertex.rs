//! The vertex layout shared by every drawable.

use vstd::prelude::*;

verus! {

/// Bit pattern of the single-precision value `0.0`.
pub const ZERO: u32 = 0;

/// Bit pattern of the single-precision value `1.0`.
pub const ONE: u32 = 0x3F80_0000;

/// One vertex as the GPU reads it. Every component is a single-precision
/// value stored as its bit pattern.
#[derive(Clone, Copy, Debug, PartialEq, Eq)]
pub struct Vertex {
    pub position: [u32; 3],
    pub normal: [u32; 3],
    pub tex_coords: [u32; 2],
    pub color: [u32; 3],
}

/// The format of one vertex attribute.
#[derive(Clone, Copy, Debug, PartialEq, Eq, Structural)]
pub enum VertexFormat {
    /// Two single-precision components.
    Float32x2,
    /// Three single-precision components.
    Float32x3,
}

impl VertexFormat {
    /// Size of an attribute of this format, in bytes.
    pub open spec fn spec_size(self) -> int {
        match self {
            VertexFormat::Float32x2 => 8,
            VertexFormat::Float32x3 => 12,
        }
    }

    /// Size of an attribute of this format, in bytes.
    pub fn size(self) -> (n: u64)
        ensures
            n == self.spec_size(),
    {
        match self {
            VertexFormat::Float32x2 => 8,
            VertexFormat::Float32x3 => 12,
        }
    }
}

/// Where one attribute of a vertex lies and which shader input it feeds.
#[derive(Clone, Copy, Debug, PartialEq, Eq, Structural)]
pub struct VertexAttribute {
    pub format: VertexFormat,
    pub offset: u64,
    pub shader_location: u32,
}

/// How often the vertex buffer steps on to its next element.
#[derive(Clone, Copy, Debug, PartialEq, Eq, Structural)]
pub enum VertexStepMode {
    /// Once for each vertex.
    Vertex,
}

/// How a vertex buffer is cut into vertices and attributes.
#[derive(Clone, Debug, PartialEq, Eq)]
pub struct VertexBufferLayout {
    pub array_stride: u64,
    pub step_mode: VertexStepMode,
    pub attributes: Vec<VertexAttribute>,
}

/// The formats of the four attributes of a [`Vertex`], in field order:
/// position, normal, texture coordinate, color.
pub open spec fn vertex_formats() -> Seq<VertexFormat> {
    seq![
        VertexFormat::Float32x3,
        VertexFormat::Float32x3,
        VertexFormat::Float32x2,
        VertexFormat::Float32x3,
    ]
}

/// Sum of the sizes of the first `n` formats of `formats`.
pub open spec fn packed_offset(formats: Seq<VertexFormat>, n: int) -> int
    decreases n,
{
    if n <= 0 {
        0
    } else {
        packed_offset(formats, n - 1) + formats[n - 1].spec_size()
    }
}

/// The attributes of `formats` packed one after the other from offset 0,
/// the `i`-th feeding shader location `i`.
pub open spec fn packed_attributes(formats: Seq<VertexFormat>) -> Seq<VertexAttribute> {
    Seq::new(
        formats.len(),
        |i: int|
            VertexAttribute {
                format: formats[i],
                offset: packed_offset(formats, i) as u64,
                shader_location: i as u32,
            },
    )
}

impl Vertex {
    /// Size of one vertex in bytes.
    pub open spec fn spec_stride() -> int {
        packed_offset(vertex_formats(), 4)
    }

    /// The buffer layout of a vertex: the four attributes packed in field
    /// order, with the stride equal to their total size.
    pub fn desc() -> (layout: VertexBufferLayout)
        ensures
            layout.attributes@ == packed_attributes(vertex_formats()),
            layout.array_stride == Vertex::spec_stride(),
            layout.array_stride == 44,
            layout.step_mode == VertexStepMode::Vertex,
            layout.attributes@.len() == 4,
            layout.attributes@[0].offset == 0,
            layout.attributes@[1].offset == 12,
            layout.attributes@[2].offset == 24,
            layout.attributes@[3].offset == 32,
    {
        let formats = [
            VertexFormat::Float32x3,
            VertexFormat::Float32x3,
            VertexFormat::Float32x2,
            VertexFormat::Float32x3,
        ];
        assert(formats@ =~= vertex_formats());
        let mut attributes: Vec<VertexAttribute> = Vec::new();
        let mut offset: u64 = 0;
        let mut i: usize = 0;
        proof {
            reveal_with_fuel(packed_offset, 5);
        }
        while i < 4
            invariant
                i <= 4,
                formats@ == vertex_formats(),
                offset == packed_offset(vertex_formats(), i as int),
                offset <= 12 * i,
                attributes@ == packed_attributes(vertex_formats()).take(i as int),
            decreases 4 - i,
        {
            let format = formats[i];
            attributes.push(VertexAttribute { format, offset, shader_location: i as u32 });
            assert(attributes@ =~= packed_attributes(vertex_formats()).take(i + 1));
            offset = offset + format.size();
            i = i + 1;
        }
        assert(attributes@ =~= packed_attributes(vertex_formats()));
        VertexBufferLayout { array_stride: offset, step_mode: VertexStepMode::Vertex, attributes }
    }
}

/// The number of 32-bit words of one vertex.
pub const VERTEX_WORDS: usize = 11;

/// Word `j` of a vertex as it lies in a vertex buffer: the position, the
/// normal, the texture coordinate and the color, in that order.
pub open spec fn vertex_word(vertex: Vertex, j: int) -> u32 {
    if j < 3 {
        vertex.position[j]
    } else if j < 6 {
        vertex.normal[j - 3]
    } else if j < 8 {
        vertex.tex_coords[j - 6]
    } else {
        vertex.color[j - 8]
    }
}

/// The words of a list of vertices as they lie in a vertex buffer, one
/// vertex after the other.
pub open spec fn buffer_words(vertices: Seq<Vertex>) -> Seq<u32> {
    Seq::new(
        (VERTEX_WORDS * vertices.len()) as nat,
        |k: int| vertex_word(vertices[k / (VERTEX_WORDS as int)], k % (VERTEX_WORDS as int)),
    )
}

/// The contents of the vertex buffer of a list of vertices, word by
/// word. The words of a vertex lie where [`Vertex::desc`] says: a word is
/// four bytes, so word `j` lies at byte `4 * j` of its vertex.
pub fn vertex_words(vertices: &Vec<Vertex>) -> (words: Vec<u32>)
    ensures
        words@ == buffer_words(vertices@),
        words@.len() == VERTEX_WORDS * vertices@.len(),
{
    let mut words: Vec<u32> = Vec::new();
    let mut i: usize = 0;
    while i < vertices.len()
        invariant
            i <= vertices@.len(),
            words@.len() == VERTEX_WORDS * i,
            forall|k: int|
                0 <= k < words@.len() ==> (#[trigger] words@[k]) == vertex_word(
                    vertices@[k / (VERTEX_WORDS as int)],
                    k % (VERTEX_WORDS as int),
                ),
        decreases vertices@.len() - i,
    {
        let vertex = vertices[i];
        let ghost before = words@;
        words.push(vertex.position[0]);
        words.push(vertex.position[1]);
        words.push(vertex.position[2]);
        words.push(vertex.normal[0]);
        words.push(vertex.normal[1]);
        words.push(vertex.normal[2]);
        words.push(vertex.tex_coords[0]);
        words.push(vertex.tex_coords[1]);
        words.push(vertex.color[0]);
        words.push(vertex.color[1]);
        words.push(vertex.color[2]);
        proof {
            assert forall|k: int| 0 <= k < words@.len() implies (#[trigger] words@[k])
                == vertex_word(vertices@[k / 11], k % 11) by {
                if k < 11 * i {
                    assert(words@[k] == before[k]);
                } else {
                    let j = k - 11 * i;
                    assert(0 <= j < 11);
                    assert(k / 11 == i && k % 11 == j) by {
                        vstd::arithmetic::div_mod::lemma_fundamental_div_mod_converse(
                            k,
                            11,
                            i as int,
                            j,
                        );
                    }
                }
            }
        }
        i = i + 1;
    }
    assert(words@ =~= buffer_words(vertices@));
    words
}

} // verus!
