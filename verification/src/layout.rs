//! The packed vertex buffer and the attribute layout that reads it back.

use crate::mesh::{Vertex, VERTEX_COMPONENTS};
use crate::ratio::Ratio;
use vstd::prelude::*;

verus! {

/// The bytes that one packed component occupies: a single-precision number.
pub const COMPONENT_BYTES: usize = 4;

/// The bytes that one packed vertex occupies.
pub const VERTEX_BYTES: usize = 32;

/// The bytes that one index occupies: an unsigned 32-bit integer.
pub const INDEX_BYTES: usize = 4;

/// The number of vertex attributes.
pub const ATTRIBUTES: usize = 3;

/// One vertex attribute: which slot of the vertex stage it feeds, how many
/// components it has, and where they lie in the packed buffer.
#[derive(Clone, Copy, Debug, PartialEq, Eq, Structural)]
pub struct Attribute {
    /// The input slot of the vertex stage.
    pub slot: u32,
    /// The number of components read for each vertex.
    pub components: i32,
    /// The distance in bytes from one vertex to the next.
    pub stride: i32,
    /// The distance in bytes from the start of a vertex to the first component.
    pub offset: usize,
}

/// The three attributes: position, colour and texture coordinate.
pub open spec fn attribute_table() -> Seq<Attribute> {
    seq![
        Attribute { slot: 0, components: 3, stride: 32, offset: 0 },
        Attribute { slot: 1, components: 3, stride: 32, offset: 12 },
        Attribute { slot: 2, components: 2, stride: 32, offset: 24 },
    ]
}

/// What a vertex holds for the attribute in `slot`.
pub open spec fn attribute_of(vertex: Vertex, slot: int) -> Seq<Ratio> {
    if slot == 0 {
        vertex.position()
    } else if slot == 1 {
        vertex.color()
    } else {
        vertex.tex_coord()
    }
}

/// The components of all vertices, one vertex after the other.
pub open spec fn packed(vertices: Seq<Vertex>) -> Seq<Ratio> {
    Seq::new(vertices.len() * 8, |i: int| vertices[i / 8].components()[i % 8])
}

/// The place in the packed buffer of the first component that `attribute`
/// reads for the vertex numbered `vertex`.
pub open spec fn first_component(attribute: Attribute, vertex: int) -> int {
    (vertex * attribute.stride + attribute.offset) / (COMPONENT_BYTES as int)
}

/// Whether reading `attribute` for the vertex numbered `vertex` stays on
/// component boundaries and inside a buffer of `len` components.
pub open spec fn readable(len: int, attribute: Attribute, vertex: int) -> bool {
    &&& attribute.stride >= 0
    &&& attribute.components >= 0
    &&& (vertex * attribute.stride + attribute.offset) % (COMPONENT_BYTES as int) == 0
    &&& first_component(attribute, vertex) + attribute.components <= len
}

/// The components that `attribute` reads for the vertex numbered `vertex`.
pub open spec fn fetched(buffer: Seq<Ratio>, attribute: Attribute, vertex: int) -> Seq<Ratio> {
    buffer.subrange(
        first_component(attribute, vertex),
        first_component(attribute, vertex) + attribute.components,
    )
}

/// The three attributes of the packed vertex: position in slot 0, colour in
/// slot 1 and texture coordinate in slot 2.
pub fn vertex_attributes() -> (table: Vec<Attribute>)
    ensures
        table@ == attribute_table(),
{
    let mut table: Vec<Attribute> = Vec::new();
    table.push(Attribute { slot: 0, components: 3, stride: 32, offset: 0 });
    table.push(Attribute { slot: 1, components: 3, stride: 32, offset: 12 });
    table.push(Attribute { slot: 2, components: 2, stride: 32, offset: 24 });
    assert(table@ =~= attribute_table());
    table
}

/// Packs the vertices into one buffer, eight components for each.
pub fn pack_vertices(vertices: &Vec<Vertex>) -> (buffer: Vec<Ratio>)
    ensures
        buffer@ == packed(vertices@),
{
    let mut buffer: Vec<Ratio> = Vec::new();
    let mut i: usize = 0;
    while i < vertices.len()
        invariant
            i <= vertices.len(),
            buffer@ == packed(vertices@.take(i as int)),
        decreases vertices.len() - i,
    {
        let ghost before = buffer@;
        let mut k: usize = 0;
        while k < VERTEX_COMPONENTS
            invariant
                i < vertices.len(),
                k <= 8,
                buffer@ == before + vertices@[i as int].components().take(k as int),
            decreases 8 - k,
        {
            buffer.push(vertices[i].component(k).unwrap());
            assert(buffer@ =~= before + vertices@[i as int].components().take(k + 1));
            k += 1;
        }
        assert(buffer@ =~= packed(vertices@.take(i + 1)));
        i += 1;
    }
    assert(vertices@.take(i as int) =~= vertices@);
    buffer
}

/// Reads from a packed buffer what `attribute` holds for the vertex numbered
/// `vertex`, or nothing where the read would leave the buffer or would not
/// start on a component boundary.
pub fn fetch(buffer: &Vec<Ratio>, attribute: &Attribute, vertex: usize) -> (read: Option<
    Vec<Ratio>,
>)
    ensures
        read.is_some() == readable(buffer@.len() as int, *attribute, vertex as int),
        read.is_some() ==> read.unwrap()@ == fetched(buffer@, *attribute, vertex as int),
{
    if attribute.stride < 0 || attribute.components < 0 {
        return None;
    }
    let len: u128 = buffer.len() as u128;
    assert(vertex * attribute.stride <= 0xffff_ffff_ffff_ffff * 0x7fff_ffff) by (nonlinear_arith)
        requires
            0 <= vertex <= 0xffff_ffff_ffff_ffff,
            0 <= attribute.stride <= 0x7fff_ffff,
    ;
    let byte: u128 = vertex as u128 * attribute.stride as u128 + attribute.offset as u128;
    if byte % 4 != 0 {
        return None;
    }
    let first: u128 = byte / 4;
    if first + attribute.components as u128 > len {
        return None;
    }
    let start: usize = first as usize;
    let count: usize = attribute.components as usize;
    let mut read: Vec<Ratio> = Vec::new();
    let mut k: usize = 0;
    while k < count
        invariant
            k <= count,
            start + count <= buffer.len(),
            read@ == buffer@.subrange(start as int, start + k),
        decreases count - k,
    {
        read.push(buffer[start + k]);
        assert(read@ =~= buffer@.subrange(start as int, start + k + 1));
        k += 1;
    }
    Some(read)
}

/// The size in bytes of a vertex buffer that holds `count` packed vertices.
pub fn vertex_buffer_bytes(count: usize) -> (bytes: isize)
    requires
        count * VERTEX_BYTES <= isize::MAX,
    ensures
        bytes == count * VERTEX_BYTES,
{
    (count * VERTEX_BYTES) as isize
}

/// The size in bytes of an index buffer that holds `count` indices.
pub fn index_buffer_bytes(count: usize) -> (bytes: isize)
    requires
        count * INDEX_BYTES <= isize::MAX,
    ensures
        bytes == count * INDEX_BYTES,
{
    (count * INDEX_BYTES) as isize
}

/// The attribute layout reads back what was packed.
///
/// For every sequence of vertices, every vertex in it and each of the three
/// attributes, the read stays inside the packed buffer, starts on a component
/// boundary, and yields the position, the colour or the texture coordinate of
/// that vertex: the three components at byte 0, the three at byte 12 and the
/// two at byte 24 of its 32 bytes.
pub proof fn lemma_attributes_read_back(vertices: Seq<Vertex>, slot: int, vertex: int)
    requires
        0 <= slot < 3,
        0 <= vertex < vertices.len(),
    ensures
        attribute_table()[slot].slot == slot,
        readable(packed(vertices).len() as int, attribute_table()[slot], vertex),
        fetched(packed(vertices), attribute_table()[slot], vertex) == attribute_of(
            vertices[vertex],
            slot,
        ),
{
    let attribute = attribute_table()[slot];
    let first = first_component(attribute, vertex);
    assert(attribute.stride == 32 && attribute.offset == 12 * slot);
    assert(first == vertex * 8 + 3 * slot);
    let read = fetched(packed(vertices), attribute, vertex);
    let held = attribute_of(vertices[vertex], slot);
    assert(read.len() == held.len());
    assert forall|j: int| 0 <= j < read.len() implies read[j] == held[j] by {
        assert((first + j) / 8 == vertex);
        assert((first + j) % 8 == 3 * slot + j);
    }
    assert(read =~= held);
}

/// The three attributes together make up the whole vertex, in packed order.
pub proof fn lemma_attributes_cover_vertex(vertex: Vertex)
    ensures
        attribute_of(vertex, 0) + attribute_of(vertex, 1) + attribute_of(vertex, 2)
            == vertex.components(),
        attribute_table()[0].components + attribute_table()[1].components
            + attribute_table()[2].components == VERTEX_COMPONENTS,
        attribute_table().len() == ATTRIBUTES,
        forall|slot: int|
            0 <= slot < attribute_table().len() ==> (#[trigger] attribute_table()[slot]).stride
                == VERTEX_BYTES,
        VERTEX_BYTES == VERTEX_COMPONENTS * COMPONENT_BYTES,
{
    assert(attribute_of(vertex, 0) + attribute_of(vertex, 1) + attribute_of(vertex, 2)
        =~= vertex.components());
}

} // verus!
