//! GPU-ready byte encodings of the quad's buffers.
//!
//! Vertices are uploaded tightly packed, each component a 32-bit IEEE 754
//! single in little-endian order; indices are 16-bit little-endian. Every
//! coordinate the quad uses is -1, 0 or 1, so the encoder only needs the
//! bit patterns of those three singles.

use vstd::prelude::*;
use crate::geometry::QuadVertex;

verus! {

/// The IEEE 754 single-precision bit pattern of the value v, for the
/// three values the quad's geometry uses: -1.0 is sign bit plus the
/// exponent of one (0xBF80_0000), 1.0 is that exponent alone
/// (0x3F80_0000), and 0.0 is all zeros.
pub open spec fn unit_f32_bits(v: int) -> u32 {
    if v == -1 {
        0xBF80_0000u32
    } else if v == 1 {
        0x3F80_0000u32
    } else {
        0u32
    }
}

/// The four bytes of x, least significant first.
pub open spec fn le_bytes_32(x: u32) -> Seq<u8> {
    seq![
        (x & 0xFF) as u8,
        ((x >> 8) & 0xFF) as u8,
        ((x >> 16) & 0xFF) as u8,
        ((x >> 24) & 0xFF) as u8,
    ]
}

/// The two bytes of x, least significant first.
pub open spec fn le_bytes_16(x: u16) -> Seq<u8> {
    seq![(x & 0xFF) as u8, ((x >> 8) & 0xFF) as u8]
}

/// The 16-byte packed form of one vertex: position x, position y,
/// texture u, texture v, each as a little-endian single.
pub open spec fn vertex_bytes(v: QuadVertex) -> Seq<u8> {
    le_bytes_32(unit_f32_bits(v.x as int)) + le_bytes_32(unit_f32_bits(v.y as int)) + le_bytes_32(
        unit_f32_bits(v.u as int),
    ) + le_bytes_32(unit_f32_bits(v.v as int))
}

/// The packed form of a whole vertex list, in order.
pub open spec fn vertex_list_bytes(vs: Seq<QuadVertex>) -> Seq<u8>
    decreases vs.len(),
{
    if vs.len() == 0 {
        Seq::empty()
    } else {
        vertex_list_bytes(vs.drop_last()) + vertex_bytes(vs.last())
    }
}

/// The packed form of an index list: each index as a little-endian u16.
pub open spec fn index_list_bytes(ids: Seq<u16>) -> Seq<u8>
    decreases ids.len(),
{
    if ids.len() == 0 {
        Seq::empty()
    } else {
        index_list_bytes(ids.drop_last()) + le_bytes_16(ids.last())
    }
}

/// A packed vertex list takes 16 bytes per vertex.
pub proof fn lemma_vertex_list_bytes_len(vs: Seq<QuadVertex>)
    ensures
        vertex_list_bytes(vs).len() == 16 * vs.len(),
    decreases vs.len(),
{
    if vs.len() > 0 {
        lemma_vertex_list_bytes_len(vs.drop_last());
    }
}

/// A packed index list takes 2 bytes per index.
pub proof fn lemma_index_list_bytes_len(ids: Seq<u16>)
    ensures
        index_list_bytes(ids).len() == 2 * ids.len(),
    decreases ids.len(),
{
    if ids.len() > 0 {
        lemma_index_list_bytes_len(ids.drop_last());
    }
}

/// The bit pattern of one unit-range component, as `unit_f32_bits` gives
/// it.
pub fn pack_unit_f32(v: i32) -> (r: u32)
    requires
        -1 <= v <= 1,
    ensures
        r == unit_f32_bits(v as int),
{
    if v == -1 {
        0xBF80_0000
    } else if v == 1 {
        0x3F80_0000
    } else {
        0
    }
}

/// Appends the four little-endian bytes of x.
pub fn push_u32_le(out: &mut Vec<u8>, x: u32)
    ensures
        final(out)@ == old(out)@ + le_bytes_32(x),
{
    out.push((x & 0xFF) as u8);
    out.push(((x >> 8) & 0xFF) as u8);
    out.push(((x >> 16) & 0xFF) as u8);
    out.push(((x >> 24) & 0xFF) as u8);
    proof {
        assert(out@ =~= old(out)@ + le_bytes_32(x));
    }
}

/// Appends the two little-endian bytes of x.
pub fn push_u16_le(out: &mut Vec<u8>, x: u16)
    ensures
        final(out)@ == old(out)@ + le_bytes_16(x),
{
    out.push((x & 0xFF) as u8);
    out.push(((x >> 8) & 0xFF) as u8);
    proof {
        assert(out@ =~= old(out)@ + le_bytes_16(x));
    }
}

/// Appends the 16-byte packed form of one vertex.
pub fn push_vertex(out: &mut Vec<u8>, v: &QuadVertex)
    requires
        -1 <= v.x <= 1,
        -1 <= v.y <= 1,
        -1 <= v.u <= 1,
        -1 <= v.v <= 1,
    ensures
        final(out)@ == old(out)@ + vertex_bytes(*v),
{
    let x = pack_unit_f32(v.x);
    let y = pack_unit_f32(v.y);
    let u = pack_unit_f32(v.u);
    let w = pack_unit_f32(v.v);
    push_u32_le(out, x);
    push_u32_le(out, y);
    push_u32_le(out, u);
    push_u32_le(out, w);
    proof {
        assert(out@ =~= old(out)@ + vertex_bytes(*v));
    }
}

/// Packs a vertex list into the byte layout the vertex buffer holds.
pub fn pack_vertices(vs: &Vec<QuadVertex>) -> (r: Vec<u8>)
    requires
        forall|i: int|
            0 <= i < vs@.len() ==> -1 <= #[trigger] vs@[i].x <= 1 && -1 <= vs@[i].y <= 1 && -1
                <= vs@[i].u <= 1 && -1 <= vs@[i].v <= 1,
    ensures
        r@ == vertex_list_bytes(vs@),
        r@.len() == 16 * vs@.len(),
{
    let mut r: Vec<u8> = Vec::new();
    let mut i: usize = 0;
    while i < vs.len()
        invariant
            0 <= i <= vs@.len(),
            r@ == vertex_list_bytes(vs@.take(i as int)),
            forall|j: int|
                0 <= j < vs@.len() ==> -1 <= #[trigger] vs@[j].x <= 1 && -1 <= vs@[j].y <= 1 && -1
                    <= vs@[j].u <= 1 && -1 <= vs@[j].v <= 1,
        decreases vs@.len() - i,
    {
        push_vertex(&mut r, &vs[i]);
        proof {
            assert(vs@.take(i + 1 as int).drop_last() =~= vs@.take(i as int));
            assert(vs@.take(i + 1 as int).last() == vs@[i as int]);
        }
        i = i + 1;
    }
    proof {
        assert(vs@.take(vs@.len() as int) =~= vs@);
        lemma_vertex_list_bytes_len(vs@);
    }
    r
}

/// Packs an index list into the byte layout the index buffer holds.
pub fn pack_indices(ids: &Vec<u16>) -> (r: Vec<u8>)
    ensures
        r@ == index_list_bytes(ids@),
        r@.len() == 2 * ids@.len(),
{
    let mut r: Vec<u8> = Vec::new();
    let mut i: usize = 0;
    while i < ids.len()
        invariant
            0 <= i <= ids@.len(),
            r@ == index_list_bytes(ids@.take(i as int)),
        decreases ids@.len() - i,
    {
        push_u16_le(&mut r, ids[i]);
        proof {
            assert(ids@.take(i + 1 as int).drop_last() =~= ids@.take(i as int));
            assert(ids@.take(i + 1 as int).last() == ids@[i as int]);
        }
        i = i + 1;
    }
    proof {
        assert(ids@.take(ids@.len() as int) =~= ids@);
        lemma_index_list_bytes_len(ids@);
    }
    r
}

} // verus!
