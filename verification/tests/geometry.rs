use quad_render::geometry::{quad_indices, quad_vertices, QuadVertex};
use quad_render::packing::{pack_indices, pack_unit_f32, pack_vertices};

#[test]
fn quad_vertices_are_the_four_corners() {
    let v = quad_vertices();
    assert_eq!(v.len(), 4);
    assert_eq!(v[0], QuadVertex { x: -1, y: -1, u: 0, v: 1 });
    assert_eq!(v[1], QuadVertex { x: -1, y: 1, u: 0, v: 0 });
    assert_eq!(v[2], QuadVertex { x: 1, y: 1, u: 1, v: 0 });
    assert_eq!(v[3], QuadVertex { x: 1, y: -1, u: 1, v: 1 });
}

#[test]
fn quad_uv_follows_position() {
    // u runs with x across the quad, v runs against y.
    for vert in quad_vertices() {
        assert_eq!(vert.u, (vert.x + 1) / 2);
        assert_eq!(vert.v, (1 - vert.y) / 2);
    }
}

#[test]
fn quad_indices_form_the_strip() {
    assert_eq!(quad_indices(), vec![0u16, 1, 3, 2]);
}

#[test]
fn strip_triangles_cover_the_viewport_corners_and_centre() {
    // The strip's two triangles are (0, 1, 3) and (1, 3, 2). Every corner
    // of clip space is a vertex of one of them, and the centre lies on
    // the shared diagonal x + y == 0 of both.
    let v = quad_vertices();
    let ids = quad_indices();
    let tri0 = [v[ids[0] as usize], v[ids[1] as usize], v[ids[2] as usize]];
    let tri1 = [v[ids[1] as usize], v[ids[2] as usize], v[ids[3] as usize]];
    for corner in [(-1, -1), (-1, 1), (1, -1), (1, 1)] {
        let in0 = tri0.iter().any(|p| (p.x, p.y) == corner);
        let in1 = tri1.iter().any(|p| (p.x, p.y) == corner);
        assert!(in0 || in1);
    }
    let on_diagonal0 = tri0.iter().filter(|p| p.x + p.y == 0).count();
    let on_diagonal1 = tri1.iter().filter(|p| p.x + p.y == 0).count();
    assert_eq!(on_diagonal0, 2);
    assert_eq!(on_diagonal1, 2);
}

#[test]
fn unit_bits_match_ieee_singles() {
    assert_eq!(pack_unit_f32(-1), (-1.0f32).to_bits());
    assert_eq!(pack_unit_f32(0), 0.0f32.to_bits());
    assert_eq!(pack_unit_f32(1), 1.0f32.to_bits());
}

#[test]
fn packed_vertices_match_float_layout() {
    // The packed buffer must byte-for-byte equal the tightly packed
    // little-endian f32 layout (x, y, u, v per vertex) the GPU reads.
    let packed = pack_vertices(&quad_vertices());
    let mut expected: Vec<u8> = Vec::new();
    for vert in quad_vertices() {
        for c in [vert.x, vert.y, vert.u, vert.v] {
            expected.extend_from_slice(&(c as f32).to_le_bytes());
        }
    }
    assert_eq!(packed, expected);
    assert_eq!(packed.len(), 64);
}

#[test]
fn packed_indices_are_little_endian_u16() {
    let packed = pack_indices(&quad_indices());
    assert_eq!(packed, vec![0u8, 0, 1, 0, 3, 0, 2, 0]);
}
