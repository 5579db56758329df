use quadgrid::coherent_quads::CoherentQuads;
use quadgrid::vertex::Vertex;

fn vertex(x: f32, y: f32, u: f32, v: f32) -> Vertex {
    Vertex {
        pos_x: x.to_bits(),
        pos_y: y.to_bits(),
        pos_z: 0.0f32.to_bits(),
        pos_w: 1.0f32.to_bits(),
        tex_u: u.to_bits(),
        tex_v: v.to_bits(),
    }
}

/// The four vertices of an axis-aligned quad at (x, y) with the given width
/// and height, mapped onto the full texture, exactly as the renderer builds
/// them for an unrotated quad.
fn quad_vertices(x: f32, y: f32, width: f32, height: f32) -> [Vertex; 4] {
    [
        vertex(x, y, 0.0, 0.0),
        vertex(x, y + height, 0.0, 1.0),
        vertex(x + width, y + height, 1.0, 1.0),
        vertex(x + width, y, 1.0, 0.0),
    ]
}

#[test]
fn three_quads_have_expected_counts() {
    let mut quads = CoherentQuads::new(3);
    let vertices = quad_vertices(0.0, 0.0, 0.5, 0.5);
    for _ in 0..3 {
        quads.add_quad(vertices);
    }
    assert_eq!(quads.quad_quantity(), 3);
    assert_eq!(quads.index_quantity(), 18);
}

#[test]
fn counts_stay_coupled_while_filling_to_capacity() {
    let capacity = 7u32;
    let mut quads = CoherentQuads::new(capacity);
    for n in 0..capacity as usize {
        assert_eq!(quads.quad_quantity(), n);
        assert_eq!(quads.local_vertex_buffer_data.len(), 4 * n);
        assert_eq!(quads.index_quantity(), 6 * n);
        quads.add_quad(quad_vertices(n as f32, 0.0, 1.0, 1.0));
    }
    assert_eq!(quads.quad_quantity(), capacity as usize);
    assert_eq!(
        quads.quad_quantity(),
        quads.local_vertex_buffer_data.len() / quads.vertex_buffer_instance_node_quantity()
    );
    assert_eq!(
        quads.index_quantity(),
        quads.quad_quantity() * quads.index_buffer_instance_node_quantity()
    );
}

#[test]
fn index_blocks_follow_slot_pattern() {
    let mut quads = CoherentQuads::new(3);
    for _ in 0..3 {
        quads.add_quad(quad_vertices(0.0, 0.0, 0.5, 0.5));
    }
    let expected: Vec<u32> = vec![
        0, 1, 2, 2, 3, 0, //
        4, 5, 6, 6, 7, 4, //
        8, 9, 10, 10, 11, 8,
    ];
    assert_eq!(quads.local_index_buffer_data, expected);
    for slot in 0..3usize {
        let base = 4 * slot as u32;
        let block = &quads.local_index_buffer_data[6 * slot..6 * slot + 6];
        assert_eq!(block, &[base, base + 1, base + 2, base + 2, base + 3, base]);
    }
}

#[test]
fn modify_then_get_round_trips() {
    let mut quads = CoherentQuads::new(3);
    for _ in 0..3 {
        quads.add_quad(quad_vertices(0.0, 0.0, 0.5, 0.5));
    }
    let replacement = quad_vertices(-0.25, 0.75, 1.5, 2.0);
    quads.modify_quad(1, replacement);
    assert_eq!(quads.get_quad(1), replacement);
    // neighbours are untouched
    assert_eq!(quads.get_quad(0), quad_vertices(0.0, 0.0, 0.5, 0.5));
    assert_eq!(quads.get_quad(2), quad_vertices(0.0, 0.0, 0.5, 0.5));
}

#[test]
fn remap_flushes_exactly_the_local_state() {
    let mut quads = CoherentQuads::new(2);
    quads.add_quad(quad_vertices(0.0, 0.0, 1.0, 1.0));
    quads.add_quad(quad_vertices(0.5, 0.5, 1.0, 1.0));

    // until the first remap, the device side still holds nothing
    assert!(quads.device_vertex_buffer_data.is_empty());
    assert!(quads.device_index_buffer_data.is_empty());

    quads.remap_data();
    assert_eq!(quads.device_vertex_buffer_data, quads.local_vertex_buffer_data);
    assert_eq!(quads.device_index_buffer_data, quads.local_index_buffer_data);

    // a later mutation lags until the next remap
    let updated = quad_vertices(-1.0, -1.0, 0.25, 0.25);
    quads.modify_quad(0, updated);
    assert_ne!(quads.device_vertex_buffer_data, quads.local_vertex_buffer_data);
    quads.remap_data();
    assert_eq!(quads.device_vertex_buffer_data, quads.local_vertex_buffer_data);
    assert_eq!(quads.device_vertex_buffer_data[0], updated[0]);
}

#[test]
fn empty_buffer_has_no_quads() {
    let quads = CoherentQuads::new(5);
    assert_eq!(quads.quad_quantity(), 0);
    assert_eq!(quads.index_quantity(), 0);
    assert_eq!(quads.vertex_buffer_instance_node_quantity(), 4);
    assert_eq!(quads.index_buffer_instance_node_quantity(), 6);
}
