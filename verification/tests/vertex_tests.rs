use realms::vertex::{VertexAttrib, VertexBuffer};

#[test]
fn from_gl_ids_records_the_ids() {
    let vb = VertexBuffer::from_gl_ids(7, 8, 9, 6);
    assert_eq!(vb.vao_id, 7);
    assert_eq!(vb.vbo_id, 8);
    assert_eq!(vb.ebo_id, 9);
    assert_eq!(vb.element_count, 6);
}

#[test]
fn set_layout_positions_and_colors() {
    // a position of 2 floats and a color of 3 floats per vertex
    let vb = VertexBuffer::from_gl_ids(1, 2, 3, 3);
    let attribs = vb.set_layout(&[2, 3]);
    assert_eq!(
        attribs,
        vec![
            VertexAttrib { layout: 0, component_count: 2, stride: 5, offset: 0 },
            VertexAttrib { layout: 1, component_count: 3, stride: 5, offset: 2 },
        ]
    );
}

#[test]
fn set_layout_offsets_are_prefix_sums() {
    let vb = VertexBuffer::from_gl_ids(1, 2, 3, 6);
    let attribs = vb.set_layout(&[3, 4, 2]);
    assert_eq!(attribs.len(), 3);
    for (i, attrib) in attribs.iter().enumerate() {
        assert_eq!(attrib.layout, i as u32);
        assert_eq!(attrib.stride, 9);
    }
    assert_eq!(attribs[0].offset, 0);
    assert_eq!(attribs[1].offset, 3);
    assert_eq!(attribs[2].offset, 7);
    assert_eq!(attribs[0].component_count, 3);
    assert_eq!(attribs[1].component_count, 4);
    assert_eq!(attribs[2].component_count, 2);
}

#[test]
fn set_layout_of_nothing_is_empty() {
    let vb = VertexBuffer::from_gl_ids(0, 0, 0, 0);
    assert_eq!(vb.set_layout(&[]), vec![]);
}
