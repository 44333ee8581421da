use flycam::layout::{attributes, buffer_bytes, vertex_count, Attribute, FLOAT_BYTES};

#[test]
fn a_float_takes_four_bytes() {
    assert_eq!(FLOAT_BYTES, 4);
}

#[test]
fn position_alone() {
    assert_eq!(
        attributes(&vec![3]),
        Some(vec![Attribute { index: 0, components: 3, stride: 12, offset: 0 }])
    );
}

#[test]
fn position_and_texture_coordinates() {
    assert_eq!(
        attributes(&vec![3, 2]),
        Some(vec![
            Attribute { index: 0, components: 3, stride: 20, offset: 0 },
            Attribute { index: 1, components: 2, stride: 20, offset: 12 },
        ])
    );
}

#[test]
fn position_and_colour() {
    assert_eq!(
        attributes(&vec![3, 3]),
        Some(vec![
            Attribute { index: 0, components: 3, stride: 24, offset: 0 },
            Attribute { index: 1, components: 3, stride: 24, offset: 12 },
        ])
    );
}

#[test]
fn position_colour_and_texture_coordinates() {
    assert_eq!(
        attributes(&vec![3, 3, 2]),
        Some(vec![
            Attribute { index: 0, components: 3, stride: 32, offset: 0 },
            Attribute { index: 1, components: 3, stride: 32, offset: 12 },
            Attribute { index: 2, components: 2, stride: 32, offset: 24 },
        ])
    );
}

#[test]
fn sizes_that_describe_no_vertex_give_nothing() {
    assert_eq!(attributes(&vec![]), None);
    assert_eq!(attributes(&vec![0]), None);
    assert_eq!(attributes(&vec![3, 0, 2]), None);
    assert_eq!(attributes(&vec![5]), None);
    assert_eq!(attributes(&vec![3, 255]), None);
    assert_eq!(attributes(&vec![1; 17]), None);
}

#[test]
fn the_largest_vertex_is_sixteen_attributes_of_four_floats() {
    let list = attributes(&vec![4; 16]).unwrap();
    assert_eq!(list.len(), 16);
    for (i, a) in list.iter().enumerate() {
        assert_eq!(*a, Attribute { index: i as u32, components: 4, stride: 256, offset: 16 * i });
    }
}

#[test]
fn attributes_lie_one_behind_the_other_and_fill_the_vertex() {
    for sizes in [vec![3u8], vec![3, 2], vec![1, 2, 3, 4], vec![4, 1, 1, 2, 3], vec![2; 16]] {
        let list = attributes(&sizes).unwrap();
        let mut end = 0usize;
        for a in &list {
            assert_eq!(a.offset, end);
            end = a.offset + 4 * a.components as usize;
        }
        assert_eq!(end, list[0].stride as usize);
    }
}

#[test]
fn the_cube_has_thirty_six_vertices() {
    assert_eq!(vertex_count(180, &vec![3, 2]), Some(36));
}

#[test]
fn vertex_counts_of_the_other_buffers() {
    assert_eq!(vertex_count(9, &vec![3]), Some(3));
    assert_eq!(vertex_count(18, &vec![3]), Some(6));
    assert_eq!(vertex_count(18, &vec![3, 3]), Some(3));
    assert_eq!(vertex_count(32, &vec![3, 3, 2]), Some(4));
    assert_eq!(vertex_count(0, &vec![3, 2]), Some(0));
}

#[test]
fn a_buffer_that_ends_inside_a_vertex_has_no_count() {
    assert_eq!(vertex_count(181, &vec![3, 2]), None);
    assert_eq!(vertex_count(4, &vec![3, 2]), None);
    assert_eq!(vertex_count(180, &vec![]), None);
    assert_eq!(vertex_count(180, &vec![9]), None);
}

#[test]
fn bytes_of_a_buffer() {
    assert_eq!(buffer_bytes(0), Some(0));
    assert_eq!(buffer_bytes(9), Some(36));
    assert_eq!(buffer_bytes(180), Some(720));
    assert_eq!(buffer_bytes(isize::MAX as usize / 4), Some((isize::MAX / 4) * 4));
    assert_eq!(buffer_bytes(isize::MAX as usize / 4 + 1), None);
    assert_eq!(buffer_bytes(usize::MAX), None);
}
