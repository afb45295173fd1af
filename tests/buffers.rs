use glwrap::buffer::{GlBuffer, GlBufferElementType, GlBufferRaw, GlIndexBuffer};
use glwrap::enums::{FLOAT, UNSIGNED_INT, UNSIGNED_SHORT};

#[test]
fn vertex_buffer_element_count_is_components_over_vertex_size() {
    let b = GlBufferRaw::new(GlBufferElementType::FloatTriple, 3, 3, 7, 0).unwrap();
    assert_eq!(b.buffer_id, 7);
    assert_eq!(b.el_count, 3);
    assert_eq!(b.component_count, 3);
    assert_eq!(b.gl_type_enum, FLOAT);

    let b = GlBufferRaw::new(GlBufferElementType::Float, 6, 2, 8, 0).unwrap();
    assert_eq!(b.el_count, 3);
    assert_eq!(b.component_count, 2);

    let b = GlBufferRaw::new(GlBufferElementType::FloatQuad, 2, 2, 9, 0).unwrap();
    assert_eq!(b.el_count, 4);

    let b = GlBufferRaw::new(GlBufferElementType::UIntTriple, 4, 1, 9, 0).unwrap();
    assert_eq!(b.el_count, 12);
    assert_eq!(b.gl_type_enum, UNSIGNED_INT);
}

#[test]
fn vertex_buffer_of_no_elements_is_empty() {
    let b = GlBufferRaw::new(GlBufferElementType::FloatPair, 0, 2, 3, 0).unwrap();
    assert_eq!(b.el_count, 0);
}

#[test]
fn index_buffer_counts_elements_and_keeps_components() {
    let b = GlBufferRaw::new_index(GlBufferElementType::UIntTriple, 5, 11, 0).unwrap();
    assert_eq!(b.el_count, 5);
    assert_eq!(b.component_count, 3);
    assert_eq!(b.gl_type_enum, UNSIGNED_INT);

    let b = GlIndexBuffer::new(GlBufferElementType::UShort, 6, 12, 0).unwrap();
    assert_eq!(b.raw.el_count, 6);
    assert_eq!(b.raw.component_count, 1);
    assert_eq!(b.raw.gl_type_enum, UNSIGNED_SHORT);
    assert_eq!(b.ty, GlBufferElementType::UShort);
}

#[test]
fn typed_vertex_buffer_has_one_vertex_per_element() {
    let b = GlBuffer::new(GlBufferElementType::FloatPair, 4, 13, 0).unwrap();
    assert_eq!(b.raw.el_count, 4);
    assert_eq!(b.raw.component_count, 2);
    assert_eq!(b.ty, GlBufferElementType::FloatPair);
}

#[test]
fn buffer_upload_error_is_reported() {
    let e = GlBufferRaw::new(GlBufferElementType::Float, 3, 1, 5, 1285).unwrap_err();
    assert_eq!(e.message(), "1285");
    let e = GlIndexBuffer::new(GlBufferElementType::UInt, 3, 5, 1281).unwrap_err();
    assert_eq!(e.0, "1281");
}

#[test]
fn element_table_is_complete() {
    let table = [
        (GlBufferElementType::Float, FLOAT, 1),
        (GlBufferElementType::UInt, UNSIGNED_INT, 1),
        (GlBufferElementType::UIntTriple, UNSIGNED_INT, 3),
        (GlBufferElementType::UShort, UNSIGNED_SHORT, 1),
        (GlBufferElementType::FloatPair, FLOAT, 2),
        (GlBufferElementType::FloatTriple, FLOAT, 3),
        (GlBufferElementType::FloatQuad, FLOAT, 4),
    ];
    for (ty, scalar, n) in table {
        assert_eq!(ty.gl_type_enum(), scalar);
        assert_eq!(ty.components_per_element(), n);
    }
}

#[test]
fn released_buffer_forgets_its_identifier() {
    let mut b = GlBufferRaw::new(GlBufferElementType::Float, 2, 1, 4, 0).unwrap();
    b.mark_released();
    assert_eq!(b.buffer_id, 0);
    assert_eq!(b.el_count, 2);
}
