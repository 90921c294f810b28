use gl_playground::buffer::VertexBufferLayout;
use gl_playground::device::GlError;
use gl_playground::GLType;

#[test]
fn empty_layout_has_stride_zero() {
    let layout = VertexBufferLayout::new();
    assert_eq!(layout.get_stride(), 0);
    assert_eq!(layout.get_elements().len(), 0);
}

#[test]
fn stride_accumulates_over_pushes() {
    let mut layout = VertexBufferLayout::new();
    layout.push(3, GLType::FLOAT);
    layout.push(2, GLType::BYTE);
    layout.push(1, GLType::UINT);
    assert_eq!(layout.get_stride(), 3 * 4 + 2 * 1 + 1 * 4);
    let elements = layout.get_elements();
    assert_eq!(elements.len(), 3);
    assert_eq!(elements[0].offset, 0);
    assert_eq!(elements[1].offset, 12);
    assert_eq!(elements[2].offset, 14);
    assert_eq!(elements[0].count, 3);
    assert_eq!(elements[1].count, 2);
    assert_eq!(elements[2].count, 1);
    assert!(!elements[0].normalised);
    assert!(elements[1].normalised);
    assert!(!elements[2].normalised);
}

#[test]
fn zero_component_attribute_adds_nothing() {
    let mut layout = VertexBufferLayout::new();
    layout.push(3, GLType::FLOAT);
    layout.push(0, GLType::BYTE);
    layout.push(1, GLType::UINT);
    assert_eq!(layout.get_stride(), 12 + 0 + 4);
    let elements = layout.get_elements();
    assert_eq!(elements[1].offset, 12);
    assert_eq!(elements[2].offset, 12);
}

#[test]
fn element_scalar_sizes() {
    let mut layout = VertexBufferLayout::new();
    layout.push(1, GLType::FLOAT);
    layout.push(1, GLType::BYTE);
    layout.push(1, GLType::UINT);
    let elements = layout.get_elements();
    assert_eq!(elements[0].get_size(), 4);
    assert_eq!(elements[1].get_size(), 1);
    assert_eq!(elements[2].get_size(), 4);
}

#[test]
fn scalar_types_round_trip_through_codes() {
    for t in [GLType::FLOAT, GLType::BYTE, GLType::UINT] {
        assert_eq!(GLType::from_code(t.code()), Ok(t));
    }
    assert_eq!(GLType::FLOAT.code(), 0x1406);
    assert_eq!(GLType::BYTE.code(), 0x1400);
    assert_eq!(GLType::UINT.code(), 0x1404);
}

#[test]
fn unsupported_code_is_a_hard_error() {
    assert_eq!(GLType::from_code(0), Err(GlError::UnsupportedAttributeType));
    assert_eq!(
        GLType::from_code(0x1401),
        Err(GlError::UnsupportedAttributeType)
    );
}

#[test]
fn scalar_type_properties() {
    assert_eq!(GLType::FLOAT.size(), 4);
    assert_eq!(GLType::BYTE.size(), 1);
    assert_eq!(GLType::UINT.size(), 4);
    assert!(!GLType::FLOAT.normalised());
    assert!(GLType::BYTE.normalised());
    assert!(!GLType::UINT.normalised());
}
