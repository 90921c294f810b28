use gl_playground::buffer::{Buffer, BufferKind, VertexBufferLayout};
use gl_playground::device::{Device, GlError};
use gl_playground::vertex_array::VertexArray;
use gl_playground::vertex_buffer::VertexBuffer;
use gl_playground::GLType;

#[test]
fn single_float_attribute_end_to_end() {
    let mut dev = Device::new();
    let mut va = VertexArray::new(&mut dev).unwrap();
    // Four vertices of three floats each: 48 bytes, an exact multiple
    // of the 12-byte stride.
    let vertices = [0u8; 48];
    let vb = Buffer::new(&mut dev, BufferKind::VertexData, &vertices, 48).unwrap();
    let mut layout = VertexBufferLayout::new();
    layout.push(3, GLType::FLOAT);
    assert_eq!(layout.get_stride(), 12);
    assert_eq!(48 % layout.get_stride(), 0);

    va.add_buffer(&mut dev, &vb, &layout).unwrap();
    assert!(va.associated());
    let slots = va.slots();
    assert_eq!(slots.len(), 1);
    assert_eq!(slots[0].index, 0);
    assert_eq!(slots[0].count, 3);
    assert_eq!(slots[0].element_type, GLType::FLOAT);
    assert!(!slots[0].normalised);
    assert_eq!(slots[0].stride, 12);
    assert_eq!(slots[0].offset, 0);
    assert_eq!(slots[0].buffer_id, vb.renderer_id());
    assert_eq!(dev.bound_vertex_array(), va.renderer_id());
    assert_eq!(dev.bound_array_buffer(), vb.renderer_id());
}

#[test]
fn float_then_byte_attribute_offsets() {
    let mut dev = Device::new();
    let mut va = VertexArray::new(&mut dev).unwrap();
    let mut layout = VertexBufferLayout::new();
    layout.push(3, GLType::FLOAT);
    layout.push(1, GLType::BYTE);
    assert_eq!(layout.get_stride(), 12 + 1);
    // Two vertices of 13 bytes each.
    let vertices = [0u8; 26];
    let vb = Buffer::new(&mut dev, BufferKind::VertexData, &vertices, 26).unwrap();

    va.add_buffer(&mut dev, &vb, &layout).unwrap();
    let slots = va.slots();
    assert_eq!(slots.len(), 2);
    assert_eq!(slots[0].index, 0);
    assert_eq!(slots[0].offset, 0);
    assert_eq!(slots[0].stride, 13);
    assert!(!slots[0].normalised);
    assert_eq!(slots[1].index, 1);
    assert_eq!(slots[1].offset, 12);
    assert_eq!(slots[1].stride, 13);
    assert!(slots[1].normalised);
    assert_eq!(slots[1].element_type, GLType::BYTE);
}

#[test]
fn slots_cover_every_element_in_order() {
    let mut dev = Device::new();
    let mut va = VertexArray::new(&mut dev).unwrap();
    let mut layout = VertexBufferLayout::new();
    layout.push(1, GLType::UINT);
    layout.push(2, GLType::BYTE);
    layout.push(3, GLType::FLOAT);
    assert_eq!(layout.get_stride(), 4 + 2 + 12);
    let vertices = [0u8; 18];
    let vb = Buffer::new(&mut dev, BufferKind::VertexData, &vertices, 18).unwrap();

    va.add_buffer(&mut dev, &vb, &layout).unwrap();
    let slots = va.slots();
    assert_eq!(slots.len(), 3);
    for (i, slot) in slots.iter().enumerate() {
        assert_eq!(slot.index, i as u32);
        assert_eq!(slot.buffer_id, vb.renderer_id());
        assert_eq!(slot.stride, 18);
    }
    assert_eq!(slots[0].offset, 0);
    assert_eq!(slots[1].offset, 4);
    assert_eq!(slots[2].offset, 6);
}

#[test]
fn byte_length_must_be_a_multiple_of_the_stride() {
    let mut dev = Device::new();
    let mut va = VertexArray::new(&mut dev).unwrap();
    let mut layout = VertexBufferLayout::new();
    layout.push(3, GLType::FLOAT);
    // Ten bytes cannot hold whole 12-byte vertices.
    let vertices = [0u8; 10];
    let vb = Buffer::new(&mut dev, BufferKind::VertexData, &vertices, 10).unwrap();

    let r = va.add_buffer(&mut dev, &vb, &layout);
    assert_eq!(r.unwrap_err(), GlError::PreconditionViolation);
    assert!(!va.associated());
    assert_eq!(va.slots().len(), 0);
}

#[test]
fn a_second_association_is_rejected() {
    let mut dev = Device::new();
    let mut va = VertexArray::new(&mut dev).unwrap();
    let mut layout = VertexBufferLayout::new();
    layout.push(3, GLType::FLOAT);
    let vertices = [0u8; 24];
    let vb = Buffer::new(&mut dev, BufferKind::VertexData, &vertices, 24).unwrap();

    va.add_buffer(&mut dev, &vb, &layout).unwrap();
    let r = va.add_buffer(&mut dev, &vb, &layout);
    assert_eq!(r.unwrap_err(), GlError::PreconditionViolation);
    // The first registration stands untouched.
    assert!(va.associated());
    assert_eq!(va.slots().len(), 1);
}

#[test]
fn an_index_buffer_cannot_feed_the_attribute_table() {
    let mut dev = Device::new();
    let mut va = VertexArray::new(&mut dev).unwrap();
    let mut layout = VertexBufferLayout::new();
    layout.push(1, GLType::UINT);
    let ib = Buffer::new(&mut dev, BufferKind::IndexData, &[0u8; 8], 8).unwrap();

    let r = va.add_buffer(&mut dev, &ib, &layout);
    assert_eq!(r.unwrap_err(), GlError::PreconditionViolation);
    assert!(!va.associated());
}

#[test]
fn an_empty_layout_registers_no_slot() {
    let mut dev = Device::new();
    let mut va = VertexArray::new(&mut dev).unwrap();
    let layout = VertexBufferLayout::new();
    let vb = Buffer::new(&mut dev, BufferKind::VertexData, &[0u8; 5], 5).unwrap();

    va.add_buffer(&mut dev, &vb, &layout).unwrap();
    assert!(va.associated());
    assert_eq!(va.slots().len(), 0);
}

#[test]
fn a_vertex_buffer_feeds_the_attribute_table() {
    let mut dev = Device::new();
    let mut va = VertexArray::new(&mut dev).unwrap();
    let mut layout = VertexBufferLayout::new();
    layout.push(2, GLType::FLOAT);
    let vb = VertexBuffer::new(&mut dev, &[0u8; 16], 16).unwrap();

    va.add_buffer(&mut dev, vb.as_buffer(), &layout).unwrap();
    let slots = va.slots();
    assert_eq!(slots.len(), 1);
    assert_eq!(slots[0].buffer_id, vb.renderer_id());
    assert_eq!(slots[0].stride, 8);
}

#[test]
fn vertex_array_bind_and_release() {
    let mut dev = Device::new();
    let va = VertexArray::new(&mut dev).unwrap();
    va.bind(&mut dev);
    assert_eq!(dev.bound_vertex_array(), va.renderer_id());
    VertexArray::un_bind(&mut dev);
    assert_eq!(dev.bound_vertex_array(), 0);

    let va_id = va.renderer_id();
    va.release(&mut dev);
    assert!(!dev.handle_is_live(va_id));
    assert_eq!(dev.live_handle_count(), 0);
}

#[test]
fn exhausted_device_fails_vertex_array_creation() {
    let mut dev = Device::with_handle_limit(0);
    let r = VertexArray::new(&mut dev);
    assert_eq!(r.unwrap_err(), GlError::DeviceResource);
}
