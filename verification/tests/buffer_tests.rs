use gl_playground::buffer::{Buffer, BufferKind};
use gl_playground::device::{Device, GlError};
use gl_playground::index_buffer::IndexBuffer;
use gl_playground::vertex_buffer::VertexBuffer;

#[test]
fn empty_payload_is_rejected() {
    let mut dev = Device::new();
    let r = Buffer::new(&mut dev, BufferKind::VertexData, &[], 0);
    assert_eq!(r.unwrap_err(), GlError::PreconditionViolation);
    assert_eq!(dev.live_handle_count(), 0);

    let r = VertexBuffer::new(&mut dev, &[], 0);
    assert_eq!(r.unwrap_err(), GlError::PreconditionViolation);
    let r = IndexBuffer::new(&mut dev, &[], 0);
    assert_eq!(r.unwrap_err(), GlError::PreconditionViolation);
    assert_eq!(dev.live_handle_count(), 0);
}

#[test]
fn mis_sized_payload_is_rejected() {
    let mut dev = Device::new();
    let data = [1u8, 2, 3, 4];
    let r = Buffer::new(&mut dev, BufferKind::VertexData, &data, 5);
    assert_eq!(r.unwrap_err(), GlError::PreconditionViolation);
    assert_eq!(dev.live_handle_count(), 0);

    let indices = [0u32, 1, 3];
    let r = IndexBuffer::new(&mut dev, &indices, 11);
    assert_eq!(r.unwrap_err(), GlError::PreconditionViolation);
    assert_eq!(dev.live_handle_count(), 0);
}

#[test]
fn creation_allocates_and_binds() {
    let mut dev = Device::new();
    let data = [0u8; 12];
    let vb = Buffer::new(&mut dev, BufferKind::VertexData, &data, 12).unwrap();
    assert_eq!(vb.renderer_id(), 1);
    assert_eq!(vb.byte_len(), 12);
    assert_eq!(vb.buffer_type(), BufferKind::VertexData);
    assert!(dev.handle_is_live(vb.renderer_id()));
    assert_eq!(dev.bound_array_buffer(), vb.renderer_id());
    assert_eq!(dev.bound_element_buffer(), 0);

    let indices = [0u32, 1, 3, 1, 2, 3];
    let ib = IndexBuffer::new(&mut dev, &indices, 24).unwrap();
    assert_eq!(ib.renderer_id(), 2);
    assert_eq!(ib.byte_len(), 24);
    assert_eq!(dev.bound_element_buffer(), ib.renderer_id());
    assert_eq!(dev.bound_array_buffer(), vb.renderer_id());
    assert_eq!(dev.live_handle_count(), 2);
}

#[test]
fn bind_and_unbind_drive_the_current_target() {
    let mut dev = Device::new();
    let a = Buffer::new(&mut dev, BufferKind::VertexData, &[1u8, 2], 2).unwrap();
    let b = Buffer::new(&mut dev, BufferKind::VertexData, &[3u8, 4], 2).unwrap();
    assert_eq!(dev.bound_array_buffer(), b.renderer_id());
    a.bind(&mut dev);
    assert_eq!(dev.bound_array_buffer(), a.renderer_id());
    a.un_bind(&mut dev);
    assert_eq!(dev.bound_array_buffer(), 0);

    let vb = VertexBuffer::new(&mut dev, &[9u8; 4], 4).unwrap();
    vb.bind(&mut dev);
    assert_eq!(dev.bound_array_buffer(), vb.renderer_id());
    VertexBuffer::un_bind(&mut dev);
    assert_eq!(dev.bound_array_buffer(), 0);

    let ib = IndexBuffer::new(&mut dev, &[0u32, 1, 2], 12).unwrap();
    ib.bind(&mut dev);
    assert_eq!(dev.bound_element_buffer(), ib.renderer_id());
    IndexBuffer::un_bind(&mut dev);
    assert_eq!(dev.bound_element_buffer(), 0);
}

#[test]
fn release_frees_the_handle_exactly_once() {
    let mut dev = Device::new();
    let a = Buffer::new(&mut dev, BufferKind::VertexData, &[0u8; 8], 8).unwrap();
    let b = Buffer::new(&mut dev, BufferKind::IndexData, &[0u8; 8], 8).unwrap();
    assert_eq!(dev.live_handle_count(), 2);

    let a_id = a.renderer_id();
    a.release(&mut dev);
    assert!(!dev.handle_is_live(a_id));
    assert!(dev.handle_is_live(b.renderer_id()));
    assert_eq!(dev.live_handle_count(), 1);

    // The released handle is never handed out again.
    let c = Buffer::new(&mut dev, BufferKind::VertexData, &[0u8; 8], 8).unwrap();
    assert_ne!(c.renderer_id(), a_id);
    assert_eq!(c.renderer_id(), 3);
}

#[test]
fn exhausted_device_reports_a_resource_error() {
    let mut dev = Device::with_handle_limit(1);
    let first = Buffer::new(&mut dev, BufferKind::VertexData, &[0u8; 4], 4);
    assert!(first.is_ok());
    let second = Buffer::new(&mut dev, BufferKind::VertexData, &[0u8; 4], 4);
    assert_eq!(second.unwrap_err(), GlError::DeviceResource);

    let mut none = Device::with_handle_limit(0);
    let r = Buffer::new(&mut none, BufferKind::VertexData, &[0u8; 4], 4);
    assert_eq!(r.unwrap_err(), GlError::DeviceResource);
    assert_eq!(none.live_handle_count(), 0);
}

#[test]
fn release_of_wrapped_buffers() {
    let mut dev = Device::new();
    let vb = VertexBuffer::new(&mut dev, &[0u8; 6], 6).unwrap();
    let ib = IndexBuffer::new(&mut dev, &[7u32], 4).unwrap();
    let vb_id = vb.renderer_id();
    let ib_id = ib.renderer_id();
    vb.release(&mut dev);
    ib.release(&mut dev);
    assert!(!dev.handle_is_live(vb_id));
    assert!(!dev.handle_is_live(ib_id));
    assert_eq!(dev.live_handle_count(), 0);
}
