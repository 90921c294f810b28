//! A buffer fixed to the vertex-data kind.

use vstd::prelude::*;

use crate::buffer::{Buffer, BufferKind};
use crate::device::{Device, GlError};

verus! {

/// A `Buffer` whose kind is fixed to vertex data at creation.
#[derive(Debug)]
pub struct VertexBuffer {
    buffer: Buffer,
}

impl VertexBuffer {
    /// The underlying buffer.
    pub closed spec fn spec_buffer(&self) -> Buffer {
        self.buffer
    }

    /// The device handle this buffer owns.
    pub open spec fn handle(&self) -> u32 {
        self.spec_buffer().handle()
    }

    /// The byte length of the payload uploaded at creation.
    pub open spec fn byte_length(&self) -> usize {
        self.spec_buffer().byte_length()
    }

    /// The underlying buffer holds vertex data.
    pub open spec fn wf(&self) -> bool {
        self.spec_buffer().kind() == BufferKind::VertexData
    }

    /// A vertex buffer that may be used with `dev`.
    pub open spec fn valid(&self, dev: &Device) -> bool {
        self.spec_buffer().valid(dev)
    }

    /// Create a vertex-data buffer by uploading `data`; `size` must be
    /// the payload's true byte length and the payload must be non-empty.
    /// On success the buffer is left bound as the current vertex-data
    /// target.
    pub fn new(dev: &mut Device, data: &[u8], size: usize) -> (r: Result<VertexBuffer, GlError>)
        requires
            old(dev).wf(),
        ensures
            final(dev).wf(),
            data@.len() == 0 || size != data@.len() ==> r == Err::<VertexBuffer, GlError>(
                GlError::PreconditionViolation,
            ) && *final(dev) == *old(dev),
            data@.len() > 0 && size == data@.len() && old(dev).exhausted() ==> r == Err::<
                VertexBuffer,
                GlError,
            >(GlError::DeviceResource) && *final(dev) == *old(dev),
            data@.len() > 0 && size == data@.len() && !old(dev).exhausted() ==> {
                &&& r is Ok
                &&& r->Ok_0.wf()
                &&& r->Ok_0.handle() == old(dev).handles_allocated() + 1
                &&& !old(dev).is_live(r->Ok_0.handle())
                &&& r->Ok_0.byte_length() == size
                &&& r->Ok_0.valid(final(dev))
                &&& final(dev).live_handles() == old(dev).live_handles().push(r->Ok_0.handle())
                &&& (forall|x: u32| final(dev).is_live(x) <==> (old(dev).is_live(x) || x == r->Ok_0.handle()))
                &&& final(dev).handles_allocated() == old(dev).handles_allocated() + 1
                &&& final(dev).handle_limit() == old(dev).handle_limit()
                &&& final(dev).array_buffer_binding() == r->Ok_0.handle()
                &&& final(dev).element_buffer_binding() == old(dev).element_buffer_binding()
                &&& final(dev).vertex_array_binding() == old(dev).vertex_array_binding()
            },
    {
        match Buffer::new(dev, BufferKind::VertexData, data, size) {
            Ok(buffer) => Ok(VertexBuffer { buffer }),
            Err(e) => Err(e),
        }
    }

    /// Make this buffer the current vertex-data target.
    pub fn bind(&self, dev: &mut Device)
        requires
            old(dev).wf(),
            self.wf(),
            self.valid(old(dev)),
        ensures
            final(dev).wf(),
            final(dev).array_buffer_binding() == self.handle(),
            final(dev).element_buffer_binding() == old(dev).element_buffer_binding(),
            final(dev).vertex_array_binding() == old(dev).vertex_array_binding(),
            Device::same_resources(old(dev), final(dev)),
    {
        self.buffer.bind(dev);
    }

    /// Clear the current vertex-data binding.
    pub fn un_bind(dev: &mut Device)
        requires
            old(dev).wf(),
        ensures
            final(dev).wf(),
            final(dev).array_buffer_binding() == 0,
            final(dev).element_buffer_binding() == old(dev).element_buffer_binding(),
            final(dev).vertex_array_binding() == old(dev).vertex_array_binding(),
            Device::same_resources(old(dev), final(dev)),
    {
        dev.set_array_buffer_binding(0);
    }

    /// Give the handle back to the device, exactly once: the vertex
    /// buffer is consumed.
    pub fn release(self, dev: &mut Device)
        requires
            old(dev).wf(),
            self.valid(old(dev)),
        ensures
            final(dev).wf(),
            !final(dev).is_live(self.handle()),
            final(dev).live_handles().len() == old(dev).live_handles().len() - 1,
            forall|x: u32| x != self.handle() ==> (final(dev).is_live(x) <==> old(dev).is_live(x)),
            final(dev).handles_allocated() == old(dev).handles_allocated(),
            final(dev).handle_limit() == old(dev).handle_limit(),
            final(dev).array_buffer_binding() == old(dev).array_buffer_binding(),
            final(dev).element_buffer_binding() == old(dev).element_buffer_binding(),
            final(dev).vertex_array_binding() == old(dev).vertex_array_binding(),
    {
        self.buffer.release(dev);
    }

    /// Borrow the underlying buffer, for association with a vertex
    /// array.
    pub fn as_buffer(&self) -> (r: &Buffer)
        ensures
            *r == self.spec_buffer(),
    {
        &self.buffer
    }

    /// The device handle this buffer owns.
    pub fn renderer_id(&self) -> (r: u32)
        ensures
            r == self.handle(),
    {
        self.buffer.renderer_id()
    }

    /// The byte length of the payload uploaded at creation.
    pub fn byte_len(&self) -> (r: usize)
        ensures
            r == self.byte_length(),
    {
        self.buffer.byte_len()
    }
}

} // verus!
