//! Vertex-array bindings.
//!
//! A `VertexArray` owns one device vertex-array handle and records, once,
//! how a vertex buffer's bytes map onto numbered attribute slots: for each
//! layout element one slot with the element's component count, scalar
//! type, normalization flag, the layout's stride, and the running byte
//! offset of the element inside one vertex record.

use vstd::prelude::*;

use crate::buffer::{stride_of, Buffer, BufferKind, VertexBufferElement, VertexBufferLayout};
use crate::buffer::lemma_offsets_monotonic;
use crate::device::{Device, GlError};
use crate::{scalar_size, GLType};

verus! {

/// One registered attribute slot: slot `index` reads `count` components
/// of `element_type` from the buffer `buffer_id`, `offset` bytes into
/// each vertex record of `stride` bytes.
#[derive(Clone, Copy, Debug, PartialEq, Eq, Structural)]
pub struct AttributeSlot {
    pub index: u32,
    pub count: u32,
    pub element_type: GLType,
    pub normalised: bool,
    pub stride: u32,
    pub offset: u32,
    pub buffer_id: u32,
}

/// The slot that position `i` of `elems` registers against buffer
/// `buffer_id` with record stride `stride`: slot number `i`, the
/// element's own description, and as offset the summed sizes of the
/// elements before it.
pub open spec fn slot_for(
    elems: Seq<VertexBufferElement>,
    stride: u32,
    buffer_id: u32,
    i: int,
) -> AttributeSlot {
    AttributeSlot {
        index: i as u32,
        count: elems[i].count,
        element_type: elems[i].element_type,
        normalised: elems[i].normalised,
        stride,
        offset: stride_of(elems.take(i)) as u32,
        buffer_id,
    }
}

/// When an association request is turned down: the vertex array is
/// already associated, the buffer does not hold vertex data, or the
/// buffer's byte length is no multiple of a non-zero stride.
pub open spec fn associate_rejected(
    already: bool,
    vb: &Buffer,
    layout: &VertexBufferLayout,
) -> bool {
    ||| already
    ||| vb.kind() != BufferKind::VertexData
    ||| (layout.stride_spec() != 0 && vb.byte_length() as int % layout.stride_spec() as int != 0)
}

/// Owns one device vertex-array handle. Created with no attributes;
/// a single association registers all slots, and the registration then
/// stands until the vertex array is released.
#[derive(Debug)]
pub struct VertexArray {
    renderer_id: u32,
    slots: Vec<AttributeSlot>,
    associated: bool,
}

impl VertexArray {
    /// The device handle this vertex array owns.
    pub closed spec fn handle(&self) -> u32 {
        self.renderer_id
    }

    /// The registered attribute slots, in slot order.
    pub closed spec fn slots_seq(&self) -> Seq<AttributeSlot> {
        self.slots@
    }

    /// Whether the one-shot association has happened.
    pub closed spec fn is_associated(&self) -> bool {
        self.associated
    }

    /// Before association no slot is registered.
    pub open spec fn wf(&self) -> bool {
        !self.is_associated() ==> self.slots_seq().len() == 0
    }

    /// A vertex array that may be used with `dev`: its handle is
    /// non-zero and still live.
    pub open spec fn valid(&self, dev: &Device) -> bool {
        &&& self.handle() != 0
        &&& dev.is_live(self.handle())
    }

    /// Allocate a device vertex-array handle. Fails exactly when the
    /// device has no handle left; nothing is bound by creation.
    pub fn new(dev: &mut Device) -> (r: Result<VertexArray, GlError>)
        requires
            old(dev).wf(),
        ensures
            final(dev).wf(),
            old(dev).exhausted() ==> r == Err::<VertexArray, GlError>(GlError::DeviceResource)
                && *final(dev) == *old(dev),
            !old(dev).exhausted() ==> {
                &&& r is Ok
                &&& r->Ok_0.handle() == old(dev).handles_allocated() + 1
                &&& r->Ok_0.handle() != 0
                &&& !old(dev).is_live(r->Ok_0.handle())
                &&& r->Ok_0.valid(final(dev))
                &&& r->Ok_0.wf()
                &&& !r->Ok_0.is_associated()
                &&& r->Ok_0.slots_seq().len() == 0
                &&& final(dev).live_handles() == old(dev).live_handles().push(r->Ok_0.handle())
                &&& (forall|x: u32| final(dev).is_live(x) <==> (old(dev).is_live(x) || x == r->Ok_0.handle()))
                &&& final(dev).handles_allocated() == old(dev).handles_allocated() + 1
                &&& final(dev).handle_limit() == old(dev).handle_limit()
                &&& final(dev).array_buffer_binding() == old(dev).array_buffer_binding()
                &&& final(dev).element_buffer_binding() == old(dev).element_buffer_binding()
                &&& final(dev).vertex_array_binding() == old(dev).vertex_array_binding()
            },
    {
        let h = dev.alloc_handle();
        if h == 0 {
            Err(GlError::DeviceResource)
        } else {
            Ok(VertexArray { renderer_id: h, slots: Vec::new(), associated: false })
        }
    }

    /// Make this vertex array the current one.
    pub fn bind(&self, dev: &mut Device)
        requires
            old(dev).wf(),
            self.valid(old(dev)),
        ensures
            final(dev).wf(),
            final(dev).vertex_array_binding() == self.handle(),
            final(dev).array_buffer_binding() == old(dev).array_buffer_binding(),
            final(dev).element_buffer_binding() == old(dev).element_buffer_binding(),
            Device::same_resources(old(dev), final(dev)),
    {
        dev.set_vertex_array_binding(self.renderer_id);
    }

    /// Clear the current vertex-array binding.
    pub fn un_bind(dev: &mut Device)
        requires
            old(dev).wf(),
        ensures
            final(dev).wf(),
            final(dev).vertex_array_binding() == 0,
            final(dev).array_buffer_binding() == old(dev).array_buffer_binding(),
            final(dev).element_buffer_binding() == old(dev).element_buffer_binding(),
            Device::same_resources(old(dev), final(dev)),
    {
        dev.set_vertex_array_binding(0);
    }

    /// Associate `vb` and `layout` with this vertex array: bind both,
    /// then register one attribute slot per layout element, numbered
    /// from 0 in layout order, each at the running byte offset of its
    /// element. One-shot: a second association, a non-vertex buffer, or
    /// a byte length that is no multiple of a non-zero stride is turned
    /// down untouched. The buffer and layout are only read; the buffer
    /// must outlive this binding for any later draw to be meaningful.
    pub fn add_buffer(&mut self, dev: &mut Device, vb: &Buffer, layout: &VertexBufferLayout) -> (r:
        Result<(), GlError>)
        requires
            old(self).wf(),
            old(dev).wf(),
            old(self).valid(old(dev)),
            vb.valid(old(dev)),
            layout.wf(),
        ensures
            final(self).wf(),
            final(dev).wf(),
            associate_rejected(old(self).is_associated(), vb, layout) ==> r == Err::<(), GlError>(
                GlError::PreconditionViolation,
            ) && *final(self) == *old(self) && *final(dev) == *old(dev),
            !associate_rejected(old(self).is_associated(), vb, layout) ==> {
                &&& r == Ok::<(), GlError>(())
                &&& final(self).is_associated()
                &&& final(self).handle() == old(self).handle()
                &&& final(self).slots_seq().len() == layout.elements_seq().len()
                &&& (forall|i: int|
                    0 <= i < layout.elements_seq().len() ==> #[trigger] final(self).slots_seq()[i]
                        == slot_for(
                        layout.elements_seq(),
                        layout.stride_spec(),
                        vb.handle(),
                        i,
                    ))
                &&& final(dev).vertex_array_binding() == old(self).handle()
                &&& final(dev).array_buffer_binding() == vb.handle()
                &&& final(dev).element_buffer_binding() == old(dev).element_buffer_binding()
                &&& Device::same_resources(old(dev), final(dev))
            },
    {
        if self.associated {
            return Err(GlError::PreconditionViolation);
        }
        if !matches!(vb.buffer_type(), BufferKind::VertexData) {
            return Err(GlError::PreconditionViolation);
        }
        let stride = layout.get_stride();
        if stride != 0 && vb.byte_len() % (stride as usize) != 0 {
            return Err(GlError::PreconditionViolation);
        }
        self.bind(dev);
        vb.bind(dev);
        let elements = layout.get_elements();
        let buffer_id = vb.renderer_id();
        let mut offset: u32 = 0;
        let ghost elems = layout.elements_seq();
        let mut pos: usize = 0;
        while pos < elements.len()
            invariant
                elements@ == elems,
                elems == layout.elements_seq(),
                layout.wf(),
                layout.stride_spec() == stride,
                pos <= elems.len(),
                elems.len() <= u32::MAX,
                offset == stride_of(elems.take(pos as int)),
                self.slots@.len() == pos,
                forall|i: int|
                    0 <= i < pos ==> #[trigger] self.slots@[i] == slot_for(
                        elems,
                        stride,
                        buffer_id,
                        i,
                    ),
                self.renderer_id == old(self).handle(),
                self.associated == false,
                dev.wf(),
                dev.vertex_array_binding() == old(self).handle(),
                dev.array_buffer_binding() == vb.handle(),
                dev.element_buffer_binding() == old(dev).element_buffer_binding(),
                Device::same_resources(old(dev), dev),
                buffer_id == vb.handle(),
            decreases elements@.len() - pos,
        {
            let e = elements[pos];
            proof {
                lemma_offsets_monotonic(elems, pos as int + 1, elems.len() as int);
                assert(elems.take(elems.len() as int) =~= elems);
                assert(elems.take(pos as int + 1).drop_last() =~= elems.take(pos as int));
                assert(elems.take(pos as int + 1).last() == elems[pos as int]);
                assert(stride_of(elems.take(pos as int + 1)) == offset + elems[pos as int].count
                    * scalar_size(elems[pos as int].element_type));
                assert(stride_of(elems.take(pos as int + 1)) <= stride_of(elems));
            }
            self.slots.push(
                AttributeSlot {
                    index: pos as u32,
                    count: e.count,
                    element_type: e.element_type,
                    normalised: e.normalised,
                    stride,
                    offset,
                    buffer_id,
                },
            );
            offset = offset + e.count * e.get_size();
            pos = pos + 1;
        }
        self.associated = true;
        Ok(())
    }

    /// Give the handle back to the device. Consumes the vertex array, so
    /// the handle is released exactly once; the associated buffer is not
    /// owned and is not touched.
    pub fn release(self, dev: &mut Device)
        requires
            old(dev).wf(),
            self.valid(old(dev)),
        ensures
            final(dev).wf(),
            !final(dev).is_live(self.handle()),
            final(dev).live_handles().len() == old(dev).live_handles().len() - 1,
            forall|x: u32| x != self.handle() ==> (final(dev).is_live(x) <==> old(dev).is_live(x)),
            final(dev).handles_allocated() == old(dev).handles_allocated(),
            final(dev).handle_limit() == old(dev).handle_limit(),
            final(dev).array_buffer_binding() == old(dev).array_buffer_binding(),
            final(dev).element_buffer_binding() == old(dev).element_buffer_binding(),
            final(dev).vertex_array_binding() == old(dev).vertex_array_binding(),
    {
        dev.release_handle(self.renderer_id);
    }

    /// The device handle this vertex array owns.
    pub fn renderer_id(&self) -> (r: u32)
        ensures
            r == self.handle(),
    {
        self.renderer_id
    }

    /// The registered attribute slots, in slot order.
    pub fn slots(&self) -> (r: &Vec<AttributeSlot>)
        ensures
            r@ == self.slots_seq(),
    {
        &self.slots
    }

    /// Whether the one-shot association has happened.
    pub fn associated(&self) -> (r: bool)
        ensures
            r == self.is_associated(),
    {
        self.associated
    }
}

} // verus!
