//! Device buffers and vertex layouts.
//!
//! A `Buffer` owns one device buffer handle and remembers the byte length
//! of the payload uploaded at creation. A `VertexBufferLayout` is an
//! append-only description of one vertex record: per attribute a component
//! count and a scalar type, from which the total stride and each
//! attribute's byte offset are computed — attributes are tightly packed,
//! with no padding beyond the scalar size.

use vstd::prelude::*;

use crate::device::{Device, GlError};
use crate::{normalised_for, scalar_size, GLType};

verus! {

/// What a device buffer holds: vertex records or element indices. The
/// kind is fixed at creation and decides which binding target the buffer
/// uses.
#[derive(Clone, Copy, Debug, PartialEq, Eq, Structural)]
pub enum BufferKind {
    VertexData,
    IndexData,
}

/// Owns one device buffer handle. The payload is uploaded once at
/// creation and never rewritten; only the current-binding state of the
/// device changes afterwards.
#[derive(Debug)]
pub struct Buffer {
    renderer_id: u32,
    buffer_type: BufferKind,
    byte_len: usize,
}

impl Buffer {
    /// The device handle this buffer owns.
    pub closed spec fn handle(&self) -> u32 {
        self.renderer_id
    }

    /// The kind fixed at creation.
    pub closed spec fn kind(&self) -> BufferKind {
        self.buffer_type
    }

    /// The byte length of the payload uploaded at creation.
    pub closed spec fn byte_length(&self) -> usize {
        self.byte_len
    }

    /// A buffer that may be used with `dev`: its handle is non-zero and
    /// still live, and it was created from a non-empty payload.
    pub open spec fn valid(&self, dev: &Device) -> bool {
        &&& self.handle() != 0
        &&& dev.is_live(self.handle())
        &&& self.byte_length() > 0
    }

    /// Allocate a handle and record an upload of `byte_len` bytes; the
    /// fresh buffer becomes the current binding of its kind, as an upload
    /// must bind its target first.
    pub(crate) fn with_len(dev: &mut Device, buffer_type: BufferKind, byte_len: usize) -> (r:
        Result<Buffer, GlError>)
        requires
            old(dev).wf(),
            byte_len > 0,
        ensures
            final(dev).wf(),
            old(dev).exhausted() ==> r == Err::<Buffer, GlError>(GlError::DeviceResource) && *final(dev) == *old(dev),
            !old(dev).exhausted() ==> {
                &&& r is Ok
                &&& r->Ok_0.handle() == old(dev).handles_allocated() + 1
                &&& r->Ok_0.handle() != 0
                &&& !old(dev).is_live(r->Ok_0.handle())
                &&& r->Ok_0.kind() == buffer_type
                &&& r->Ok_0.byte_length() == byte_len
                &&& r->Ok_0.valid(final(dev))
                &&& final(dev).live_handles() == old(dev).live_handles().push(r->Ok_0.handle())
                &&& (forall|x: u32| final(dev).is_live(x) <==> (old(dev).is_live(x) || x == r->Ok_0.handle()))
                &&& final(dev).handles_allocated() == old(dev).handles_allocated() + 1
                &&& final(dev).handle_limit() == old(dev).handle_limit()
                &&& (buffer_type == BufferKind::VertexData ==> final(dev).array_buffer_binding()
                    == r->Ok_0.handle() && final(dev).element_buffer_binding() == old(dev).element_buffer_binding())
                &&& (buffer_type == BufferKind::IndexData ==> final(dev).element_buffer_binding()
                    == r->Ok_0.handle() && final(dev).array_buffer_binding() == old(dev).array_buffer_binding())
                &&& final(dev).vertex_array_binding() == old(dev).vertex_array_binding()
            },
    {
        let h = dev.alloc_handle();
        if h == 0 {
            Err(GlError::DeviceResource)
        } else {
            match buffer_type {
                BufferKind::VertexData => dev.set_array_buffer_binding(h),
                BufferKind::IndexData => dev.set_element_buffer_binding(h),
            }
            Ok(Buffer { renderer_id: h, buffer_type, byte_len })
        }
    }

    /// Create a buffer of the given kind by uploading `data`. `size` is
    /// the caller's claim of the payload's byte length and must equal the
    /// true one; an empty payload is rejected. On success the buffer owns
    /// a fresh non-zero handle and is left bound as the current target of
    /// its kind.
    pub fn new(dev: &mut Device, buffer_type: BufferKind, data: &[u8], size: usize) -> (r: Result<
        Buffer,
        GlError,
    >)
        requires
            old(dev).wf(),
        ensures
            final(dev).wf(),
            data@.len() == 0 || size != data@.len() ==> r == Err::<Buffer, GlError>(
                GlError::PreconditionViolation,
            ) && *final(dev) == *old(dev),
            data@.len() > 0 && size == data@.len() && old(dev).exhausted() ==> r == Err::<
                Buffer,
                GlError,
            >(GlError::DeviceResource) && *final(dev) == *old(dev),
            data@.len() > 0 && size == data@.len() && !old(dev).exhausted() ==> {
                &&& r is Ok
                &&& r->Ok_0.handle() == old(dev).handles_allocated() + 1
                &&& !old(dev).is_live(r->Ok_0.handle())
                &&& r->Ok_0.kind() == buffer_type
                &&& r->Ok_0.byte_length() == size
                &&& r->Ok_0.valid(final(dev))
                &&& final(dev).live_handles() == old(dev).live_handles().push(r->Ok_0.handle())
                &&& (forall|x: u32| final(dev).is_live(x) <==> (old(dev).is_live(x) || x == r->Ok_0.handle()))
                &&& final(dev).handles_allocated() == old(dev).handles_allocated() + 1
                &&& final(dev).handle_limit() == old(dev).handle_limit()
                &&& (buffer_type == BufferKind::VertexData ==> final(dev).array_buffer_binding()
                    == r->Ok_0.handle() && final(dev).element_buffer_binding() == old(dev).element_buffer_binding())
                &&& (buffer_type == BufferKind::IndexData ==> final(dev).element_buffer_binding()
                    == r->Ok_0.handle() && final(dev).array_buffer_binding() == old(dev).array_buffer_binding())
                &&& final(dev).vertex_array_binding() == old(dev).vertex_array_binding()
            },
    {
        if data.len() == 0 || size != data.len() {
            return Err(GlError::PreconditionViolation);
        }
        Buffer::with_len(dev, buffer_type, size)
    }

    /// Make this buffer the current target of its kind.
    pub fn bind(&self, dev: &mut Device)
        requires
            old(dev).wf(),
            self.valid(old(dev)),
        ensures
            final(dev).wf(),
            self.kind() == BufferKind::VertexData ==> final(dev).array_buffer_binding()
                == self.handle() && final(dev).element_buffer_binding() == old(dev).element_buffer_binding(),
            self.kind() == BufferKind::IndexData ==> final(dev).element_buffer_binding()
                == self.handle() && final(dev).array_buffer_binding() == old(dev).array_buffer_binding(),
            final(dev).vertex_array_binding() == old(dev).vertex_array_binding(),
            Device::same_resources(old(dev), final(dev)),
    {
        match self.buffer_type {
            BufferKind::VertexData => dev.set_array_buffer_binding(self.renderer_id),
            BufferKind::IndexData => dev.set_element_buffer_binding(self.renderer_id),
        }
    }

    /// Clear the current binding of this buffer's kind.
    pub fn un_bind(&self, dev: &mut Device)
        requires
            old(dev).wf(),
        ensures
            final(dev).wf(),
            self.kind() == BufferKind::VertexData ==> final(dev).array_buffer_binding() == 0
                && final(dev).element_buffer_binding() == old(dev).element_buffer_binding(),
            self.kind() == BufferKind::IndexData ==> final(dev).element_buffer_binding() == 0
                && final(dev).array_buffer_binding() == old(dev).array_buffer_binding(),
            final(dev).vertex_array_binding() == old(dev).vertex_array_binding(),
            Device::same_resources(old(dev), final(dev)),
    {
        match self.buffer_type {
            BufferKind::VertexData => dev.set_array_buffer_binding(0),
            BufferKind::IndexData => dev.set_element_buffer_binding(0),
        }
    }

    /// Give the handle back to the device. Consumes the buffer, so the
    /// handle is released exactly once: no second call can be written,
    /// and the device forgets exactly this one handle.
    pub fn release(self, dev: &mut Device)
        requires
            old(dev).wf(),
            self.valid(old(dev)),
        ensures
            final(dev).wf(),
            !final(dev).is_live(self.handle()),
            final(dev).live_handles().len() == old(dev).live_handles().len() - 1,
            forall|x: u32| x != self.handle() ==> (final(dev).is_live(x) <==> old(dev).is_live(x)),
            final(dev).handles_allocated() == old(dev).handles_allocated(),
            final(dev).handle_limit() == old(dev).handle_limit(),
            final(dev).array_buffer_binding() == old(dev).array_buffer_binding(),
            final(dev).element_buffer_binding() == old(dev).element_buffer_binding(),
            final(dev).vertex_array_binding() == old(dev).vertex_array_binding(),
    {
        dev.release_handle(self.renderer_id);
    }

    /// The device handle this buffer owns.
    pub fn renderer_id(&self) -> (r: u32)
        ensures
            r == self.handle(),
    {
        self.renderer_id
    }

    /// The kind fixed at creation.
    pub fn buffer_type(&self) -> (r: BufferKind)
        ensures
            r == self.kind(),
    {
        self.buffer_type
    }

    /// The byte length of the payload uploaded at creation.
    pub fn byte_len(&self) -> (r: usize)
        ensures
            r == self.byte_length(),
    {
        self.byte_len
    }
}

/// One attribute of a vertex record: `count` components of scalar type
/// `element_type`, starting `offset` bytes into the record. The
/// normalization flag follows the fixed per-type policy.
#[derive(Clone, Copy, Debug, PartialEq, Eq, Structural)]
pub struct VertexBufferElement {
    pub count: u32,
    pub element_type: GLType,
    pub normalised: bool,
    pub offset: u32,
}

impl VertexBufferElement {
    /// Byte width of one scalar of this element's type.
    pub fn get_size(&self) -> (r: u32)
        ensures
            r == scalar_size(self.element_type),
    {
        self.element_type.size()
    }
}

/// Total byte size of the vertex record described by `s`: the sum over
/// all elements of component count times scalar size.
pub open spec fn stride_of(s: Seq<VertexBufferElement>) -> int
    decreases s.len(),
{
    if s.len() == 0 {
        0
    } else {
        stride_of(s.drop_last()) + s.last().count * scalar_size(s.last().element_type)
    }
}

/// Byte offsets never decrease along a layout: the prefix sums of
/// non-negative attribute sizes grow monotonically, starting from an
/// empty prefix of size zero.
pub proof fn lemma_offsets_monotonic(s: Seq<VertexBufferElement>, j: int, k: int)
    requires
        0 <= j <= k <= s.len(),
    ensures
        stride_of(s.take(j)) <= stride_of(s.take(k)),
    decreases k - j,
{
    if j < k {
        lemma_offsets_monotonic(s, j, k - 1);
        assert(s.take(k).drop_last() =~= s.take(k - 1));
        assert(stride_of(s.take(k)) == stride_of(s.take(k - 1)) + s[k - 1].count * scalar_size(
            s[k - 1].element_type,
        ));
    }
}

/// The offset of the first attribute of any layout is zero.
pub proof fn lemma_offsets_start_at_zero(s: Seq<VertexBufferElement>)
    ensures
        stride_of(s.take(0)) == 0,
{
    assert(s.take(0).len() == 0);
}

/// An attribute with zero components contributes nothing: the attribute
/// after it sits at the same byte offset.
pub proof fn lemma_zero_count_same_offset(s: Seq<VertexBufferElement>, k: int)
    requires
        0 <= k < s.len(),
        s[k].count == 0,
    ensures
        stride_of(s.take(k + 1)) == stride_of(s.take(k)),
{
    assert(s.take(k + 1).drop_last() =~= s.take(k));
    assert(s.take(k + 1).last() == s[k]);
}

/// An ordered, append-only description of one vertex record. The stride
/// accumulates as elements are pushed, and each element records the
/// offset at which it starts.
pub struct VertexBufferLayout {
    elements: Vec<VertexBufferElement>,
    stride: u32,
}

impl VertexBufferLayout {
    /// The elements pushed so far, in order.
    pub closed spec fn elements_seq(&self) -> Seq<VertexBufferElement> {
        self.elements@
    }

    /// The accumulated stride.
    pub closed spec fn stride_spec(&self) -> u32 {
        self.stride
    }

    /// The layout invariant: the stride is the sum of all element sizes,
    /// each element's offset is the sum of the sizes before it, and each
    /// normalization flag follows the fixed per-type policy.
    pub open spec fn wf(&self) -> bool {
        &&& self.stride_spec() == stride_of(self.elements_seq())
        &&& self.elements_seq().len() <= u32::MAX
        &&& (forall|i: int|
            0 <= i < self.elements_seq().len() ==> #[trigger] self.elements_seq()[i].offset
                == stride_of(self.elements_seq().take(i)))
        &&& (forall|i: int|
            0 <= i < self.elements_seq().len() ==> #[trigger] self.elements_seq()[i].normalised
                == normalised_for(self.elements_seq()[i].element_type))
    }

    /// An empty layout with stride zero.
    pub fn new() -> (l: VertexBufferLayout)
        ensures
            l.wf(),
            l.elements_seq() == Seq::<VertexBufferElement>::empty(),
            l.stride_spec() == 0,
    {
        VertexBufferLayout { elements: Vec::new(), stride: 0 }
    }

    /// Append one attribute of `count` components of type `e_type`. The
    /// new element starts at the old stride, and the stride grows by
    /// `count` times the scalar size.
    pub fn push(&mut self, count: u32, e_type: GLType)
        requires
            old(self).wf(),
            old(self).elements_seq().len() < u32::MAX,
            old(self).stride_spec() + count * scalar_size(e_type) <= u32::MAX,
        ensures
            final(self).wf(),
            final(self).elements_seq() == old(self).elements_seq().push(
                (VertexBufferElement {
                    count,
                    element_type: e_type,
                    normalised: normalised_for(e_type),
                    offset: old(self).stride_spec(),
                }),
            ),
            final(self).stride_spec() == old(self).stride_spec() + count * scalar_size(e_type),
    {
        let size = e_type.size();
        let normalised = e_type.normalised();
        let offset = self.stride;
        self.stride = self.stride + count * size;
        self.elements.push(VertexBufferElement { count, element_type: e_type, normalised, offset });
        proof {
            let pre = old(self).elements_seq();
            let post = self.elements@;
            assert(post.drop_last() =~= pre);
            assert(post.last() == (VertexBufferElement {
                count,
                element_type: e_type,
                normalised: normalised_for(e_type),
                offset: old(self).stride_spec(),
            }));
            assert forall|i: int| 0 <= i < post.len() implies #[trigger] post[i].offset
                == stride_of(post.take(i)) by {
                if i < post.len() - 1 {
                    assert(post.take(i) =~= pre.take(i));
                    assert(post[i] == pre[i]);
                } else {
                    assert(post.take(i) =~= pre);
                }
            }
        }
    }

    /// The total byte size of one vertex record: under the layout
    /// invariant, exactly the sum of component count times scalar size
    /// over all elements pushed.
    pub fn get_stride(&self) -> (r: u32)
        ensures
            r == self.stride_spec(),
            self.wf() ==> r == stride_of(self.elements_seq()),
    {
        self.stride
    }

    /// The elements pushed so far, in order.
    pub fn get_elements(&self) -> (r: &Vec<VertexBufferElement>)
        ensures
            r@ == self.elements_seq(),
    {
        &self.elements
    }
}

} // verus!
