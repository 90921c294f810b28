//! Explicit model of the graphics device context.
//!
//! The device hands out non-zero integer handles for GPU objects and keeps
//! the implicit "current binding" per object kind. Modelling that state as
//! an explicit value makes the binding and lifetime discipline of the
//! wrappers provable: handles are allocated in increasing order, are never
//! handed out twice, and each is released exactly once.

use vstd::prelude::*;

verus! {

/// The errors this layer reports.
#[derive(Clone, Copy, Debug, PartialEq, Eq, Structural)]
pub enum GlError {
    /// Handle allocation returned the zero sentinel: the device has no
    /// handle left to give. Fatal for the session.
    DeviceResource,
    /// A raw attribute-type code that the layout tables do not cover.
    UnsupportedAttributeType,
    /// A caller contract was broken: an empty or mis-sized payload, a
    /// buffer whose byte length is no multiple of the layout stride, a
    /// buffer of the wrong kind, or a second association of a vertex
    /// array.
    PreconditionViolation,
}

/// One graphics device context, owned by a single thread.
///
/// Handles start at 1 and grow by one per allocation, up to a fixed
/// limit; once the limit is reached, allocation yields the zero sentinel.
/// `live` holds the handles that were allocated and not yet released.
pub struct Device {
    next_handle: u32,
    limit: u32,
    live: Vec<u32>,
    bound_array_buffer: u32,
    bound_element_buffer: u32,
    bound_vertex_array: u32,
}

impl Device {
    /// The handles currently allocated and not yet released, in
    /// allocation order.
    pub closed spec fn live_handles(&self) -> Seq<u32> {
        self.live@
    }

    /// Whether `h` is an allocated, unreleased handle.
    pub open spec fn is_live(&self, h: u32) -> bool {
        self.live_handles().contains(h)
    }

    /// How many handles were ever allocated.
    pub closed spec fn handles_allocated(&self) -> int {
        self.next_handle - 1
    }

    /// The most handles this device will ever allocate.
    pub closed spec fn handle_limit(&self) -> u32 {
        self.limit
    }

    /// A device that has no handle left to give.
    pub open spec fn exhausted(&self) -> bool {
        self.handles_allocated() >= self.handle_limit()
    }

    /// The buffer handle currently bound as the vertex-data target
    /// (0 for none).
    pub closed spec fn array_buffer_binding(&self) -> u32 {
        self.bound_array_buffer
    }

    /// The buffer handle currently bound as the index-data target
    /// (0 for none).
    pub closed spec fn element_buffer_binding(&self) -> u32 {
        self.bound_element_buffer
    }

    /// The vertex-array handle currently bound (0 for none).
    pub closed spec fn vertex_array_binding(&self) -> u32 {
        self.bound_vertex_array
    }

    /// Internal consistency: handles are non-zero, unique, and below the
    /// allocation cursor, which never passes the limit by more than one.
    pub closed spec fn wf(&self) -> bool {
        &&& 1 <= self.next_handle
        &&& self.limit <= u32::MAX - 1
        &&& self.next_handle <= self.limit + 1
        &&& (forall|i: int, j: int|
            0 <= i < j < self.live@.len() ==> self.live@[i] != self.live@[j])
        &&& (forall|i: int|
            0 <= i < self.live@.len() ==> 1 <= #[trigger] self.live@[i] < self.next_handle)
    }

    /// The allocation state and live-handle set of `a` and `b` agree;
    /// only the current bindings may differ.
    pub open spec fn same_resources(a: &Device, b: &Device) -> bool {
        &&& a.live_handles() == b.live_handles()
        &&& a.handles_allocated() == b.handles_allocated()
        &&& a.handle_limit() == b.handle_limit()
    }

    /// A fresh device with the full handle space and nothing bound.
    pub fn new() -> (d: Device)
        ensures
            d.wf(),
            d.handles_allocated() == 0,
            d.handle_limit() == u32::MAX - 1,
            d.live_handles() == Seq::<u32>::empty(),
            d.array_buffer_binding() == 0,
            d.element_buffer_binding() == 0,
            d.vertex_array_binding() == 0,
    {
        Device {
            next_handle: 1,
            limit: u32::MAX - 1,
            live: Vec::new(),
            bound_array_buffer: 0,
            bound_element_buffer: 0,
            bound_vertex_array: 0,
        }
    }

    /// A fresh device that will allocate at most `limit` handles.
    pub fn with_handle_limit(limit: u32) -> (d: Device)
        requires
            limit <= u32::MAX - 1,
        ensures
            d.wf(),
            d.handles_allocated() == 0,
            d.handle_limit() == limit,
            d.live_handles() == Seq::<u32>::empty(),
            d.array_buffer_binding() == 0,
            d.element_buffer_binding() == 0,
            d.vertex_array_binding() == 0,
    {
        Device {
            next_handle: 1,
            limit,
            live: Vec::new(),
            bound_array_buffer: 0,
            bound_element_buffer: 0,
            bound_vertex_array: 0,
        }
    }

    /// Allocate one handle. Yields 0 exactly when the device is
    /// exhausted; otherwise the handle is fresh, non-zero, and one past
    /// the previous allocation.
    pub(crate) fn alloc_handle(&mut self) -> (h: u32)
        requires
            old(self).wf(),
        ensures
            final(self).wf(),
            old(self).exhausted() ==> h == 0 && *final(self) == *old(self),
            !old(self).exhausted() ==> {
                &&& h == old(self).handles_allocated() + 1
                &&& h != 0
                &&& !old(self).is_live(h)
                &&& final(self).is_live(h)
                &&& final(self).live_handles() == old(self).live_handles().push(h)
                &&& (forall|x: u32| final(self).is_live(x) <==> (old(self).is_live(x) || x == h))
                &&& final(self).handles_allocated() == old(self).handles_allocated() + 1
                &&& final(self).handle_limit() == old(self).handle_limit()
                &&& final(self).array_buffer_binding() == old(self).array_buffer_binding()
                &&& final(self).element_buffer_binding() == old(self).element_buffer_binding()
                &&& final(self).vertex_array_binding() == old(self).vertex_array_binding()
            },
    {
        if self.next_handle > self.limit {
            0
        } else {
            let h = self.next_handle;
            self.next_handle = self.next_handle + 1;
            self.live.push(h);
            proof {
                let post = self.live@;
                let pre = old(self).live@;
                assert(post == pre.push(h));
                assert(post[post.len() - 1] == h);
                assert(!pre.contains(h)) by {
                    if pre.contains(h) {
                        let k = choose|k: int| 0 <= k < pre.len() && pre[k] == h;
                        assert(pre[k] < h);
                    }
                }
                assert forall|i: int| 0 <= i < post.len() implies 1 <= #[trigger] post[i]
                    < self.next_handle by {
                    if i < post.len() - 1 {
                        assert(post[i] == pre[i]);
                    }
                }
                assert forall|i: int, j: int| 0 <= i < j < post.len() implies post[i] != post[j] by {
                    if j < post.len() - 1 {
                        assert(post[i] == pre[i] && post[j] == pre[j]);
                    } else {
                        assert(post[i] == pre[i] && post[j] == h);
                        assert(pre[i] < h);
                    }
                }
                assert forall|x: u32| post.contains(x) <==> (pre.contains(x) || x == h) by {
                    if pre.contains(x) {
                        let k = choose|k: int| 0 <= k < pre.len() && pre[k] == x;
                        assert(post[k] == x);
                    }
                    if post.contains(x) && x != h {
                        let k = choose|k: int| 0 <= k < post.len() && post[k] == x;
                        assert(post[k] == pre[k]);
                    }
                }
            }
            h
        }
    }

    /// Release the live handle `h`: it leaves the live set, exactly one
    /// slot shrinks, and no other handle changes state. The allocation
    /// cursor stays where it is, so `h` is never handed out again.
    pub(crate) fn release_handle(&mut self, h: u32)
        requires
            old(self).wf(),
            old(self).is_live(h),
        ensures
            final(self).wf(),
            !final(self).is_live(h),
            final(self).live_handles().len() == old(self).live_handles().len() - 1,
            forall|x: u32| x != h ==> (final(self).is_live(x) <==> old(self).is_live(x)),
            final(self).handles_allocated() == old(self).handles_allocated(),
            final(self).handle_limit() == old(self).handle_limit(),
            final(self).array_buffer_binding() == old(self).array_buffer_binding(),
            final(self).element_buffer_binding() == old(self).element_buffer_binding(),
            final(self).vertex_array_binding() == old(self).vertex_array_binding(),
    {
        let mut i: usize = 0;
        while i < self.live.len()
            invariant
                old(self).wf(),
                old(self).is_live(h),
                *self == *old(self),
                i <= self.live@.len(),
                forall|j: int| 0 <= j < i ==> self.live@[j] != h,
            decreases self.live@.len() - i,
        {
            if self.live[i] == h {
                let ghost prelive = self.live@;
                let ghost idx = i as int;
                self.live.remove(i);
                proof {
                    let post = self.live@;
                    prelive.remove_ensures(idx);
                    assert(post == prelive.remove(idx));
                    assert(prelive[idx] == h);
                    assert forall|x: u32| x != h implies (post.contains(x) <==> prelive.contains(
                        x,
                    )) by {
                        if prelive.contains(x) {
                            let k = choose|k: int| 0 <= k < prelive.len() && prelive[k] == x;
                            if k < idx {
                                assert(post[k] == x);
                            } else {
                                assert(k != idx);
                                assert(post[k - 1] == x);
                            }
                        }
                        if post.contains(x) {
                            let k = choose|k: int| 0 <= k < post.len() && post[k] == x;
                            if k < idx {
                                assert(prelive[k] == x);
                            } else {
                                assert(prelive[k + 1] == x);
                            }
                        }
                    }
                    assert(!post.contains(h)) by {
                        if post.contains(h) {
                            let k = choose|k: int| 0 <= k < post.len() && post[k] == h;
                            if k < idx {
                                assert(prelive[k] == h);
                            } else {
                                assert(prelive[k + 1] == h);
                            }
                        }
                    }
                    assert forall|a: int, b: int| 0 <= a < b < post.len() implies post[a]
                        != post[b] by {
                        let a2 = if a < idx {
                            a
                        } else {
                            a + 1
                        };
                        let b2 = if b < idx {
                            b
                        } else {
                            b + 1
                        };
                        assert(post[a] == prelive[a2] && post[b] == prelive[b2]);
                    }
                    assert forall|j: int| 0 <= j < post.len() implies 1 <= #[trigger] post[j]
                        < self.next_handle by {
                        let j2 = if j < idx {
                            j
                        } else {
                            j + 1
                        };
                        assert(post[j] == prelive[j2]);
                    }
                }
                return ;
            }
            i = i + 1;
        }
        proof {
            let prelive = old(self).live@;
            let k = choose|k: int| 0 <= k < prelive.len() && prelive[k] == h;
            assert(false);
        }
    }

    /// Make `h` the current vertex-data buffer binding.
    pub(crate) fn set_array_buffer_binding(&mut self, h: u32)
        requires
            old(self).wf(),
        ensures
            final(self).wf(),
            final(self).array_buffer_binding() == h,
            final(self).element_buffer_binding() == old(self).element_buffer_binding(),
            final(self).vertex_array_binding() == old(self).vertex_array_binding(),
            Device::same_resources(old(self), final(self)),
    {
        self.bound_array_buffer = h;
    }

    /// Make `h` the current index-data buffer binding.
    pub(crate) fn set_element_buffer_binding(&mut self, h: u32)
        requires
            old(self).wf(),
        ensures
            final(self).wf(),
            final(self).element_buffer_binding() == h,
            final(self).array_buffer_binding() == old(self).array_buffer_binding(),
            final(self).vertex_array_binding() == old(self).vertex_array_binding(),
            Device::same_resources(old(self), final(self)),
    {
        self.bound_element_buffer = h;
    }

    /// Make `h` the current vertex-array binding.
    pub(crate) fn set_vertex_array_binding(&mut self, h: u32)
        requires
            old(self).wf(),
        ensures
            final(self).wf(),
            final(self).vertex_array_binding() == h,
            final(self).array_buffer_binding() == old(self).array_buffer_binding(),
            final(self).element_buffer_binding() == old(self).element_buffer_binding(),
            Device::same_resources(old(self), final(self)),
    {
        self.bound_vertex_array = h;
    }

    /// The buffer handle currently bound as the vertex-data target.
    pub fn bound_array_buffer(&self) -> (h: u32)
        ensures
            h == self.array_buffer_binding(),
    {
        self.bound_array_buffer
    }

    /// The buffer handle currently bound as the index-data target.
    pub fn bound_element_buffer(&self) -> (h: u32)
        ensures
            h == self.element_buffer_binding(),
    {
        self.bound_element_buffer
    }

    /// The vertex-array handle currently bound.
    pub fn bound_vertex_array(&self) -> (h: u32)
        ensures
            h == self.vertex_array_binding(),
    {
        self.bound_vertex_array
    }

    /// Whether `h` is an allocated, unreleased handle.
    pub fn handle_is_live(&self, h: u32) -> (r: bool)
        ensures
            r == self.is_live(h),
    {
        let mut i: usize = 0;
        while i < self.live.len()
            invariant
                i <= self.live@.len(),
                forall|j: int| 0 <= j < i ==> self.live@[j] != h,
            decreases self.live@.len() - i,
        {
            if self.live[i] == h {
                return true;
            }
            i = i + 1;
        }
        false
    }

    /// How many handles are currently live.
    pub fn live_handle_count(&self) -> (n: usize)
        ensures
            n == self.live_handles().len(),
    {
        self.live.len()
    }
}

} // verus!
