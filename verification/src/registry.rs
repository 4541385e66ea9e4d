//! Shared per-stream frame state.
//!
//! A [`FrameSlot`] holds the latest frame of one stream and the number of
//! frames published to it. A [`LatestFrame`] is a shareable handle on one
//! slot, written by the camera pump and read by the preview server; a
//! [`Registry`] files those handles by stream id.

use std::collections::HashMap;
use std::sync::Arc;

use vstd::prelude::*;
use vstd::rwlock::{RwLock, RwLockPredicate};

use crate::frame::Frame;
pub use crate::slot::FrameSlot;

verus! {

broadcast use vstd::std_specs::hash::group_hash_axioms;

/// Lock predicate of a slot: every slot value is allowed.
pub struct AnySlot;

impl RwLockPredicate<FrameSlot> for AnySlot {
    open spec fn inv(self, v: FrameSlot) -> bool {
        true
    }
}

/// Another handle on the same shared value.
///
/// Trusted: `<Arc<T> as Clone>::clone`, which returns a pointer to the same
/// allocation and so to the same value.
#[verifier::external_body]
pub(crate) fn share_arc<T>(shared: &Arc<T>) -> (copy: Arc<T>)
    ensures
        copy == *shared,
{
    shared.clone()
}

/// A shareable handle on the latest frame of one stream.
///
/// Every handle obtained for a stream shares one slot: what is published
/// through one is read through the others.
#[derive(Clone)]
pub struct LatestFrame {
    slot: Arc<RwLock<FrameSlot, AnySlot>>,
    stream: Ghost<u32>,
}

impl LatestFrame {
    /// Id of the stream this handle was filed under.
    pub closed spec fn stream_id(&self) -> u32 {
        self.stream@
    }

    fn for_stream(id: u32) -> (sink: LatestFrame)
        ensures
            sink.stream_id() == id,
    {
        LatestFrame {
            slot: Arc::new(RwLock::new(FrameSlot::new(), Ghost(AnySlot))),
            stream: Ghost(id),
        }
    }

    /// Another handle on the same slot.
    pub fn share(&self) -> (copy: LatestFrame)
        ensures
            copy == *self,
            copy.stream_id() == self.stream_id(),
    {
        LatestFrame { slot: share_arc(&self.slot), stream: Ghost(self.stream@) }
    }

    /// The latest frame with its counter, or `None` before the first publish.
    pub fn snapshot_with_counter(&self) -> Option<(Frame, u32)> {
        let handle = self.slot.acquire_read();
        let snapshot = handle.borrow().snapshot();
        handle.release_read();
        snapshot
    }
}

/// Lock predicate of a registry: every handle is filed under its own
/// stream id.
pub struct FiledById;

impl RwLockPredicate<HashMap<u32, LatestFrame>> for FiledById {
    open spec fn inv(self, m: HashMap<u32, LatestFrame>) -> bool {
        filed_by_id(m@)
    }
}

/// A shared map from stream id to the [`LatestFrame`] of that stream.
///
/// Clones share the same map.
#[derive(Clone)]
pub struct Registry {
    slots: Arc<RwLock<HashMap<u32, LatestFrame>, FiledById>>,
}

impl Registry {
    /// An empty registry.
    pub fn new() -> Registry {
        let slots: HashMap<u32, LatestFrame> = HashMap::new();
        Registry { slots: Arc::new(RwLock::new(slots, Ghost(FiledById))) }
    }

    /// Another handle on the same registry: the copy is the same shared map.
    pub fn share(&self) -> (copy: Registry)
        ensures
            copy == *self,
    {
        Registry { slots: share_arc(&self.slots) }
    }

    /// Latest frame and counter of stream `id`, or `None` when the stream
    /// has no slot or nothing was published to it yet.
    pub fn snapshot(&self, id: u32) -> Option<(Frame, u32)> {
        let handle = self.slots.acquire_read();
        let sink = match handle.borrow().get(&id) {
            Some(sink) => Some(sink.share()),
            None => None,
        };
        handle.release_read();
        match sink {
            Some(sink) => sink.snapshot_with_counter(),
            None => None,
        }
    }
}

/// Every handle of `slots` is filed under its own stream id.
pub open spec fn filed_by_id(slots: Map<u32, LatestFrame>) -> bool {
    forall|id: u32| #[trigger] slots.contains_key(id) ==> slots[id].stream_id() == id
}

/// The handle of stream `id` in the map `slots`: the one already filed
/// under `id`, which stays, or a handle on a new empty slot, which is filed
/// under `id`. Nothing else in the map changes.
pub fn file_sink(slots: &mut HashMap<u32, LatestFrame>, id: u32) -> (sink: LatestFrame)
    requires
        filed_by_id(old(slots)@),
    ensures
        sink.stream_id() == id,
        old(slots)@.contains_key(id) ==> sink == old(slots)@[id] && final(slots)@ == old(slots)@,
        !old(slots)@.contains_key(id) ==> final(slots)@ == old(slots)@.insert(id, sink),
        filed_by_id(final(slots)@),
{
    match slots.get(&id) {
        Some(existing) => existing.share(),
        None => {
            let created = LatestFrame::for_stream(id);
            slots.insert(id, created.share());
            created
        },
    }
}

/// Drops the handle filed under `id` from `slots`, and only that one.
pub fn unfile_sink(slots: &mut HashMap<u32, LatestFrame>, id: u32)
    requires
        filed_by_id(old(slots)@),
    ensures
        final(slots)@ == old(slots)@.remove(id),
        filed_by_id(final(slots)@),
{
    let _ = slots.remove(&id);
}

/// The [`LatestFrame`] of stream `id`, created and filed when the registry
/// has none; see [`file_sink`] for what happens to the registry's map.
pub fn get_or_create_sink(registry: &Registry, id: u32) -> (sink: LatestFrame)
    ensures
        sink.stream_id() == id,
{
    let (mut slots, handle) = registry.slots.acquire_write();
    let sink = file_sink(&mut slots, id);
    handle.release_write(slots);
    sink
}

/// Drops the registry's slot for `id`; see [`unfile_sink`].
///
/// Handles already given out keep working; later [`get_or_create_sink`]
/// calls for `id` create a fresh slot.
pub fn remove_sink(registry: &Registry, id: u32) {
    let (mut slots, handle) = registry.slots.acquire_write();
    unfile_sink(&mut slots, id);
    handle.release_write(slots);
}

/// Publishes `frame` as the latest frame of `sink`, replacing the previous
/// one and advancing the sink's counter by one (wrapping at 2^32).
pub fn publish_frame(sink: &LatestFrame, frame: Frame) {
    let (mut slot, handle) = sink.slot.acquire_write();
    slot.publish(frame);
    handle.release_write(slot);
}

} // verus!
