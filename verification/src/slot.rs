//! The latest frame of one stream and the number of frames published to
//! it.
//!
//! A slot's fields are private to this module: a frame is published only
//! through [`FrameSlot::publish`] and read only through
//! [`FrameSlot::snapshot`], whose contracts are exact.

use vstd::prelude::*;

use crate::frame::{Frame, FrameView};

verus! {

/// Latest frame of a stream and the number of frames published to it.
pub struct FrameSlot {
    frame: Option<Frame>,
    counter: u32,
}

/// The value of a slot.
pub struct SlotView {
    /// The latest frame, if any was published.
    pub frame: Option<FrameView>,
    /// Frames published so far, modulo 2^32.
    pub counter: u32,
}

/// View of an optional frame.
pub open spec fn frame_option_view(frame: Option<Frame>) -> Option<FrameView> {
    match frame {
        Some(f) => Some(f@),
        None => None,
    }
}

impl View for FrameSlot {
    type V = SlotView;

    closed spec fn view(&self) -> SlotView {
        SlotView { frame: frame_option_view(self.frame), counter: self.counter }
    }
}

/// A slot to which nothing was published.
pub open spec fn empty_slot() -> SlotView {
    SlotView { frame: None, counter: 0 }
}

/// `s` after publishing `f`: `f` replaces the previous frame and the
/// counter advances by one, wrapping at 2^32.
pub open spec fn published(s: SlotView, f: FrameView) -> SlotView {
    SlotView { frame: Some(f), counter: ((s.counter + 1) % 0x1_0000_0000) as u32 }
}

/// What a reader of `s` sees: the latest frame with the counter, or nothing
/// before the first publish.
pub open spec fn slot_snapshot(s: SlotView) -> Option<(FrameView, u32)> {
    match s.frame {
        Some(f) => Some((f, s.counter)),
        None => None,
    }
}

/// View of a snapshot.
pub open spec fn snapshot_view(snapshot: Option<(Frame, u32)>) -> Option<(FrameView, u32)> {
    match snapshot {
        Some((f, c)) => Some((f@, c)),
        None => None,
    }
}

/// `s` after publishing every frame of `frames` in order.
pub open spec fn published_all(s: SlotView, frames: Seq<FrameView>) -> SlotView
    decreases frames.len(),
{
    if frames.len() == 0 {
        s
    } else {
        published(published_all(s, frames.drop_last()), frames.last())
    }
}

impl FrameSlot {
    /// An empty slot.
    pub fn new() -> (slot: FrameSlot)
        ensures
            slot@ == empty_slot(),
    {
        FrameSlot { frame: None, counter: 0 }
    }

    /// Makes `frame` the latest frame and advances the counter.
    pub fn publish(&mut self, frame: Frame)
        ensures
            final(self)@ == published(old(self)@, frame@),
    {
        self.frame = Some(frame);
        self.counter = self.counter.wrapping_add(1);
    }

    /// The latest frame (sharing its planes) with the counter, or `None`
    /// before the first publish.
    pub fn snapshot(&self) -> (snapshot: Option<(Frame, u32)>)
        ensures
            snapshot_view(snapshot) == slot_snapshot(self@),
    {
        match &self.frame {
            Some(frame) => Some((frame.share(), self.counter)),
            None => None,
        }
    }
}

/// A reader sees the frame that the last publish wrote, and the counter
/// that publish produced.
pub proof fn lemma_snapshot_after_publish(s: SlotView, f: FrameView)
    ensures
        slot_snapshot(published(s, f)) == Some((f, ((s.counter + 1) % 0x1_0000_0000) as u32)),
{
}

/// The counter of a fresh slot counts the publishes, modulo 2^32, and the
/// latest frame is the one published last.
pub proof fn lemma_counter_counts_publishes(frames: Seq<FrameView>)
    ensures
        published_all(empty_slot(), frames).counter == frames.len() % 0x1_0000_0000,
        frames.len() == 0 ==> published_all(empty_slot(), frames).frame is None,
        frames.len() > 0 ==> published_all(empty_slot(), frames).frame == Some(frames.last()),
    decreases frames.len(),
{
    if frames.len() > 0 {
        lemma_counter_counts_publishes(frames.drop_last());
    }
}

} // verus!
