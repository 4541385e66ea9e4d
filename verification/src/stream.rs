//! Lifecycle of one preview stream.
//!
//! Each change of a stream's source starts a connect attempt on a worker
//! thread. Attempts cannot be cancelled, so every attempt carries the
//! generation current when it started, and a result is taken only while
//! that generation is still current: the latest source always wins.

use vstd::prelude::*;
use vstd::std_specs::cmp::PartialEqSpecImpl;

use crate::error::{error_message, Error};

verus! {

/// The lifecycle state of a stream.
#[derive(Clone, Debug)]
pub enum StreamStatus {
    /// No source is set.
    Idle,
    /// A source is set and is being opened.
    Connecting {
        /// Human-readable label of the source being opened.
        label: String,
    },
    /// The camera is open and the pump runs (or is paused but ready).
    Streaming {
        /// Human-readable label of the active source.
        label: String,
    },
    /// The last connect attempt failed.
    Failed {
        /// The error of the attempt.
        error: Error,
    },
}

/// Two statuses are equal when they are the same variant with the same
/// label, or two failures whose errors read the same.
pub open spec fn status_eq(a: StreamStatus, b: StreamStatus) -> bool {
    match a {
        StreamStatus::Idle => b is Idle,
        StreamStatus::Connecting { label: x } => match b {
            StreamStatus::Connecting { label: y } => x@ == y@,
            _ => false,
        },
        StreamStatus::Streaming { label: x } => match b {
            StreamStatus::Streaming { label: y } => x@ == y@,
            _ => false,
        },
        StreamStatus::Failed { error: x } => match b {
            StreamStatus::Failed { error: y } => error_message(x) == error_message(y),
            _ => false,
        },
    }
}

impl PartialEq for StreamStatus {
    fn eq(&self, other: &Self) -> (equal: bool) {
        match self {
            StreamStatus::Idle => match other {
                StreamStatus::Idle => true,
                _ => false,
            },
            StreamStatus::Connecting { label: x } => match other {
                StreamStatus::Connecting { label: y } => *x == *y,
                _ => false,
            },
            StreamStatus::Streaming { label: x } => match other {
                StreamStatus::Streaming { label: y } => *x == *y,
                _ => false,
            },
            StreamStatus::Failed { error: x } => match other {
                StreamStatus::Failed { error: y } => x.message() == y.message(),
                _ => false,
            },
        }
    }
}

impl PartialEqSpecImpl for StreamStatus {
    open spec fn obeys_eq_spec() -> bool {
        true
    }

    open spec fn eq_spec(&self, other: &StreamStatus) -> bool {
        status_eq(*self, *other)
    }
}

/// Result of a connect attempt, as sent back by its worker thread.
pub enum StreamEventPayload<P> {
    /// The camera opened and its pump `pump` runs.
    Connected { pump: P, label: String },
    /// Opening the camera failed.
    Failed { error: Error },
}

/// A connect result tagged with the generation of its attempt.
pub struct StreamEvent<P> {
    /// Generation current when the attempt started.
    pub generation: u64,
    /// What the attempt produced.
    pub payload: StreamEventPayload<P>,
}

/// What a source change asks of the platform layer.
pub struct SourceChange {
    /// Status to show from now on.
    pub status: StreamStatus,
    /// Generation to tag a connect attempt with, when one must be started.
    pub connect: Option<u64>,
}

/// What taking a connect result changes.
pub struct Accepted<P> {
    /// The pump to install as the stream's pump, if the camera opened.
    pub pump: Option<P>,
    /// Status to show from now on.
    pub status: StreamStatus,
}

/// The generation counter of a stream.
pub struct StreamController {
    generation: u64,
}

/// The generation after `g`: one more, wrapping at 2^64.
pub open spec fn next_generation(g: u64) -> u64 {
    ((g + 1) % 0x1_0000_0000_0000_0000) as u64
}

impl StreamController {
    /// Generation of the latest source change.
    pub closed spec fn generation(&self) -> u64 {
        self.generation
    }

    /// A controller before any source change.
    pub fn new() -> (controller: StreamController)
        ensures
            controller.generation() == 0,
    {
        StreamController { generation: 0 }
    }

    /// Records a change of source; `label` names the new source, `None`
    /// when the source was cleared.
    ///
    /// The generation advances, which orphans every attempt in flight. A
    /// cleared source shows `Idle` and starts nothing; a new source shows
    /// `Connecting` with its label and starts an attempt tagged with the new
    /// generation. The previous pump is dropped by the caller in both cases.
    pub fn source_changed(&mut self, label: Option<String>) -> (change: SourceChange)
        ensures
            final(self).generation() == next_generation(old(self).generation()),
            final(self).generation() != old(self).generation(),
            match label {
                None => change.status is Idle && change.connect is None,
                Some(l) => (change.status matches StreamStatus::Connecting { label: shown }
                    && shown@ == l@) && change.connect == Some(final(self).generation()),
            },
    {
        self.generation = self.generation.wrapping_add(1);
        match label {
            None => SourceChange { status: StreamStatus::Idle, connect: None },
            Some(label) => SourceChange {
                status: StreamStatus::Connecting { label },
                connect: Some(self.generation),
            },
        }
    }

    /// Takes the result of a connect attempt: `None` (nothing changes) when
    /// the attempt's generation is no longer current; otherwise the pump to
    /// install and `Streaming` with the source's label when the camera
    /// opened, or no pump and `Failed` with the error.
    pub fn accept<P>(&self, event: StreamEvent<P>) -> (accepted: Option<Accepted<P>>)
        ensures
            event.generation != self.generation() ==> accepted is None,
            event.generation == self.generation() ==> match event.payload {
                StreamEventPayload::Connected { pump, label } => accepted matches Some(a) && a.pump
                    == Some(pump) && (a.status matches StreamStatus::Streaming { label: shown }
                    && shown@ == label@),
                StreamEventPayload::Failed { error } => accepted matches Some(a) && a.pump is None
                    && a.status == (StreamStatus::Failed { error }),
            },
    {
        if event.generation != self.generation {
            return None;
        }
        match event.payload {
            StreamEventPayload::Connected { pump, label } => Some(
                Accepted { pump: Some(pump), status: StreamStatus::Streaming { label } },
            ),
            StreamEventPayload::Failed { error } => Some(
                Accepted { pump: None, status: StreamStatus::Failed { error } },
            ),
        }
    }
}

/// The generation after `n` source changes starting from `g`.
pub open spec fn generation_after(g: u64, n: nat) -> u64
    decreases n,
{
    if n == 0 {
        g
    } else {
        next_generation(generation_after(g, (n - 1) as nat))
    }
}

proof fn lemma_generation_after_mod(g: u64, n: nat)
    ensures
        generation_after(g, n) == (g + n) % 0x1_0000_0000_0000_0000,
    decreases n,
{
    if n > 0 {
        lemma_generation_after_mod(g, (n - 1) as nat);
    }
}

/// The latest source wins: after one or more source changes (fewer than
/// 2^64), the generation of an attempt started before them is no longer
/// current, so [`StreamController::accept`] ignores its result.
pub proof fn lemma_latest_source_wins(started: u64, changes: nat)
    requires
        1 <= changes < 0x1_0000_0000_0000_0000,
    ensures
        generation_after(started, changes) != started,
{
    lemma_generation_after_mod(started, changes);
}

/// Text shown for a status.
pub open spec fn status_text(status: StreamStatus) -> Seq<char> {
    match status {
        StreamStatus::Idle => "Idle"@,
        StreamStatus::Connecting { label } => "Connecting to "@ + label@ + "..."@,
        StreamStatus::Streaming { label } => "Streaming: "@ + label@,
        StreamStatus::Failed { error } => "Open failed: "@ + error_message(error),
    }
}

impl StreamStatus {
    /// Text shown for this status: `Idle`, `Connecting to {label}...`,
    /// `Streaming: {label}`, or `Open failed: {error}`.
    pub fn describe(&self) -> (text: String)
        ensures
            text@ == status_text(*self),
    {
        match self {
            StreamStatus::Idle => String::from_str("Idle"),
            StreamStatus::Connecting { label } => {
                let mut text = String::from_str("Connecting to ");
                text.append(label.as_str());
                text.append("...");
                text
            },
            StreamStatus::Streaming { label } => {
                let mut text = String::from_str("Streaming: ");
                text.append(label.as_str());
                text
            },
            StreamStatus::Failed { error } => {
                let mut text = String::from_str("Open failed: ");
                let detail = error.message();
                text.append(detail.as_str());
                text
            },
        }
    }
}

} // verus!
