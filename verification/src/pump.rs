//! Decisions of the background frame pump.
//!
//! The pump's worker thread owns the camera and loops: it stops when asked
//! to, answers queued single-frame capture requests, parks while paused,
//! and otherwise streams frames to its sink. The thread, the camera reads
//! and the sleeps belong to the platform layer; each decision of the loop is
//! taken here.

use vstd::prelude::*;

use crate::error::Error;
use crate::frame::{Frame, FrameView};

verus! {

/// What the worker does next.
#[derive(Clone, Copy, Debug, PartialEq, Eq)]
pub enum PumpAction {
    /// Leave the loop; the camera is released.
    Stop,
    /// Answer every queued capture request, each with one fresh frame.
    ServeCaptures,
    /// Sleep for the paused poll interval, reading no frame.
    Park,
    /// Read the next frame for the sink.
    Pull,
}

/// The worker's choice: a stop request wins over everything, queued
/// captures are served whether or not the pump is active, a paused pump
/// parks, and an active one reads the next frame.
pub open spec fn next_pump_action_spec(shutdown: bool, capture_pending: bool, active: bool) -> PumpAction {
    if shutdown {
        PumpAction::Stop
    } else if capture_pending {
        PumpAction::ServeCaptures
    } else if !active {
        PumpAction::Park
    } else {
        PumpAction::Pull
    }
}

/// Chooses the worker's next action from the stop flag, whether a capture
/// request is queued, and the active flag.
pub fn next_pump_action(shutdown: bool, capture_pending: bool, active: bool) -> (action: PumpAction)
    ensures
        action == next_pump_action_spec(shutdown, capture_pending, active),
        shutdown ==> action == PumpAction::Stop,
        !shutdown && capture_pending ==> action == PumpAction::ServeCaptures,
        action == PumpAction::Pull ==> active,
{
    if shutdown {
        PumpAction::Stop
    } else if capture_pending {
        PumpAction::ServeCaptures
    } else if !active {
        PumpAction::Park
    } else {
        PumpAction::Pull
    }
}

/// What the worker does with the result of a streaming read.
pub enum StreamRead {
    /// Hand the frame to the sink and continue.
    Deliver(Frame),
    /// The read timed out; try again.
    Retry,
    /// The camera failed; leave the loop.
    Stop,
}

/// Sorts the result of a streaming read: a frame goes to the sink, a
/// timeout is retried, any other error stops the pump.
pub fn after_stream_read(result: Result<Frame, Error>) -> (next: StreamRead)
    ensures
        match result {
            Ok(f) => next matches StreamRead::Deliver(g) && g@ == f@,
            Err(Error::Timeout) => next is Retry,
            Err(_) => next is Stop,
        },
{
    match result {
        Ok(frame) => StreamRead::Deliver(frame),
        Err(Error::Timeout) => StreamRead::Retry,
        Err(_) => StreamRead::Stop,
    }
}

/// Outcome of one capture request: the frame handed to the sink (so
/// listeners see captured frames too) and the frame sent back to the
/// requester.
pub struct CaptureOutcome {
    /// Frame for the sink, if the read succeeded.
    pub for_sink: Option<Frame>,
    /// Frame for the requester, if the read succeeded.
    pub reply: Option<Frame>,
}

/// Answers a capture request from the result of its read: on success the
/// same frame goes to the sink and back to the requester; on any error
/// (a timeout included) the requester gets `None` and the sink nothing.
pub fn capture_outcome(result: Result<Frame, Error>) -> (outcome: CaptureOutcome)
    ensures
        match result {
            Ok(f) => (outcome.for_sink matches Some(s) && s@ == f@) && (outcome.reply matches Some(
                r,
            ) && r@ == f@),
            Err(_) => outcome.for_sink is None && outcome.reply is None,
        },
{
    match result {
        Ok(frame) => {
            let for_sink = frame.share();
            CaptureOutcome { for_sink: Some(for_sink), reply: Some(frame) }
        },
        Err(_) => CaptureOutcome { for_sink: None, reply: None },
    }
}

/// What a read of the camera gave.
pub enum ReadResult {
    /// A frame.
    Frame(FrameView),
    /// The read timed out.
    Timeout,
    /// Any other error.
    Failure,
}

/// One pass of the worker loop: the flags it found and what its reads gave.
pub struct PumpTick {
    /// The stop flag.
    pub shutdown: bool,
    /// Whether a capture request was queued.
    pub capture_pending: bool,
    /// The active flag.
    pub active: bool,
    /// Results of the reads made for the queued capture requests, one per
    /// request, in queue order; used when the pass serves captures.
    pub captures: Seq<ReadResult>,
    /// Result of the streaming read, used when the pass reads for the sink.
    pub read: ReadResult,
}

/// What the worker has done for the sink so far.
pub struct PumpRun {
    /// Frames handed to the sink, by captures and streaming reads, in order.
    pub delivered: Seq<FrameView>,
    /// Camera reads made.
    pub reads: nat,
    /// The worker has left its loop.
    pub stopped: bool,
}

/// Frames among the results of capture reads, in order: a captured frame
/// goes to the sink as well as to its requester; a failed capture sends
/// nothing to the sink and does not stop the worker.
pub open spec fn capture_frames(captures: Seq<ReadResult>) -> Seq<FrameView>
    decreases captures.len(),
{
    if captures.len() == 0 {
        seq![]
    } else {
        match captures.last() {
            ReadResult::Frame(f) => capture_frames(captures.drop_last()).push(f),
            _ => capture_frames(captures.drop_last()),
        }
    }
}

/// The worker after one more pass `t`, as [`next_pump_action`],
/// [`capture_outcome`] and [`after_stream_read`] decide it: a stopped
/// worker does nothing more; a stop request stops it; serving captures
/// reads once per request and hands each captured frame to the sink;
/// parking reads nothing; a pull reads once and delivers a frame, retries
/// after a timeout, and stops after any other error.
pub open spec fn pump_step(r: PumpRun, t: PumpTick) -> PumpRun {
    if r.stopped {
        r
    } else {
        match next_pump_action_spec(t.shutdown, t.capture_pending, t.active) {
            PumpAction::Stop => PumpRun { stopped: true, ..r },
            PumpAction::ServeCaptures => PumpRun {
                delivered: r.delivered + capture_frames(t.captures),
                reads: r.reads + t.captures.len(),
                ..r
            },
            PumpAction::Park => r,
            PumpAction::Pull => match t.read {
                ReadResult::Frame(f) => PumpRun { delivered: r.delivered.push(f), reads: r.reads + 1, ..r },
                ReadResult::Timeout => PumpRun { reads: r.reads + 1, ..r },
                ReadResult::Failure => PumpRun { reads: r.reads + 1, stopped: true, ..r },
            },
        }
    }
}

/// The worker after the passes `ticks`, from `r`.
pub open spec fn pump_run(r: PumpRun, ticks: Seq<PumpTick>) -> PumpRun
    decreases ticks.len(),
{
    if ticks.len() == 0 {
        r
    } else {
        pump_step(pump_run(r, ticks.drop_last()), ticks.last())
    }
}

/// A pass of a paused pump: no stop and no capture request.
pub open spec fn paused_tick(t: PumpTick) -> bool {
    !t.shutdown && !t.capture_pending && !t.active
}

/// A pass that does not stop the worker: no stop request, and no failed
/// streaming read.
pub open spec fn live_tick(t: PumpTick) -> bool {
    !t.shutdown && !(next_pump_action_spec(t.shutdown, t.capture_pending, t.active)
        == PumpAction::Pull && t.read is Failure)
}

/// Frames a live pass hands to the sink.
pub open spec fn tick_frames(t: PumpTick) -> Seq<FrameView> {
    match next_pump_action_spec(t.shutdown, t.capture_pending, t.active) {
        PumpAction::ServeCaptures => capture_frames(t.captures),
        PumpAction::Pull => match t.read {
            ReadResult::Frame(f) => seq![f],
            _ => seq![],
        },
        _ => seq![],
    }
}

/// Camera reads a live pass makes.
pub open spec fn tick_reads(t: PumpTick) -> nat {
    match next_pump_action_spec(t.shutdown, t.capture_pending, t.active) {
        PumpAction::ServeCaptures => t.captures.len(),
        PumpAction::Pull => 1,
        _ => 0,
    }
}

/// Frames the live passes `ticks` hand to the sink, in order.
pub open spec fn frames_delivered(ticks: Seq<PumpTick>) -> Seq<FrameView>
    decreases ticks.len(),
{
    if ticks.len() == 0 {
        seq![]
    } else {
        frames_delivered(ticks.drop_last()) + tick_frames(ticks.last())
    }
}

/// Camera reads the live passes `ticks` make.
pub open spec fn reads_made(ticks: Seq<PumpTick>) -> nat
    decreases ticks.len(),
{
    if ticks.len() == 0 {
        0
    } else {
        reads_made(ticks.drop_last()) + tick_reads(ticks.last())
    }
}

/// A paused pump does no per-frame work: however many passes it makes, it
/// reads no frame and hands nothing to the sink, and it keeps running.
pub proof fn lemma_paused_pump_idles(r: PumpRun, ticks: Seq<PumpTick>)
    requires
        forall|i: int| 0 <= i < ticks.len() ==> paused_tick(#[trigger] ticks[i]),
    ensures
        pump_run(r, ticks) == r,
    decreases ticks.len(),
{
    if ticks.len() > 0 {
        lemma_paused_pump_idles(r, ticks.drop_last());
        assert(paused_tick(ticks[ticks.len() - 1]));
    }
}

/// A stopped worker stays stopped: no later pass reads or delivers.
pub proof fn lemma_stopped_pump_stays(r: PumpRun, ticks: Seq<PumpTick>)
    requires
        r.stopped,
    ensures
        pump_run(r, ticks) == r,
    decreases ticks.len(),
{
    if ticks.len() > 0 {
        lemma_stopped_pump_stays(r, ticks.drop_last());
    }
}

/// A failed streaming read stops the worker after that one read, with
/// nothing handed to the sink; with [`lemma_stopped_pump_stays`], no read
/// or delivery follows.
pub proof fn lemma_failed_read_stops(r: PumpRun, t: PumpTick)
    requires
        !r.stopped,
        next_pump_action_spec(t.shutdown, t.capture_pending, t.active) == PumpAction::Pull,
        t.read is Failure,
    ensures
        pump_step(r, t) == (PumpRun { reads: r.reads + 1, stopped: true, ..r }),
{
}

/// While the worker runs, every frame it reads reaches the sink, in order:
/// across any passes with no stop request and no failed streaming read,
/// captured frames (one read per queued request, whether the pump is active
/// or paused) and streamed frames (one read per active pass, timeouts
/// retried) are handed to the sink in the order read, paused passes read
/// nothing, and the worker keeps running.
pub proof fn lemma_worker_delivers_in_order(r: PumpRun, ticks: Seq<PumpTick>)
    requires
        !r.stopped,
        forall|i: int| 0 <= i < ticks.len() ==> live_tick(#[trigger] ticks[i]),
    ensures
        pump_run(r, ticks) == (PumpRun {
            delivered: r.delivered + frames_delivered(ticks),
            reads: r.reads + reads_made(ticks),
            stopped: false,
        }),
    decreases ticks.len(),
{
    if ticks.len() == 0 {
        assert(r.delivered + frames_delivered(ticks) =~= r.delivered);
    } else {
        let rest = ticks.drop_last();
        assert forall|i: int| 0 <= i < rest.len() implies live_tick(#[trigger] rest[i]) by {
            assert(rest[i] == ticks[i]);
        }
        lemma_worker_delivers_in_order(r, rest);
        let t = ticks.last();
        assert(live_tick(ticks[ticks.len() - 1]));
        let before = r.delivered + frames_delivered(rest);
        assert(r.delivered + frames_delivered(ticks) =~= before + tick_frames(t));
        match next_pump_action_spec(t.shutdown, t.capture_pending, t.active) {
            PumpAction::Pull => match t.read {
                ReadResult::Frame(f) => {
                    assert(before + tick_frames(t) =~= before.push(f));
                },
                _ => {
                    assert(before + tick_frames(t) =~= before);
                },
            },
            PumpAction::Park => {
                assert(before + tick_frames(t) =~= before);
            },
            _ => {},
        }
    }
}

} // verus!
