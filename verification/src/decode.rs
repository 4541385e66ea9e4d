//! Decisions of the hardware video decoder that the platform layer drives.
//!
//! The decoder itself is a platform transform (Media Foundation on Windows);
//! what it is fed, how its output buffers are laid out as NV12 planes, and
//! how each output attempt is answered are decided here.

use vstd::prelude::*;

use crate::annex_b::{avcc_to_annex_b, avcc_units, push_range};
use crate::error::Error;

verus! {

/// Row stride of an NV12 plane for `width`: the width rounded up to a
/// multiple of 16.
pub open spec fn nv12_stride_spec(width: nat) -> nat {
    ((width + 15) / 16) * 16
}

/// Row stride of NV12 output for a frame `width` pixels wide.
pub fn nv12_stride(width: u32) -> (stride: u32)
    requires
        width <= u32::MAX - 15,
    ensures
        stride == nv12_stride_spec(width as nat),
        stride % 16 == 0,
        width <= stride < width + 16,
{
    let sum: u32 = width + 15;
    let stride: u32 = sum & !15u32;
    assert(stride == (sum / 16) * 16) by (bit_vector)
        requires
            stride == sum & !15u32,
    ;
    stride
}

/// Bytes of the luma (Y) plane of an NV12 frame.
pub open spec fn nv12_luma_len(height: nat, stride: nat) -> nat {
    stride * height
}

/// Bytes of the interleaved chroma (UV) plane of an NV12 frame.
pub open spec fn nv12_chroma_len(height: nat, stride: nat) -> nat {
    stride * (height / 2)
}

/// A sequence of `n` zero bytes.
pub open spec fn zeros(n: nat) -> Seq<u8> {
    Seq::new(n, |i: int| 0u8)
}

fn zero_bytes(n: usize) -> (v: Vec<u8>)
    ensures
        v@ == zeros(n as nat),
{
    let mut v: Vec<u8> = Vec::with_capacity(n);
    let mut i: usize = 0;
    while i < n
        invariant
            i <= n,
            v@ == zeros(i as nat),
        decreases n - i,
    {
        v.push(0u8);
        i = i + 1;
        assert(v@ =~= zeros(i as nat));
    }
    v
}

/// Splits a decoded NV12 buffer into its Y plane and its UV plane.
///
/// `buffer` is the locked output buffer, `None` when the platform handed back
/// no memory. When the buffer holds at least the `stride * height` luma bytes
/// and the `stride * (height / 2)` chroma bytes, the planes are copied out of
/// it; otherwise both planes are zero-filled at their nominal sizes.
pub fn nv12_planes(buffer: Option<&[u8]>, height: u32, stride: u32) -> (planes: (Vec<u8>, Vec<u8>))
    requires
        nv12_luma_len(height as nat, stride as nat) + nv12_chroma_len(height as nat, stride as nat)
            <= usize::MAX,
    ensures
        ({
            let luma = nv12_luma_len(height as nat, stride as nat);
            let total = luma + nv12_chroma_len(height as nat, stride as nat);
            match buffer {
                Some(b) if b@.len() >= total => planes.0@ == b@.subrange(0, luma as int)
                    && planes.1@ == b@.subrange(luma as int, total as int),
                _ => planes.0@ == zeros(luma) && planes.1@ == zeros(
                    nv12_chroma_len(height as nat, stride as nat),
                ),
            }
        }),
{
    let h: u64 = height as u64;
    let s: u64 = stride as u64;
    assert(s * h <= 0xffff_ffff * 0xffff_ffff) by (nonlinear_arith)
        requires
            s <= 0xffff_ffff,
            h <= 0xffff_ffff,
    ;
    assert(s * (h / 2) <= s * h) by (nonlinear_arith);
    let luma: usize = (s * h) as usize;
    let chroma: usize = (s * (h / 2)) as usize;
    let total: usize = luma + chroma;
    match buffer {
        Some(b) => {
            if b.len() >= total {
                let mut y_plane: Vec<u8> = Vec::with_capacity(luma);
                push_range(&mut y_plane, b, 0, luma);
                let mut uv_plane: Vec<u8> = Vec::with_capacity(chroma);
                push_range(&mut uv_plane, b, luma, total);
                return (y_plane, uv_plane);
            }
        },
        None => {},
    }
    (zero_bytes(luma), zero_bytes(chroma))
}

/// Size of the decoded picture and row stride of its planes.
#[derive(Clone, Copy, Debug, PartialEq, Eq)]
pub struct OutputGeometry {
    /// Picture width in pixels.
    pub width: u32,
    /// Picture height in pixels.
    pub height: u32,
    /// Row stride of the planes in bytes.
    pub stride: u32,
}

/// Geometry of a newly negotiated output type.
///
/// `packed_size` is the frame-size attribute (width in the high 32 bits,
/// height in the low 32 bits); `reported_stride` is the default-stride
/// attribute when the type carries one, else the stride is derived from the
/// width with [`nv12_stride`].
pub fn output_geometry(packed_size: u64, reported_stride: Option<u32>) -> (g: OutputGeometry)
    requires
        reported_stride is None ==> packed_size / 0x1_0000_0000 <= u32::MAX - 15,
    ensures
        g.width == packed_size / 0x1_0000_0000,
        g.height == packed_size % 0x1_0000_0000,
        g.stride == match reported_stride {
            Some(s) => s as nat,
            None => nv12_stride_spec(g.width as nat),
        },
{
    let high: u64 = packed_size >> 32u64;
    let low: u64 = packed_size & 0xffff_ffffu64;
    assert(high == packed_size / 0x1_0000_0000 && low == packed_size % 0x1_0000_0000) by (
    bit_vector)
        requires
            high == packed_size >> 32u64,
            low == packed_size & 0xffff_ffffu64,
    ;
    let width: u32 = high as u32;
    let height: u32 = low as u32;
    let stride: u32 = match reported_stride {
        Some(s) => s,
        None => nv12_stride(width),
    };
    OutputGeometry { width, height, stride }
}

/// Annex B bytes submitted to the decoder for one length-prefixed access
/// unit: the stream's parameter sets followed by the converted NAL units.
///
/// `None` when the access unit holds no complete NAL unit; nothing is then
/// submitted.
pub fn decoder_input(parameter_sets: &[u8], nal: &[u8]) -> (input: Option<Vec<u8>>)
    ensures
        match input {
            None => avcc_units(nal@, 0).len() == 0,
            Some(bytes) => avcc_units(nal@, 0).len() > 0 && bytes@ == parameter_sets@ + avcc_units(
                nal@,
                0,
            ),
        },
{
    let converted = avcc_to_annex_b(nal);
    if converted.len() == 0 {
        return None;
    }
    let mut input: Vec<u8> = Vec::with_capacity(parameter_sets.len());
    push_range(&mut input, parameter_sets, 0, parameter_sets.len());
    let ghost head = input@;
    push_range(&mut input, converted.as_slice(), 0, converted.len());
    assert(parameter_sets@.subrange(0, parameter_sets@.len() as int) =~= parameter_sets@);
    assert(converted@.subrange(0, converted@.len() as int) =~= converted@);
    Some(input)
}

/// Result of one attempt to pull decoded output from the transform.
pub enum OutputAttempt {
    /// The call succeeded; `has_sample` says whether a sample came back.
    Produced { has_sample: bool },
    /// The transform needs more input before it can emit a frame.
    NeedMoreInput,
    /// The output format changed; the output type must be renegotiated.
    StreamChange,
    /// The call failed with the platform's description.
    Failed { message: String },
}

/// What the pull loop does after an attempt.
pub enum PullAction {
    /// Convert the returned sample into a frame and hand it out.
    EmitFrame,
    /// Stop pulling: no frame is available for now.
    NoFrame,
    /// Renegotiate the output type; then try again when `retry` is set,
    /// else stop pulling with no frame.
    Renegotiate { retry: bool },
    /// Stop with this error.
    Fail(Error),
}

/// Prefix of the error message of a failed output call.
pub open spec fn process_output_failed_prefix() -> Seq<char> {
    "ProcessOutput failed: "@
}

/// Number of output attempts the pull loop makes for one frame.
pub const PULL_ATTEMPTS: u32 = 4;

/// Decides how the pull loop answers output attempt number `index`
/// (counted from zero, at most [`PULL_ATTEMPTS`] per frame), given the
/// current output geometry.
///
/// A sample is emitted only when one came back and the negotiated size is
/// non-zero; a format change asks for renegotiation, followed by another
/// attempt unless this was the last one; a failure becomes a Windows
/// backend error whose message is the prefix `ProcessOutput failed: `
/// followed by the platform's description.
pub fn next_pull_action(index: u32, attempt: OutputAttempt, width: u32, height: u32) -> (action: PullAction)
    requires
        index < PULL_ATTEMPTS,
    ensures
        match attempt {
            OutputAttempt::Produced { has_sample } => if has_sample && width != 0 && height
                != 0 {
                action is EmitFrame
            } else {
                action is NoFrame
            },
            OutputAttempt::NeedMoreInput => action is NoFrame,
            OutputAttempt::StreamChange => action == (PullAction::Renegotiate {
                retry: index + 1 < PULL_ATTEMPTS,
            }),
            OutputAttempt::Failed { message } => match action {
                PullAction::Fail(e) => crate::error::is_backend(
                    e,
                    "windows"@,
                    process_output_failed_prefix() + message@,
                ),
                _ => false,
            },
        },
{
    match attempt {
        OutputAttempt::Produced { has_sample } => {
            if has_sample && width != 0 && height != 0 {
                PullAction::EmitFrame
            } else {
                PullAction::NoFrame
            }
        },
        OutputAttempt::NeedMoreInput => PullAction::NoFrame,
        OutputAttempt::StreamChange => PullAction::Renegotiate { retry: index + 1 < PULL_ATTEMPTS },
        OutputAttempt::Failed { message } => {
            let mut text = String::from_str("ProcessOutput failed: ");
            text.append(message.as_str());
            proof {
                reveal_strlit("ProcessOutput failed: ");
                reveal_strlit("windows");
            }
            PullAction::Fail(Error::Backend { platform: "windows", message: text })
        },
    }
}

/// What probing one advertised output type found.
pub enum TypeProbe {
    /// No type at the probed index: the list is exhausted.
    Exhausted,
    /// The type's subtype could not be read.
    SubtypeUnreadable,
    /// The type's subtype was read; `is_nv12` says whether it is NV12.
    Subtype { is_nv12: bool },
}

/// Next step of the search for an NV12 output type.
pub enum TypeSearchStep {
    /// Take the probed type.
    Take,
    /// Probe the type at the next index.
    ProbeNext,
    /// Stop with this error: no NV12 type is advertised.
    NotFound(Error),
}

/// Message of the error that ends a search which found no NV12 type, at
/// start-up or on a stream change.
pub open spec fn no_nv12_message(on_stream_change: bool) -> Seq<char> {
    if on_stream_change {
        "no NV12 output type available on stream change"@
    } else {
        "no NV12 output type advertised by decoder"@
    }
}

/// Decides the search for an output type after probing one index: the first
/// NV12 type is taken, types whose subtype cannot be read are skipped, and
/// an exhausted list ends the search with a Windows backend error.
pub fn next_type_search(probe: TypeProbe, on_stream_change: bool) -> (step: TypeSearchStep)
    ensures
        match probe {
            TypeProbe::Subtype { is_nv12 } => if is_nv12 {
                step is Take
            } else {
                step is ProbeNext
            },
            TypeProbe::SubtypeUnreadable => step is ProbeNext,
            TypeProbe::Exhausted => match step {
                TypeSearchStep::NotFound(e) => crate::error::is_backend(
                    e,
                    "windows"@,
                    no_nv12_message(on_stream_change),
                ),
                _ => false,
            },
        },
{
    match probe {
        TypeProbe::Subtype { is_nv12 } => {
            if is_nv12 {
                TypeSearchStep::Take
            } else {
                TypeSearchStep::ProbeNext
            }
        },
        TypeProbe::SubtypeUnreadable => TypeSearchStep::ProbeNext,
        TypeProbe::Exhausted => {
            proof {
                reveal_strlit("windows");
                reveal_strlit("no NV12 output type available on stream change");
                reveal_strlit("no NV12 output type advertised by decoder");
            }
            let message = if on_stream_change {
                String::from_str("no NV12 output type available on stream change")
            } else {
                String::from_str("no NV12 output type advertised by decoder")
            };
            TypeSearchStep::NotFound(Error::Backend { platform: "windows", message })
        },
    }
}

/// Outcome of enumerating the platform's decoders for a codec: an error when
/// none is registered (`no Media Foundation decoder registered`) or the first
/// entry is empty (`null IMFActivate`), else `None` and the first entry is
/// activated.
pub fn activation_failure(registered: u32, first_present: bool) -> (failure: Option<Error>)
    ensures
        registered == 0 ==> (failure matches Some(e) && crate::error::is_backend(
            e,
            "windows"@,
            "no Media Foundation decoder registered"@,
        )),
        registered != 0 && !first_present ==> (failure matches Some(e)
            && crate::error::is_backend(e, "windows"@, "null IMFActivate"@)),
        registered != 0 && first_present ==> failure is None,
{
    proof {
        reveal_strlit("windows");
        reveal_strlit("no Media Foundation decoder registered");
        reveal_strlit("null IMFActivate");
    }
    if registered == 0 {
        Some(
            Error::Backend {
                platform: "windows",
                message: String::from_str("no Media Foundation decoder registered"),
            },
        )
    } else if !first_present {
        Some(Error::Backend { platform: "windows", message: String::from_str("null IMFActivate") })
    } else {
        None
    }
}

/// The library error for a failed Media Foundation call, from the
/// platform's description of the failure: a Windows backend error carrying
/// that description.
pub fn map_error(description: String) -> (e: Error)
    ensures
        crate::error::is_backend(e, "windows"@, description@),
{
    proof {
        reveal_strlit("windows");
    }
    Error::Backend { platform: "windows", message: description }
}

} // verus!
