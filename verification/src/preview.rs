//! Wire format of the loopback preview server.
//!
//! The webview fetches `/preview/{id}.bin` for each stream. Every answer is a
//! 24-byte header followed by the raw pixel planes:
//!
//! | bytes  | field                                   |
//! |--------|-----------------------------------------|
//! | 0..4   | magic `CAMS`                            |
//! | 4      | version `1`                             |
//! | 5      | format: 0 none, 1 NV12, 2 BGRA, 3 RGBA  |
//! | 6..8   | reserved, zero                          |
//! | 8..12  | width, little endian                    |
//! | 12..16 | height, little endian                   |
//! | 16..20 | stride, little endian                   |
//! | 20..24 | frame counter, little endian            |

use bytes::Bytes;
use vstd::prelude::*;
use vstd::utf8::{decode_utf8, encode_utf8, valid_utf8};

use crate::frame::{bytes_contents, bytes_from_vec, bytes_len, bytes_share, Frame, FrameView, PixelFormat};
use crate::text::{lemma_decimal_round_trip, lemma_words_space_prefix, lemma_words_word_prefix, no_whitespace, chars_of, decimal, matches_at, next_word, parse_u32, parse_u32_at, push_decimal, str_from_utf8, words};

verus! {

/// Magic bytes that open every preview header (`CAMS`).
pub const PREVIEW_MAGIC: [u8; 4] = [0x43u8, 0x41u8, 0x4du8, 0x53u8];

/// Version of the preview header layout.
pub const PREVIEW_VERSION: u8 = 1;

/// Format code: no frame available.
pub const PREVIEW_FORMAT_NONE: u8 = 0;

/// Format code: NV12, Y plane then interleaved UV plane.
pub const PREVIEW_FORMAT_NV12: u8 = 1;

/// Format code: packed BGRA.
pub const PREVIEW_FORMAT_BGRA: u8 = 2;

/// Format code: packed RGBA.
pub const PREVIEW_FORMAT_RGBA: u8 = 3;

/// Length of the preview header in bytes.
pub const PREVIEW_HEADER_LEN: usize = 24;

/// Little-endian bytes of `x`.
pub open spec fn le32(x: u32) -> Seq<u8> {
    seq![
        (x % 256) as u8,
        (x / 256 % 256) as u8,
        (x / 65536 % 256) as u8,
        (x / 16777216) as u8,
    ]
}

/// The preview header for a frame of the given format, size and stride,
/// published as the `counter`-th frame of its stream.
pub open spec fn preview_header_spec(format: u8, width: u32, height: u32, stride: u32, counter: u32) -> Seq<u8> {
    seq![0x43u8, 0x41u8, 0x4du8, 0x53u8, 1u8, format, 0u8, 0u8] + le32(width) + le32(height) + le32(
        stride,
    ) + le32(counter)
}

fn push_le32(out: &mut Vec<u8>, x: u32)
    ensures
        final(out)@ == old(out)@ + le32(x),
{
    out.push((x % 256) as u8);
    out.push((x / 256 % 256) as u8);
    out.push((x / 65536 % 256) as u8);
    out.push((x / 16777216) as u8);
}

/// Builds the 24-byte preview header.
pub fn preview_header(format: u8, width: u32, height: u32, stride: u32, counter: u32) -> (header: Vec<u8>)
    ensures
        header@ == preview_header_spec(format, width, height, stride, counter),
        header@.len() == PREVIEW_HEADER_LEN,
{
    let mut header: Vec<u8> = Vec::with_capacity(PREVIEW_HEADER_LEN);
    header.push(0x43u8);
    header.push(0x41u8);
    header.push(0x4du8);
    header.push(0x53u8);
    header.push(PREVIEW_VERSION);
    header.push(format);
    header.push(0u8);
    header.push(0u8);
    push_le32(&mut header, width);
    push_le32(&mut header, height);
    push_le32(&mut header, stride);
    push_le32(&mut header, counter);
    assert(header@ =~= preview_header_spec(format, width, height, stride, counter));
    header
}

/// The parts of one preview answer: the header and up to two pixel planes,
/// sent in that order.
pub struct PreviewParts {
    /// The 24-byte preview header.
    pub header: Vec<u8>,
    /// First pixel plane, if any.
    pub primary: Option<Bytes>,
    /// Second pixel plane, if any.
    pub secondary: Option<Bytes>,
}

/// The value of a preview answer.
pub struct PreviewPartsView {
    pub header: Seq<u8>,
    pub primary: Option<Seq<u8>>,
    pub secondary: Option<Seq<u8>>,
}

/// Bytes of an optional plane.
pub open spec fn plane_view(plane: Option<Bytes>) -> Option<Seq<u8>> {
    match plane {
        Some(b) => Some(bytes_contents(b)),
        None => None,
    }
}

impl View for PreviewParts {
    type V = PreviewPartsView;

    open spec fn view(&self) -> PreviewPartsView {
        PreviewPartsView {
            header: self.header@,
            primary: plane_view(self.primary),
            secondary: plane_view(self.secondary),
        }
    }
}

/// The answer sent when there is no frame to show.
pub open spec fn empty_preview_spec(counter: u32) -> PreviewPartsView {
    PreviewPartsView {
        header: preview_header_spec(PREVIEW_FORMAT_NONE, 0, 0, 0, counter),
        primary: None,
        secondary: None,
    }
}

/// `frame` is in a format the webview draws directly (NV12 or BGRA8); any
/// other format is converted to RGBA8 before it is sent.
pub open spec fn is_native_preview_format(format: PixelFormat) -> bool {
    format == PixelFormat::Nv12 || format == PixelFormat::Bgra8
}

/// The answer for `frame`, published as the `counter`-th frame of its
/// stream.
///
/// NV12 frames go out as their two planes with the frame's stride; BGRA8
/// frames as their one plane with the frame's stride, or `4 * width` when
/// the frame reports no stride. Frames in any other format go out as
/// `rgba`, their conversion to packed RGBA8 with stride `4 * width`; when
/// the conversion failed (`rgba` is `None`) the answer carries no pixels and
/// the "none" format with zero size.
pub open spec fn preview_parts_spec(f: FrameView, counter: u32, rgba: Option<Seq<u8>>) -> PreviewPartsView {
    match f.pixel_format {
        PixelFormat::Nv12 => PreviewPartsView {
            header: preview_header_spec(PREVIEW_FORMAT_NV12, f.width, f.height, f.stride, counter),
            primary: Some(f.primary),
            secondary: Some(f.secondary),
        },
        PixelFormat::Bgra8 => PreviewPartsView {
            header: preview_header_spec(
                PREVIEW_FORMAT_BGRA,
                f.width,
                f.height,
                if f.stride == 0 {
                    (f.width * 4) as u32
                } else {
                    f.stride
                },
                counter,
            ),
            primary: Some(f.primary),
            secondary: None,
        },
        _ => match rgba {
            None => empty_preview_spec(counter),
            Some(pixels) => PreviewPartsView {
                header: preview_header_spec(
                    PREVIEW_FORMAT_RGBA,
                    f.width,
                    f.height,
                    (f.width * 4) as u32,
                    counter,
                ),
                primary: Some(pixels),
                secondary: None,
            },
        },
    }
}

/// Whether building the answer for `f` multiplies its width by four.
pub open spec fn uses_packed_stride(f: FrameView, rgba_converted: bool) -> bool {
    (f.pixel_format == PixelFormat::Bgra8 && f.stride == 0) || (!is_native_preview_format(
        f.pixel_format,
    ) && rgba_converted)
}

/// Builds the answer for `frame`, published as the `counter`-th frame of its
/// stream; `rgba` is the frame converted to packed RGBA8 (consulted only for
/// formats the webview cannot draw directly, see
/// [`is_native_preview_format`]).
pub fn preview_parts(frame: &Frame, counter: u32, rgba: Option<Vec<u8>>) -> (parts: PreviewParts)
    requires
        uses_packed_stride(frame@, rgba is Some) ==> frame.width <= u32::MAX / 4,
    ensures
        parts@ == preview_parts_spec(
            frame@,
            counter,
            match rgba {
                Some(v) => Some(v@),
                None => None,
            },
        ),
{
    match frame.pixel_format {
        PixelFormat::Nv12 => PreviewParts {
            header: preview_header(
                PREVIEW_FORMAT_NV12,
                frame.width,
                frame.height,
                frame.stride,
                counter,
            ),
            primary: Some(bytes_share(&frame.plane_primary)),
            secondary: Some(bytes_share(&frame.plane_secondary)),
        },
        PixelFormat::Bgra8 => {
            let stride = if frame.stride == 0 {
                frame.width * 4
            } else {
                frame.stride
            };
            PreviewParts {
                header: preview_header(PREVIEW_FORMAT_BGRA, frame.width, frame.height, stride, counter),
                primary: Some(bytes_share(&frame.plane_primary)),
                secondary: None,
            }
        },
        _ => match rgba {
            None => empty_preview(counter),
            Some(pixels) => PreviewParts {
                header: preview_header(
                    PREVIEW_FORMAT_RGBA,
                    frame.width,
                    frame.height,
                    frame.width * 4,
                    counter,
                ),
                primary: Some(bytes_from_vec(pixels)),
                secondary: None,
            },
        },
    }
}

/// The answer that carries no frame.
pub fn empty_preview(counter: u32) -> (parts: PreviewParts)
    ensures
        parts@ == empty_preview_spec(counter),
{
    PreviewParts {
        header: preview_header(PREVIEW_FORMAT_NONE, 0, 0, 0, counter),
        primary: None,
        secondary: None,
    }
}

/// The answer to a preview request, given the snapshot of the requested
/// stream (its latest frame and counter) when there is one.
///
/// Without a snapshot (unknown id, unparsable request, or no frame yet) the
/// answer is the empty preview with counter zero.
pub fn response_parts(snapshot: Option<(Frame, u32)>, rgba: Option<Vec<u8>>) -> (parts: PreviewParts)
    requires
        snapshot matches Some((f, c)) ==> (uses_packed_stride(f@, rgba is Some) ==> f.width
            <= u32::MAX / 4),
    ensures
        parts@ == match snapshot {
            None => empty_preview_spec(0),
            Some((f, c)) => preview_parts_spec(
                f@,
                c,
                match rgba {
                    Some(v) => Some(v@),
                    None => None,
                },
            ),
        },
{
    match snapshot {
        None => empty_preview(0),
        Some((frame, counter)) => preview_parts(&frame, counter, rgba),
    }
}

/// Length of an optional plane.
pub open spec fn plane_len(plane: Option<Seq<u8>>) -> nat {
    match plane {
        Some(p) => p.len(),
        None => 0,
    }
}

/// Length of the body of an answer: the header and its planes.
pub open spec fn body_len(parts: PreviewPartsView) -> nat {
    parts.header.len() + plane_len(parts.primary) + plane_len(parts.secondary)
}

/// HTTP status line and headers that precede an answer whose body is
/// `len` bytes long.
pub open spec fn response_head_spec(len: nat) -> Seq<char> {
    "HTTP/1.1 200 OK\r\nContent-Type: application/octet-stream\r\nContent-Length: "@ + decimal(len)
        + "\r\nCache-Control: no-store\r\nAccess-Control-Allow-Origin: *\r\nConnection: keep-alive\r\n\r\n"@
}

fn optional_len(plane: &Option<Bytes>) -> (n: usize)
    ensures
        n == plane_len(plane_view(*plane)),
{
    match plane {
        Some(b) => bytes_len(b),
        None => 0,
    }
}

/// The HTTP head sent before `parts`: status `200`, an octet-stream body of
/// the exact length of the header and planes, no caching, any origin, and a
/// kept-alive connection.
pub fn response_head(parts: &PreviewParts) -> (head: String)
    ensures
        head@ == response_head_spec(body_len(parts@)),
{
    let len: u128 = parts.header.len() as u128 + optional_len(&parts.primary) as u128
        + optional_len(&parts.secondary) as u128;
    let mut head = String::from_str(
        "HTTP/1.1 200 OK\r\nContent-Type: application/octet-stream\r\nContent-Length: ",
    );
    push_decimal(&mut head, len);
    head.append(
        "\r\nCache-Control: no-store\r\nAccess-Control-Allow-Origin: *\r\nConnection: keep-alive\r\n\r\n",
    );
    head
}

/// Stream id named by a request path `/preview/{id}.bin`, where `{id}` is a
/// `u32` in the grammar of `u32::from_str`.
pub open spec fn preview_id_of_path(path: Seq<char>) -> Option<u32> {
    let prefix = "/preview/"@;
    let suffix = ".bin"@;
    if path.len() >= prefix.len() + suffix.len() && path.take(prefix.len() as int) == prefix
        && path.skip(path.len() - suffix.len()) == suffix {
        parse_u32(path.subrange(prefix.len() as int, path.len() - suffix.len()))
    } else {
        None
    }
}

/// Stream id requested by the raw bytes of an HTTP request: the request
/// must be UTF-8, and its second white-space separated word (the request
/// target) must be a preview path.
pub open spec fn preview_id_spec(request: Seq<u8>) -> Option<u32> {
    if !valid_utf8(request) {
        None
    } else {
        let w = words(decode_utf8(request));
        if w.len() >= 2 {
            preview_id_of_path(w[1])
        } else {
            None
        }
    }
}

/// Extracts the stream id from a raw HTTP request for `/preview/{id}.bin`.
pub fn parse_preview_id(request_bytes: &[u8]) -> (id: Option<u32>)
    ensures
        id == preview_id_spec(request_bytes@),
{
    let text = match str_from_utf8(request_bytes) {
        None => return None,
        Some(t) => t,
    };
    let chars = chars_of(text);
    let (s1, e1) = next_word(&chars, 0);
    assert(chars@.skip(0) =~= chars@);
    if s1 == e1 {
        return None;
    }
    let (s2, e2) = next_word(&chars, e1);
    if s2 == e2 {
        return None;
    }
    let ghost path = chars@.subrange(s2 as int, e2 as int);
    assert(words(chars@)[1] == path);
    let prefix = chars_of("/preview/");
    let suffix = chars_of(".bin");
    let len = e2 - s2;
    if len < prefix.len() || len - prefix.len() < suffix.len() {
        return None;
    }
    if !matches_at(&chars, s2, &prefix) {
        assert(path.take(prefix@.len() as int) =~= chars@.subrange(
            s2 as int,
            s2 + prefix@.len(),
        ));
        return None;
    }
    let suffix_start = e2 - suffix.len();
    if !matches_at(&chars, suffix_start, &suffix) {
        assert(path.skip(path.len() - suffix@.len()) =~= chars@.subrange(
            suffix_start as int,
            e2 as int,
        ));
        return None;
    }
    assert(path.take(prefix@.len() as int) =~= chars@.subrange(s2 as int, s2 + prefix@.len()));
    assert(path.skip(path.len() - suffix@.len()) =~= chars@.subrange(
        suffix_start as int,
        e2 as int,
    ));
    assert(path.subrange(prefix@.len() as int, path.len() - suffix@.len()) =~= chars@.subrange(
        s2 + prefix@.len(),
        suffix_start as int,
    ));
    parse_u32_at(&chars, s2 + prefix.len(), suffix_start)
}

/// URL from which the preview canvas of stream `id` fetches its frames when
/// the server listens on `port`.
pub open spec fn preview_url_spec(port: u16, id: u32) -> Seq<char> {
    "http://127.0.0.1:"@ + decimal(port as nat) + "/preview/"@ + decimal(id as nat) + ".bin"@
}

/// Builds the URL of the preview endpoint of stream `id` on `port`.
pub fn preview_url(port: u16, id: u32) -> (url: String)
    ensures
        url@ == preview_url_spec(port, id),
{
    let mut url = String::from_str("http://127.0.0.1:");
    push_decimal(&mut url, port as u128);
    url.append("/preview/");
    push_decimal(&mut url, id as u128);
    url.append(".bin");
    url
}

/// Path of the preview endpoint of stream `id`.
pub open spec fn preview_path(id: u32) -> Seq<char> {
    "/preview/"@ + decimal(id as nat) + ".bin"@
}

/// The request a preview canvas sends for stream `id` is answered for that
/// stream: a GET request whose target is the path of
/// [`preview_url`] (`/preview/{id}.bin`), followed by white space and
/// anything else (or by nothing), parses to `id`.
pub proof fn lemma_preview_request_round_trip(id: u32, rest: Seq<char>)
    requires
        rest.len() == 0 || crate::text::is_whitespace(rest[0]),
    ensures
        preview_id_spec(encode_utf8("GET "@ + preview_path(id) + rest)) == Some(id),
{
    broadcast use vstd::utf8::encode_utf8_valid_utf8, vstd::utf8::encode_utf8_decode_utf8;

    reveal_strlit("GET ");
    reveal_strlit("GET");
    reveal_strlit("/preview/");
    reveal_strlit(".bin");
    let path = preview_path(id);
    let digits = decimal(id as nat);
    lemma_decimal_round_trip(id as nat);
    let text = "GET "@ + path + rest;
    assert(valid_utf8(encode_utf8(text)));
    assert(decode_utf8(encode_utf8(text)) == text);
    assert(path.len() > 0);
    assert forall|i: int| 0 <= i < path.len() implies !crate::text::is_whitespace(
        #[trigger] path[i],
    ) by {
        if 9 <= i < 9 + digits.len() {
            assert(path[i] == digits[i - 9]);
        }
    }
    lemma_words_word_prefix(path, rest);
    lemma_words_space_prefix(' ', path + rest);
    assert(no_whitespace("GET"@));
    lemma_words_word_prefix("GET"@, seq![' '] + (path + rest));
    assert(text =~= "GET"@ + (seq![' '] + (path + rest)));
    let w = words(text);
    assert(w[1] == path);
    assert(path.take(9) =~= "/preview/"@);
    assert(path.skip(path.len() - 4) =~= ".bin"@);
    assert(path.subrange(9, path.len() - 4) =~= digits);
}

/// Little-endian 32-bit value at `at`.
pub open spec fn read_le32(h: Seq<u8>, at: int) -> nat {
    (h[at] as nat) + (h[at + 1] as nat) * 256 + (h[at + 2] as nat) * 65536 + (h[at + 3] as nat)
        * 16777216
}

proof fn lemma_le32_decodes(x: u32)
    ensures
        read_le32(le32(x), 0) == x,
{
    let b = le32(x);
    assert(b[0] as nat == x % 256);
    assert(b[1] as nat == x / 256 % 256);
    assert(b[2] as nat == x / 65536 % 256);
    assert(b[3] as nat == x / 16777216) by {
        assert(x / 16777216 < 256) by (nonlinear_arith)
            requires
                x < 0x1_0000_0000,
        ;
    }
    assert(x % 256 + x / 256 % 256 * 256 + x / 65536 % 256 * 65536 + x / 16777216 * 16777216 == x)
        by (nonlinear_arith)
        requires
            x < 0x1_0000_0000,
    ;
}

/// A client decodes every header as sent: 24 bytes, the magic `CAMS`,
/// version 1, the format byte, two zero bytes, then width, height, stride
/// and counter, each read back little-endian as the value written.
pub proof fn lemma_preview_header_layout(format: u8, width: u32, height: u32, stride: u32, counter: u32)
    ensures
        ({
            let h = preview_header_spec(format, width, height, stride, counter);
            &&& h.len() == 24
            &&& h[0] == 0x43u8 && h[1] == 0x41u8 && h[2] == 0x4du8 && h[3] == 0x53u8
            &&& h[4] == 1u8 && h[5] == format && h[6] == 0u8 && h[7] == 0u8
            &&& read_le32(h, 8) == width
            &&& read_le32(h, 12) == height
            &&& read_le32(h, 16) == stride
            &&& read_le32(h, 20) == counter
        }),
{
    let h = preview_header_spec(format, width, height, stride, counter);
    lemma_le32_decodes(width);
    lemma_le32_decodes(height);
    lemma_le32_decodes(stride);
    lemma_le32_decodes(counter);
    assert forall|k: int| 0 <= k < 4 implies h[8 + k] == #[trigger] le32(width)[k] && h[12 + k] == le32(
        height,
    )[k] && h[16 + k] == le32(stride)[k] && h[20 + k] == le32(counter)[k] by {}
    assert(read_le32(h, 8) == read_le32(le32(width), 0));
    assert(read_le32(h, 12) == read_le32(le32(height), 0));
    assert(read_le32(h, 16) == read_le32(le32(stride), 0));
    assert(read_le32(h, 20) == read_le32(le32(counter), 0));
}

/// What a client reads from the answer for a frame: NV12 frames come as
/// format 1 with the frame's stride and both planes; BGRA8 frames as format
/// 2 with one plane and the frame's stride, or four bytes per pixel when
/// the frame reports none; other formats as format 3 with the converted
/// RGBA pixels at four bytes per pixel, or, when conversion failed, as
/// format 0 with zero size and no pixels. Every answer carries the
/// frame's counter.
pub proof fn lemma_preview_parts_layout(f: FrameView, counter: u32, rgba: Option<Seq<u8>>)
    requires
        uses_packed_stride(f, rgba is Some) ==> f.width <= u32::MAX / 4,
    ensures
        ({
            let p = preview_parts_spec(f, counter, rgba);
            let h = p.header;
            &&& h.len() == 24 && read_le32(h, 20) == counter
            &&& f.pixel_format == PixelFormat::Nv12 ==> h[5] == 1u8 && read_le32(h, 8) == f.width
                && read_le32(h, 12) == f.height && read_le32(h, 16) == f.stride && p.primary == Some(
                f.primary,
            ) && p.secondary == Some(f.secondary)
            &&& f.pixel_format == PixelFormat::Bgra8 ==> h[5] == 2u8 && read_le32(h, 8) == f.width
                && read_le32(h, 12) == f.height && read_le32(h, 16) == (if f.stride == 0 {
                4 * f.width
            } else {
                f.stride as int
            }) && p.primary == Some(f.primary) && p.secondary is None
            &&& (!is_native_preview_format(f.pixel_format) && rgba is Some) ==> h[5] == 3u8
                && read_le32(h, 8) == f.width && read_le32(h, 12) == f.height && read_le32(h, 16) == 4
                * f.width && p.primary == rgba && p.secondary is None
            &&& (!is_native_preview_format(f.pixel_format) && rgba is None) ==> h[5] == 0u8
                && read_le32(h, 8) == 0 && read_le32(h, 12) == 0 && read_le32(h, 16) == 0
                && p.primary is None && p.secondary is None
        }),
{
    match f.pixel_format {
        PixelFormat::Nv12 => lemma_preview_header_layout(
            PREVIEW_FORMAT_NV12,
            f.width,
            f.height,
            f.stride,
            counter,
        ),
        PixelFormat::Bgra8 => lemma_preview_header_layout(
            PREVIEW_FORMAT_BGRA,
            f.width,
            f.height,
            if f.stride == 0 {
                (f.width * 4) as u32
            } else {
                f.stride
            },
            counter,
        ),
        _ => match rgba {
            None => lemma_preview_header_layout(PREVIEW_FORMAT_NONE, 0, 0, 0, counter),
            Some(_) => lemma_preview_header_layout(
                PREVIEW_FORMAT_RGBA,
                f.width,
                f.height,
                (f.width * 4) as u32,
                counter,
            ),
        },
    }
}

} // verus!
