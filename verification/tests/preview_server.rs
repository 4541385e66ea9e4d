use bytes::Bytes;
use cameras::frame::{Frame, FrameQuality, PixelFormat};
use cameras::preview::{
    empty_preview, parse_preview_id, preview_header, preview_parts, preview_url, response_head,
    response_parts, PREVIEW_FORMAT_BGRA, PREVIEW_FORMAT_NONE, PREVIEW_FORMAT_NV12,
    PREVIEW_FORMAT_RGBA, PREVIEW_HEADER_LEN, PREVIEW_MAGIC, PREVIEW_VERSION,
};
use std::time::Duration;

fn frame(format: PixelFormat, width: u32, height: u32, stride: u32, primary: Vec<u8>, secondary: Vec<u8>) -> Frame {
    Frame {
        width,
        height,
        stride,
        timestamp: Duration::ZERO,
        pixel_format: format,
        quality: FrameQuality::Intact,
        plane_primary: Bytes::from(primary),
        plane_secondary: Bytes::from(secondary),
    }
}

#[test]
fn parse_id_from_valid_get_request() {
    let request = b"GET /preview/42.bin HTTP/1.1\r\nHost: 127.0.0.1\r\n\r\n";
    assert_eq!(parse_preview_id(request), Some(42));
}

#[test]
fn parse_id_from_zero() {
    let request = b"GET /preview/0.bin HTTP/1.1\r\n\r\n";
    assert_eq!(parse_preview_id(request), Some(0));
}

#[test]
fn parse_id_rejects_non_numeric() {
    let request = b"GET /preview/abc.bin HTTP/1.1\r\n\r\n";
    assert_eq!(parse_preview_id(request), None);
}

#[test]
fn parse_id_rejects_missing_extension() {
    let request = b"GET /preview/42 HTTP/1.1\r\n\r\n";
    assert_eq!(parse_preview_id(request), None);
}

#[test]
fn parse_id_rejects_wrong_prefix() {
    let request = b"GET /other/42.bin HTTP/1.1\r\n\r\n";
    assert_eq!(parse_preview_id(request), None);
}

#[test]
fn parse_id_rejects_empty_request() {
    assert_eq!(parse_preview_id(b""), None);
}

#[test]
fn parse_id_rejects_invalid_utf8() {
    let bytes = [0xFF, 0xFE, 0xFD, 0xFC];
    assert_eq!(parse_preview_id(&bytes), None);
}

#[test]
fn header_has_expected_length_and_magic() {
    let header = preview_header(PREVIEW_FORMAT_RGBA, 1920, 1080, 7680, 42);
    assert_eq!(header.len(), PREVIEW_HEADER_LEN);
    assert_eq!(&header[0..4], &PREVIEW_MAGIC);
    assert_eq!(header[4], PREVIEW_VERSION);
    assert_eq!(header[5], PREVIEW_FORMAT_RGBA);
    assert_eq!(header[6], 0);
    assert_eq!(header[7], 0);
}

#[test]
fn header_fields_are_little_endian() {
    let width = 0x0000_0780_u32;
    let height = 0x0000_0438_u32;
    let stride = 0x0000_1E00_u32;
    let counter = 0xDEAD_BEEF_u32;
    let header = preview_header(PREVIEW_FORMAT_NV12, width, height, stride, counter);
    assert_eq!(&header[8..12], &width.to_le_bytes());
    assert_eq!(&header[12..16], &height.to_le_bytes());
    assert_eq!(&header[16..20], &stride.to_le_bytes());
    assert_eq!(&header[20..24], &counter.to_le_bytes());
}

#[test]
fn header_for_empty_frame_has_zero_fields() {
    let header = preview_header(PREVIEW_FORMAT_NONE, 0, 0, 0, 0);
    assert_eq!(header.len(), PREVIEW_HEADER_LEN);
    assert_eq!(header[5], PREVIEW_FORMAT_NONE);
    assert!(header[8..].iter().all(|&b| b == 0));
}

#[test]
fn header_magic_spells_cams() {
    assert_eq!(&PREVIEW_MAGIC, b"CAMS");
    let header = preview_header(PREVIEW_FORMAT_BGRA, 1, 2, 3, 4);
    assert_eq!(
        header,
        vec![b'C', b'A', b'M', b'S', 1, 2, 0, 0, 1, 0, 0, 0, 2, 0, 0, 0, 3, 0, 0, 0, 4, 0, 0, 0]
    );
}

#[test]
fn parse_id_accepts_plus_sign_and_leading_zeros() {
    assert_eq!(parse_preview_id(b"GET /preview/+7.bin HTTP/1.1\r\n\r\n"), Some(7));
    assert_eq!(parse_preview_id(b"GET /preview/007.bin HTTP/1.1\r\n\r\n"), Some(7));
}

#[test]
fn parse_id_rejects_overflow_and_bare_sign() {
    assert_eq!(parse_preview_id(b"GET /preview/4294967295.bin HTTP/1.1\r\n\r\n"), Some(u32::MAX));
    assert_eq!(parse_preview_id(b"GET /preview/4294967296.bin HTTP/1.1\r\n\r\n"), None);
    assert_eq!(parse_preview_id(b"GET /preview/+.bin HTTP/1.1\r\n\r\n"), None);
    assert_eq!(parse_preview_id(b"GET /preview/-1.bin HTTP/1.1\r\n\r\n"), None);
    assert_eq!(parse_preview_id(b"GET /preview/.bin HTTP/1.1\r\n\r\n"), None);
}

#[test]
fn parse_id_splits_on_unicode_whitespace() {
    let request = "GET\u{3000}/preview/9.bin\u{a0}HTTP/1.1";
    assert_eq!(parse_preview_id(request.as_bytes()), Some(9));
    assert_eq!(parse_preview_id(b"   GET \t /preview/5.bin"), Some(5));
    assert_eq!(parse_preview_id(b"GET"), None);
}

#[test]
fn preview_url_round_trips_through_the_parser() {
    let url = preview_url(8080, 31);
    assert_eq!(url, "http://127.0.0.1:8080/preview/31.bin");
    let path = url.strip_prefix("http://127.0.0.1:8080").unwrap();
    let request = format!("GET {path} HTTP/1.1\r\n\r\n");
    assert_eq!(parse_preview_id(request.as_bytes()), Some(31));
    assert_eq!(preview_url(0, 0), "http://127.0.0.1:0/preview/0.bin");
}

#[test]
fn nv12_frame_sends_both_planes() {
    let f = frame(PixelFormat::Nv12, 4, 2, 16, vec![1; 32], vec![2; 16]);
    let parts = preview_parts(&f, 7, None);
    assert_eq!(parts.header, preview_header(PREVIEW_FORMAT_NV12, 4, 2, 16, 7));
    assert_eq!(parts.primary.as_deref(), Some(&[1u8; 32][..]));
    assert_eq!(parts.secondary.as_deref(), Some(&[2u8; 16][..]));
}

#[test]
fn bgra_frame_without_stride_uses_packed_rows() {
    let f = frame(PixelFormat::Bgra8, 10, 3, 0, vec![9; 120], Vec::new());
    let parts = preview_parts(&f, 1, None);
    assert_eq!(parts.header, preview_header(PREVIEW_FORMAT_BGRA, 10, 3, 40, 1));
    assert_eq!(parts.primary.as_deref(), Some(&[9u8; 120][..]));
    assert!(parts.secondary.is_none());
    let g = frame(PixelFormat::Bgra8, 10, 3, 64, vec![9; 192], Vec::new());
    assert_eq!(preview_parts(&g, 1, None).header, preview_header(PREVIEW_FORMAT_BGRA, 10, 3, 64, 1));
}

#[test]
fn other_formats_go_out_as_converted_rgba() {
    let f = frame(PixelFormat::Yuyv, 2, 1, 4, vec![0; 4], Vec::new());
    let parts = preview_parts(&f, 5, Some(vec![7; 8]));
    assert_eq!(parts.header, preview_header(PREVIEW_FORMAT_RGBA, 2, 1, 8, 5));
    assert_eq!(parts.primary.as_deref(), Some(&[7u8; 8][..]));
    assert!(parts.secondary.is_none());
    let failed = preview_parts(&f, 5, None);
    assert_eq!(failed.header, preview_header(PREVIEW_FORMAT_NONE, 0, 0, 0, 5));
    assert!(failed.primary.is_none() && failed.secondary.is_none());
}

#[test]
fn missing_snapshot_gets_the_empty_preview() {
    let parts = response_parts(None, None);
    assert_eq!(parts.header, preview_header(PREVIEW_FORMAT_NONE, 0, 0, 0, 0));
    assert!(parts.primary.is_none());
    let f = frame(PixelFormat::Nv12, 2, 2, 16, vec![3; 32], vec![4; 16]);
    let parts = response_parts(Some((f, 12)), None);
    assert_eq!(parts.header, preview_header(PREVIEW_FORMAT_NV12, 2, 2, 16, 12));
}

#[test]
fn response_head_counts_header_and_planes() {
    let empty = empty_preview(0);
    assert_eq!(
        response_head(&empty),
        "HTTP/1.1 200 OK\r\nContent-Type: application/octet-stream\r\nContent-Length: 24\r\nCache-Control: no-store\r\nAccess-Control-Allow-Origin: *\r\nConnection: keep-alive\r\n\r\n"
    );
    let f = frame(PixelFormat::Nv12, 4, 2, 16, vec![1; 32], vec![2; 16]);
    let parts = preview_parts(&f, 1, None);
    assert!(response_head(&parts).contains("Content-Length: 72\r\n"));
}
