use cameras::annex_b::{avcc_to_annex_b, extradata_to_annex_b, VideoCodec};
use cameras::decode::{
    activation_failure, decoder_input, map_error, next_pull_action, next_type_search, nv12_planes,
    nv12_stride, output_geometry, OutputAttempt, OutputGeometry, PullAction, TypeProbe,
    TypeSearchStep, PULL_ATTEMPTS,
};
use cameras::error::Error;

const SC: [u8; 4] = [0, 0, 0, 1];

#[test]
fn avcc_units_get_start_codes() {
    let avcc = [0, 0, 0, 2, 0x65, 0x88, 0, 0, 0, 1, 0x41];
    let mut expected = SC.to_vec();
    expected.extend_from_slice(&[0x65, 0x88]);
    expected.extend_from_slice(&SC);
    expected.push(0x41);
    assert_eq!(avcc_to_annex_b(&avcc), expected);
}

#[test]
fn avcc_stops_at_zero_length_or_truncation() {
    assert_eq!(avcc_to_annex_b(&[0, 0, 0, 0, 1, 2]), Vec::<u8>::new());
    let truncated = [0, 0, 0, 1, 0x09, 0, 0, 0, 5, 1, 2];
    let mut expected = SC.to_vec();
    expected.push(0x09);
    assert_eq!(avcc_to_annex_b(&truncated), expected);
    assert_eq!(avcc_to_annex_b(&[0, 0, 1]), Vec::<u8>::new());
    assert_eq!(avcc_to_annex_b(&[]), Vec::<u8>::new());
    assert_eq!(avcc_to_annex_b(&[0xff, 0xff, 0xff, 0xff, 1]), Vec::<u8>::new());
}

#[test]
fn avcc_record_yields_sps_then_pps() {
    // version, profile, compat, level, length size, 1 SPS of 3 bytes, 1 PPS of 2 bytes
    let record = [1, 0x64, 0, 0x1f, 0xff, 0xe1, 0, 3, 0x67, 0x64, 0x00, 1, 0, 2, 0x68, 0xee];
    let mut expected = SC.to_vec();
    expected.extend_from_slice(&[0x67, 0x64, 0x00]);
    expected.extend_from_slice(&SC);
    expected.extend_from_slice(&[0x68, 0xee]);
    assert_eq!(extradata_to_annex_b(VideoCodec::H264, &record), expected);
}

#[test]
fn avcc_record_edge_cases() {
    assert_eq!(extradata_to_annex_b(VideoCodec::H264, &[1, 2, 3, 4, 5, 6]), Vec::<u8>::new());
    // SPS list ends exactly at the end: no PPS count byte
    let record = [1, 0x64, 0, 0x1f, 0xff, 0xe1, 0, 1, 0x67];
    let mut expected = SC.to_vec();
    expected.push(0x67);
    assert_eq!(extradata_to_annex_b(VideoCodec::H264, &record), expected);
    // second SPS truncated: the first one is kept
    let record = [1, 0x64, 0, 0x1f, 0xff, 0xe2, 0, 1, 0x67, 0, 9, 1];
    assert_eq!(extradata_to_annex_b(VideoCodec::H264, &record), expected);
}

#[test]
fn hvcc_record_yields_every_array() {
    let mut record = vec![0u8; 22];
    record.push(2); // two arrays
    record.extend_from_slice(&[0x20, 0, 1, 0, 2, 0x40, 0x01]); // VPS array, one unit
    record.extend_from_slice(&[0x21, 0, 2, 0, 1, 0x42, 0, 1, 0x43]); // SPS array, two units
    let mut expected = SC.to_vec();
    expected.extend_from_slice(&[0x40, 0x01]);
    expected.extend_from_slice(&SC);
    expected.push(0x42);
    expected.extend_from_slice(&SC);
    expected.push(0x43);
    assert_eq!(extradata_to_annex_b(VideoCodec::H265, &record), expected);
    assert_eq!(extradata_to_annex_b(VideoCodec::H265, &record[..22]), Vec::<u8>::new());
}

#[test]
fn nv12_stride_rounds_up_to_16() {
    assert_eq!(nv12_stride(0), 0);
    assert_eq!(nv12_stride(1), 16);
    assert_eq!(nv12_stride(16), 16);
    assert_eq!(nv12_stride(1918), 1920);
    assert_eq!(nv12_stride(u32::MAX - 15), u32::MAX - 15);
}

#[test]
fn nv12_planes_split_or_zero_fill() {
    let buffer: Vec<u8> = (0..50).collect();
    let (y, uv) = nv12_planes(Some(&buffer), 4, 8);
    assert_eq!(y, (0..32).collect::<Vec<u8>>());
    assert_eq!(uv, (32..48).collect::<Vec<u8>>());
    let (y, uv) = nv12_planes(Some(&buffer[..47]), 4, 8);
    assert_eq!(y, vec![0; 32]);
    assert_eq!(uv, vec![0; 16]);
    let (y, uv) = nv12_planes(Some(&buffer[..32]), 3, 8);
    assert_eq!(y, (0..24).collect::<Vec<u8>>());
    assert_eq!(uv, (24..32).collect::<Vec<u8>>());
    let (y, uv) = nv12_planes(None, 2, 4);
    assert_eq!((y.len(), uv.len()), (8, 4));
}

#[test]
fn output_geometry_unpacks_size() {
    let packed = (1920u64 << 32) | 1080;
    assert_eq!(
        output_geometry(packed, None),
        OutputGeometry { width: 1920, height: 1080, stride: 1920 }
    );
    assert_eq!(
        output_geometry((1918u64 << 32) | 7, Some(2048)),
        OutputGeometry { width: 1918, height: 7, stride: 2048 }
    );
    assert_eq!(output_geometry((1918u64 << 32) | 7, None).stride, 1920);
}

#[test]
fn decoder_input_prefixes_parameter_sets() {
    assert_eq!(decoder_input(&[9, 9], &[0, 0, 0, 0]), None);
    let input = decoder_input(&[9, 9], &[0, 0, 0, 1, 0x65]).unwrap();
    assert_eq!(input, vec![9, 9, 0, 0, 0, 1, 0x65]);
}

#[test]
fn pull_actions_follow_the_attempt() {
    assert!(matches!(next_pull_action(0, OutputAttempt::Produced { has_sample: true }, 4, 4), PullAction::EmitFrame));
    assert!(matches!(next_pull_action(0, OutputAttempt::Produced { has_sample: true }, 0, 4), PullAction::NoFrame));
    assert!(matches!(next_pull_action(0, OutputAttempt::Produced { has_sample: false }, 4, 4), PullAction::NoFrame));
    assert!(matches!(next_pull_action(0, OutputAttempt::NeedMoreInput, 4, 4), PullAction::NoFrame));
    assert!(matches!(next_pull_action(0, OutputAttempt::StreamChange, 4, 4), PullAction::Renegotiate { retry: true }));
    assert!(matches!(next_pull_action(2, OutputAttempt::StreamChange, 4, 4), PullAction::Renegotiate { retry: true }));
    assert!(matches!(
        next_pull_action(PULL_ATTEMPTS - 1, OutputAttempt::StreamChange, 4, 4),
        PullAction::Renegotiate { retry: false }
    ));
    assert_eq!(PULL_ATTEMPTS, 4);
    match next_pull_action(0, OutputAttempt::Failed { message: "boom".to_string() }, 4, 4) {
        PullAction::Fail(Error::Backend { platform, message }) => {
            assert_eq!(platform, "windows");
            assert_eq!(message, "ProcessOutput failed: boom");
        }
        _ => panic!("expected a backend error"),
    }
}

fn backend_message(error: Error) -> String {
    match error {
        Error::Backend { platform, message } => {
            assert_eq!(platform, "windows");
            message
        }
        other => panic!("expected a backend error, got {other:?}"),
    }
}

#[test]
fn output_type_search_takes_first_nv12() {
    assert!(matches!(
        next_type_search(TypeProbe::Subtype { is_nv12: true }, false),
        TypeSearchStep::Take
    ));
    assert!(matches!(
        next_type_search(TypeProbe::Subtype { is_nv12: false }, false),
        TypeSearchStep::ProbeNext
    ));
    assert!(matches!(
        next_type_search(TypeProbe::SubtypeUnreadable, true),
        TypeSearchStep::ProbeNext
    ));
    match next_type_search(TypeProbe::Exhausted, false) {
        TypeSearchStep::NotFound(e) => {
            assert_eq!(backend_message(e), "no NV12 output type advertised by decoder")
        }
        _ => panic!("an exhausted list ends the search"),
    }
    match next_type_search(TypeProbe::Exhausted, true) {
        TypeSearchStep::NotFound(e) => {
            assert_eq!(backend_message(e), "no NV12 output type available on stream change")
        }
        _ => panic!("an exhausted list ends the search"),
    }
}

#[test]
fn decoder_activation_errors() {
    assert_eq!(
        backend_message(activation_failure(0, false).unwrap()),
        "no Media Foundation decoder registered"
    );
    assert_eq!(
        backend_message(activation_failure(0, true).unwrap()),
        "no Media Foundation decoder registered"
    );
    assert_eq!(backend_message(activation_failure(2, false).unwrap()), "null IMFActivate");
    assert!(activation_failure(1, true).is_none());
}

#[test]
fn platform_failures_become_windows_backend_errors() {
    assert_eq!(backend_message(map_error("The parameter is incorrect.".to_string())), "The parameter is incorrect.");
}

fn avcc_frame(units: &[&[u8]]) -> Vec<u8> {
    let mut out = Vec::new();
    for unit in units {
        out.extend_from_slice(&(unit.len() as u32).to_be_bytes());
        out.extend_from_slice(unit);
    }
    out
}

fn annex_b_frame(units: &[&[u8]]) -> Vec<u8> {
    let mut out = Vec::new();
    for unit in units {
        out.extend_from_slice(&SC);
        out.extend_from_slice(unit);
    }
    out
}

#[test]
fn well_formed_avcc_converts_exactly_and_concatenates() {
    let a: [&[u8]; 2] = [&[0x67, 1, 2], &[0x68]];
    let b: [&[u8]; 1] = [&[0x65, 9, 9, 9, 9]];
    let framed_a = avcc_frame(&a);
    let framed_b = avcc_frame(&b);
    assert_eq!(avcc_to_annex_b(&framed_a), annex_b_frame(&a));
    assert_eq!(avcc_to_annex_b(&framed_a).len(), framed_a.len());
    let mut both = framed_a.clone();
    both.extend_from_slice(&framed_b);
    let mut expected = avcc_to_annex_b(&framed_a);
    expected.extend_from_slice(&avcc_to_annex_b(&framed_b));
    assert_eq!(avcc_to_annex_b(&both), expected);
}

#[test]
fn truncated_input_gives_a_prefix_of_the_output() {
    let units: [&[u8]; 3] = [&[1, 2, 3], &[4, 5], &[6, 7, 8, 9]];
    let framed = avcc_frame(&units);
    let whole = avcc_to_annex_b(&framed);
    for k in 0..=framed.len() {
        let part = avcc_to_annex_b(&framed[..k]);
        assert!(part.len() <= k);
        assert_eq!(&whole[..part.len()], &part[..]);
    }
    let record = [1u8, 0x64, 0, 0x1f, 0xff, 0xe1, 0, 3, 0x67, 0x64, 0x00, 1, 0, 2, 0x68, 0xee];
    let whole = extradata_to_annex_b(VideoCodec::H264, &record);
    assert!(!whole.is_empty());
    for k in 0..=record.len() {
        let part = extradata_to_annex_b(VideoCodec::H264, &record[..k]);
        assert_eq!(&whole[..part.len()], &part[..]);
        if k < 7 {
            assert!(part.is_empty());
        }
    }
}
