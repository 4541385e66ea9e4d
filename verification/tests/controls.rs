use cameras::avfoundation::{
    apply_plan, auto_capability, exception_error, macos_capabilities, macos_read_back,
    next_apply_action, reject_unsupported, start_apply, unsupported_step, ApplyNext, ApplyStep,
    ExposureMode, FocusMode, WhiteBalanceMode, WriteOutcome,
};
use cameras::controls::{
    default_controls, reset_controls, reset_to_defaults, ControlCapabilities, ControlKind, ControlRange, Controls,
    PowerLineFrequency, PowerLineFrequencyCapability, TargetPlatform,
};
use cameras::error::Error;

fn range(default: f32) -> Option<ControlRange<f32>> {
    Some(ControlRange::new(0.0, 10.0, 1.0, default))
}

#[test]
fn labels_match_field_names() {
    let labels: Vec<&str> = ControlKind::ALL.iter().map(|k| k.label()).collect();
    assert_eq!(
        labels,
        vec![
            "focus", "auto_focus", "exposure", "auto_exposure", "white_balance_temperature",
            "auto_white_balance", "brightness", "contrast", "saturation", "sharpness", "gain",
            "backlight_compensation", "power_line_frequency", "pan", "tilt", "zoom"
        ]
    );
}

#[test]
fn caveats_only_on_macos() {
    for kind in ControlKind::ALL {
        assert_eq!(kind.caveat(TargetPlatform::Linux), None);
        assert_eq!(kind.caveat(TargetPlatform::Windows), None);
    }
    assert_eq!(
        ControlKind::PowerLineFrequency.caveat(TargetPlatform::MacOs),
        Some("macOS: AVFoundation doesn't expose AC mains frequency filtering.")
    );
    assert!(ControlKind::Pan.caveat(TargetPlatform::MacOs).unwrap().contains("pan/tilt"));
    assert!(ControlKind::Sharpness.caveat(TargetPlatform::MacOs).unwrap().contains("capture-only"));
    assert_eq!(ControlKind::Zoom.caveat(TargetPlatform::MacOs), None);
    assert_eq!(ControlKind::Focus.caveat(TargetPlatform::MacOs), None);
}

#[test]
fn defaults_prefer_auto_and_fall_back_to_range_default() {
    let mut caps: ControlCapabilities<f32> = ControlCapabilities::default();
    caps.focus = range(3.0);
    caps.auto_focus = Some(true);
    caps.exposure = range(4.0);
    caps.auto_exposure = Some(false);
    caps.white_balance_temperature = range(5.0);
    caps.brightness = range(6.0);
    caps.zoom = range(1.0);
    caps.power_line_frequency =
        Some(PowerLineFrequencyCapability::new(true, true, true, false, PowerLineFrequency::Hz50));
    let d = default_controls(&caps);
    assert_eq!(d.focus, None);
    assert_eq!(d.auto_focus, Some(true));
    assert_eq!(d.exposure, Some(4.0));
    assert_eq!(d.auto_exposure, None);
    assert_eq!(d.white_balance_temperature, Some(5.0));
    assert_eq!(d.auto_white_balance, None);
    assert_eq!(d.brightness, Some(6.0));
    assert_eq!(d.contrast, None);
    assert_eq!(d.zoom, Some(1.0));
    assert_eq!(d.power_line_frequency, Some(PowerLineFrequency::Hz50));
    let none: ControlCapabilities<f32> = ControlCapabilities::default();
    assert_eq!(default_controls(&none), Controls::default());
}

#[test]
fn macos_refuses_unsupported_controls_in_order() {
    let ok: Controls<f32> = Controls { zoom: Some(2.0), focus: Some(0.5), ..Controls::default() };
    assert!(reject_unsupported(&ok).is_ok());
    let both = Controls { auto_exposure: Some(true), gain: Some(100.0), brightness: Some(1.0), ..Controls::default() };
    match reject_unsupported(&both) {
        Err(Error::Unsupported { platform, reason }) => {
            assert_eq!(platform, "macos");
            assert_eq!(reason, "auto_exposure_with_explicit_exposure_or_gain");
        }
        other => panic!("unexpected {other:?}"),
    }
    let manual = Controls { auto_exposure: Some(false), exposure: Some(0.01), ..Controls::default() };
    assert!(reject_unsupported(&manual).is_ok());
    let cases: Vec<(Controls<f32>, &str)> = vec![
        (Controls { brightness: Some(1.0), contrast: Some(1.0), ..Controls::default() }, "brightness"),
        (Controls { contrast: Some(1.0), ..Controls::default() }, "contrast"),
        (Controls { saturation: Some(1.0), ..Controls::default() }, "saturation"),
        (Controls { sharpness: Some(1.0), ..Controls::default() }, "sharpness"),
        (Controls { backlight_compensation: Some(1.0), ..Controls::default() }, "backlight_compensation"),
        (Controls { power_line_frequency: Some(PowerLineFrequency::Auto), ..Controls::default() }, "power_line_frequency"),
        (Controls { pan: Some(1.0), tilt: Some(1.0), ..Controls::default() }, "pan"),
        (Controls { tilt: Some(1.0), ..Controls::default() }, "tilt"),
    ];
    for (controls, expected) in cases {
        match reject_unsupported(&controls) {
            Err(Error::Unsupported { reason, .. }) => assert_eq!(reason, expected),
            other => panic!("unexpected {other:?}"),
        }
    }
}

#[test]
fn apply_plan_orders_modes_before_values() {
    let controls = Controls {
        zoom: Some(2.0f32),
        auto_focus: Some(false),
        gain: Some(200.0),
        white_balance_temperature: Some(5000.0),
        auto_white_balance: Some(true),
        focus: Some(0.25),
        auto_exposure: Some(false),
        ..Controls::default()
    };
    let plan = apply_plan(&controls);
    let reasons: Vec<&str> = plan.iter().map(|s| s.reason()).collect();
    assert_eq!(
        reasons,
        vec!["auto_focus", "auto_exposure", "auto_white_balance", "focus", "exposure_iso", "white_balance_temperature", "zoom"]
    );
    assert!(matches!(plan[0], ApplyStep::SetFocusMode(FocusMode::Locked)));
    assert!(matches!(plan[1], ApplyStep::SetExposureMode(ExposureMode::Custom)));
    assert!(matches!(plan[2], ApplyStep::SetWhiteBalanceMode(WhiteBalanceMode::ContinuousAutoWhiteBalance)));
    assert!(matches!(plan[4], ApplyStep::SetCustomExposure { duration: None, iso: Some(v) } if v == 200.0));
    let checks: Vec<bool> = plan.iter().map(|s| s.checks_support()).collect();
    assert_eq!(checks, vec![true, true, true, true, false, true, false]);
    assert!(apply_plan(&Controls::<f32>::default()).is_empty());
}

#[test]
fn write_failures_are_reported_by_step() {
    let step: ApplyStep<f32> = ApplyStep::SetZoom(3.0);
    match exception_error(&step, Some("NSInvalidArgumentException".to_string())) {
        Error::Backend { platform, message } => {
            assert_eq!(platform, "macos");
            assert_eq!(message, "zoom: NSInvalidArgumentException");
        }
        other => panic!("unexpected {other:?}"),
    }
    match exception_error(&ApplyStep::<f32>::SetFocusMode(FocusMode::Locked), None) {
        Error::Backend { message, .. } => assert_eq!(message, "auto_focus: ObjC exception (nil)"),
        other => panic!("unexpected {other:?}"),
    }
    match unsupported_step(&ApplyStep::LockWhiteBalanceTemperature(4000.0f32)) {
        Error::Unsupported { platform, reason } => {
            assert_eq!(platform, "macos");
            assert_eq!(reason, "white_balance_temperature");
        }
        other => panic!("unexpected {other:?}"),
    }
}

#[test]
fn macos_capabilities_and_read_back() {
    assert_eq!(auto_capability(true, true), Some(true));
    assert_eq!(auto_capability(false, true), Some(false));
    assert_eq!(auto_capability(false, false), None);
    let caps = macos_capabilities(range(0.5), Some(true), None, Some(false), None, range(100.0), range(1.0));
    assert_eq!(caps.focus, range(0.5));
    assert_eq!(caps.brightness, None);
    assert_eq!(caps.white_balance_temperature, None);
    assert_eq!(caps.gain, range(100.0));
    let read = macos_read_back(&caps, 0.5f32, FocusMode::AutoFocus, 0.01, ExposureMode::Custom, Some(5000.0), WhiteBalanceMode::Locked, 200.0, 1.5);
    assert_eq!(read.focus, Some(0.5));
    assert_eq!(read.auto_focus, Some(true));
    assert_eq!(read.exposure, None);
    assert_eq!(read.auto_exposure, Some(false));
    assert_eq!(read.auto_white_balance, None);
    assert_eq!(read.gain, Some(200.0));
    assert_eq!(read.zoom, Some(1.5));
    assert_eq!(read.white_balance_temperature, None);
    assert_eq!(read.pan, None);
}

#[test]
fn macos_read_back_reports_only_exposed_controls() {
    let none = macos_capabilities(None, None, None, None, None, None, None);
    let read = macos_read_back(&none, 0.5f32, FocusMode::ContinuousAutoFocus, 0.01, ExposureMode::AutoExpose, Some(5000.0), WhiteBalanceMode::AutoWhiteBalance, 200.0, 1.5);
    assert_eq!(read, Controls::default());
    let mut all: ControlCapabilities<f32> = none;
    all.exposure = range(0.01);
    all.auto_exposure = Some(false);
    all.auto_white_balance = Some(true);
    all.white_balance_temperature = range(6500.0);
    let read = macos_read_back(&all, 0.5f32, FocusMode::Locked, 0.02, ExposureMode::AutoExpose, Some(5000.0), WhiteBalanceMode::AutoWhiteBalance, 200.0, 1.5);
    assert_eq!(read.exposure, Some(0.02));
    assert_eq!(read.auto_exposure, Some(true));
    assert_eq!(read.auto_white_balance, Some(true));
    assert_eq!(read.white_balance_temperature, Some(5000.0));
    assert_eq!(read.focus, None);
}

#[test]
fn macos_reset_with_auto_exposure_and_iso_passes_preflight() {
    let caps = macos_capabilities(None, None, range(0.01), Some(true), None, range(100.0), None);
    let reset = reset_controls(&caps, TargetPlatform::MacOs);
    assert_eq!(reset.auto_exposure, Some(true));
    assert_eq!(reset.gain, None);
    assert_eq!(reset.exposure, None);
    assert!(reject_unsupported(&reset).is_ok());
    assert_eq!(default_controls(&caps).gain, Some(100.0));
    assert_eq!(reset_controls(&caps, TargetPlatform::Linux).gain, Some(100.0));
    let caps = macos_capabilities(range(0.5), Some(true), range(0.01), Some(false), Some(true), range(100.0), range(1.0));
    let reset = reset_controls(&caps, TargetPlatform::MacOs);
    assert_eq!(reset, default_controls(&caps));
    assert!(reject_unsupported(&reset).is_ok());
}

#[test]
fn reset_applies_defaults_of_probed_capabilities() {
    let mut caps: ControlCapabilities<f32> = ControlCapabilities::default();
    caps.exposure = range(4.0);
    caps.auto_exposure = Some(true);
    caps.gain = range(2.0);
    let mut applied: Option<Controls<f32>> = None;
    let result = reset_to_defaults(
        TargetPlatform::Linux,
        || Ok(caps),
        |controls: &Controls<f32>| {
            applied = Some(*controls);
            Ok(())
        },
    );
    assert!(result.is_ok());
    let applied = applied.expect("the defaults were applied");
    assert_eq!(applied, default_controls(&caps));
    assert_eq!(applied.exposure, None);
    assert_eq!(applied.auto_exposure, Some(true));
    assert_eq!(applied.gain, Some(2.0));
    let mut applied_on_macos: Option<Controls<f32>> = None;
    let result = reset_to_defaults(
        TargetPlatform::MacOs,
        || Ok(caps),
        |controls: &Controls<f32>| {
            applied_on_macos = Some(*controls);
            reject_unsupported(controls)
        },
    );
    assert!(result.is_ok());
    assert_eq!(applied_on_macos.expect("the reset was applied").gain, None);
}

#[test]
fn reset_returns_apply_failure() {
    let caps: ControlCapabilities<f32> = ControlCapabilities::default();
    let result = reset_to_defaults(
        TargetPlatform::Windows,
        || Ok(caps),
        |_: &Controls<f32>| Err(Error::DeviceInUse),
    );
    assert!(matches!(result, Err(Error::DeviceInUse)));
}

#[test]
fn reset_stops_at_probe_failure() {
    let mut applied = false;
    let result = reset_to_defaults(
        TargetPlatform::MacOs,
        || -> Result<ControlCapabilities<f32>, Error> { Err(Error::PermissionDenied) },
        |_: &Controls<f32>| {
            applied = true;
            Ok(())
        },
    );
    assert!(matches!(result, Err(Error::PermissionDenied)));
    assert!(!applied);
}

#[test]
fn all_lists_every_kind_once() {
    for (i, a) in ControlKind::ALL.iter().enumerate() {
        for b in &ControlKind::ALL[i + 1..] {
            assert_ne!(a, b);
        }
    }
    assert!(ControlKind::ALL.contains(&ControlKind::Zoom));
    assert!(ControlKind::ALL.contains(&ControlKind::Focus));
}

#[test]
fn apply_loop_stops_at_first_failure() {
    let mut controls: Controls<f32> = Controls::default();
    controls.auto_focus = Some(true);
    controls.zoom = Some(2.0);
    let plan = apply_plan(&controls);
    assert_eq!(plan.len(), 2);
    assert!(matches!(start_apply(&plan), ApplyNext::Write(0)));
    assert!(matches!(start_apply(&Vec::<ApplyStep<f32>>::new()), ApplyNext::Done));
    assert!(matches!(next_apply_action(&plan, 0, WriteOutcome::Written), ApplyNext::Write(1)));
    assert!(matches!(next_apply_action(&plan, 1, WriteOutcome::Written), ApplyNext::Done));
    assert!(matches!(
        next_apply_action(&plan, 0, WriteOutcome::Unsupported),
        ApplyNext::Failed(Error::Unsupported { platform: "macos", reason: "auto_focus" })
    ));
    match next_apply_action(&plan, 1, WriteOutcome::Raised(Some("bad zoom".to_string()))) {
        ApplyNext::Failed(Error::Backend { platform, message }) => {
            assert_eq!(platform, "macos");
            assert_eq!(message, "zoom: bad zoom");
        }
        _ => panic!("a raised exception stops the loop"),
    }
    match next_apply_action(&plan, 0, WriteOutcome::Raised(None)) {
        ApplyNext::Failed(Error::Backend { message, .. }) => {
            assert_eq!(message, "auto_focus: ObjC exception (nil)")
        }
        _ => panic!("a raised exception stops the loop"),
    }
}
