//! Runtime camera controls: focus, exposure, white balance, PTZ, and image
//! adjustments.
//!
//! [`ControlCapabilities`] and [`ControlRange`] describe what a camera can
//! do, [`Controls`] what the caller wants to set, and [`ControlKind`] names
//! every control in a stable order.
//!
//! Numeric control values are in each platform's native unit and are only
//! carried, never computed on, by this module; the value type `V` is the
//! platform's numeric type (`f32` on every backend).

use vstd::prelude::*;

use crate::error::Error;

verus! {

/// AC mains frequency choice for cameras that filter power-line flicker.
#[derive(Copy, Clone, Debug, PartialEq, Eq, Hash)]
#[non_exhaustive]
pub enum PowerLineFrequency {
    /// Flicker suppression disabled.
    Disabled,
    /// 50 Hz mains.
    Hz50,
    /// 60 Hz mains.
    Hz60,
    /// Hardware auto-detects the mains frequency.
    Auto,
}

/// Requested tweaks to a device's runtime controls.
///
/// `None` leaves a control alone; `Some` applies the value. Values are in
/// the platform's native range; see [`ControlCapabilities`].
#[derive(Clone, Copy, Debug, Default, PartialEq)]
pub struct Controls<V> {
    /// Manual focus position.
    pub focus: Option<V>,
    /// Enable (`true`) or disable (`false`) continuous auto-focus.
    pub auto_focus: Option<bool>,
    /// Manual exposure value (seconds on macOS, microseconds on Linux).
    pub exposure: Option<V>,
    /// Enable or disable auto-exposure.
    pub auto_exposure: Option<bool>,
    /// Manual white-balance temperature.
    pub white_balance_temperature: Option<V>,
    /// Enable or disable auto white balance.
    pub auto_white_balance: Option<bool>,
    /// Image brightness.
    pub brightness: Option<V>,
    /// Image contrast.
    pub contrast: Option<V>,
    /// Image saturation.
    pub saturation: Option<V>,
    /// Image sharpness.
    pub sharpness: Option<V>,
    /// Sensor gain (ISO on macOS).
    pub gain: Option<V>,
    /// Backlight compensation.
    pub backlight_compensation: Option<V>,
    /// AC power-line frequency for flicker suppression.
    pub power_line_frequency: Option<PowerLineFrequency>,
    /// Pan axis (PTZ-capable devices only).
    pub pan: Option<V>,
    /// Tilt axis (PTZ-capable devices only).
    pub tilt: Option<V>,
    /// Zoom factor (PTZ-capable devices only).
    pub zoom: Option<V>,
}

/// Reported range for one numeric control, in the platform's native unit.
#[derive(Copy, Clone, Debug, PartialEq)]
#[non_exhaustive]
pub struct ControlRange<V> {
    /// Minimum accepted value, inclusive.
    pub min: V,
    /// Maximum accepted value, inclusive.
    pub max: V,
    /// Smallest step between accepted values; zero means continuous.
    pub step: V,
    /// Factory default value.
    pub default: V,
}

impl<V> ControlRange<V> {
    /// A range with the given endpoints, step and default.
    pub fn new(min: V, max: V, step: V, default: V) -> (range: ControlRange<V>)
        ensures
            range == (ControlRange { min, max, step, default }),
    {
        ControlRange { min, max, step, default }
    }
}

/// Power-line-frequency capability of a device that exposes it.
#[derive(Copy, Clone, Debug, PartialEq, Eq, Hash)]
#[non_exhaustive]
pub struct PowerLineFrequencyCapability {
    /// 50 Hz filtering is selectable.
    pub hz50: bool,
    /// 60 Hz filtering is selectable.
    pub hz60: bool,
    /// The "off" mode is selectable.
    pub disabled: bool,
    /// Hardware auto-detection is selectable.
    pub auto: bool,
    /// Factory default mode.
    pub default: PowerLineFrequency,
}

impl PowerLineFrequencyCapability {
    /// A capability with the given selectable modes and default.
    pub fn new(hz50: bool, hz60: bool, disabled: bool, auto: bool, default: PowerLineFrequency) -> (cap:
        PowerLineFrequencyCapability)
        ensures
            cap == (PowerLineFrequencyCapability { hz50, hz60, disabled, auto, default }),
    {
        PowerLineFrequencyCapability { hz50, hz60, disabled, auto, default }
    }
}

/// What a device reports it can do, per control.
///
/// Numeric controls carry their [`ControlRange`] when exposed; auto toggles
/// are `Some(true)` when auto is supported, `Some(false)` when the control is
/// manual-only, and `None` when the device has no such mode.
#[derive(Clone, Copy, Debug, Default, PartialEq)]
#[non_exhaustive]
pub struct ControlCapabilities<V> {
    /// Focus-position capability.
    pub focus: Option<ControlRange<V>>,
    /// Auto-focus toggle capability.
    pub auto_focus: Option<bool>,
    /// Exposure-value capability.
    pub exposure: Option<ControlRange<V>>,
    /// Auto-exposure toggle capability.
    pub auto_exposure: Option<bool>,
    /// White-balance-temperature capability.
    pub white_balance_temperature: Option<ControlRange<V>>,
    /// Auto-white-balance toggle capability.
    pub auto_white_balance: Option<bool>,
    /// Brightness capability.
    pub brightness: Option<ControlRange<V>>,
    /// Contrast capability.
    pub contrast: Option<ControlRange<V>>,
    /// Saturation capability.
    pub saturation: Option<ControlRange<V>>,
    /// Sharpness capability.
    pub sharpness: Option<ControlRange<V>>,
    /// Gain capability.
    pub gain: Option<ControlRange<V>>,
    /// Backlight-compensation capability.
    pub backlight_compensation: Option<ControlRange<V>>,
    /// Power-line-frequency capability.
    pub power_line_frequency: Option<PowerLineFrequencyCapability>,
    /// Pan capability.
    pub pan: Option<ControlRange<V>>,
    /// Tilt capability.
    pub tilt: Option<ControlRange<V>>,
    /// Zoom capability.
    pub zoom: Option<ControlRange<V>>,
}

/// Every control on [`Controls`] and [`ControlCapabilities`].
#[derive(Copy, Clone, Debug, PartialEq, Eq, Hash)]
#[non_exhaustive]
pub enum ControlKind {
    /// Manual focus position.
    Focus,
    /// Auto-focus toggle.
    AutoFocus,
    /// Manual exposure value.
    Exposure,
    /// Auto-exposure toggle.
    AutoExposure,
    /// Manual white-balance temperature.
    WhiteBalanceTemperature,
    /// Auto-white-balance toggle.
    AutoWhiteBalance,
    /// Image brightness.
    Brightness,
    /// Image contrast.
    Contrast,
    /// Image saturation.
    Saturation,
    /// Image sharpness.
    Sharpness,
    /// Sensor gain (ISO on macOS).
    Gain,
    /// Backlight compensation.
    BacklightCompensation,
    /// AC mains frequency filtering.
    PowerLineFrequency,
    /// Pan axis (PTZ-capable devices only).
    Pan,
    /// Tilt axis (PTZ-capable devices only).
    Tilt,
    /// Zoom factor (PTZ-capable devices only).
    Zoom,
}

/// Operating system a build targets.
#[derive(Copy, Clone, Debug, PartialEq, Eq)]
pub enum TargetPlatform {
    /// macOS (AVFoundation backend).
    MacOs,
    /// Windows (Media Foundation backend).
    Windows,
    /// Linux (V4L2 backend).
    Linux,
    /// Any other target.
    Other,
}

/// Snake-case name of the [`Controls`] field for `k`.
pub open spec fn label_spec(k: ControlKind) -> Seq<char> {
    match k {
        ControlKind::Focus => "focus"@,
        ControlKind::AutoFocus => "auto_focus"@,
        ControlKind::Exposure => "exposure"@,
        ControlKind::AutoExposure => "auto_exposure"@,
        ControlKind::WhiteBalanceTemperature => "white_balance_temperature"@,
        ControlKind::AutoWhiteBalance => "auto_white_balance"@,
        ControlKind::Brightness => "brightness"@,
        ControlKind::Contrast => "contrast"@,
        ControlKind::Saturation => "saturation"@,
        ControlKind::Sharpness => "sharpness"@,
        ControlKind::Gain => "gain"@,
        ControlKind::BacklightCompensation => "backlight_compensation"@,
        ControlKind::PowerLineFrequency => "power_line_frequency"@,
        ControlKind::Pan => "pan"@,
        ControlKind::Tilt => "tilt"@,
        ControlKind::Zoom => "zoom"@,
    }
}

/// Caveat shown for the image-processing controls on macOS.
pub open spec fn macos_image_caveat() -> Seq<char> {
    "macOS: AVFoundation doesn't expose per-channel image-processing controls. Apply CPU/GPU post-processing (shaders, color matrices) over the Frame bytes in your app. The library is capture-only."@
}

/// Caveat shown for power-line-frequency filtering on macOS.
pub open spec fn macos_power_line_caveat() -> Seq<char> {
    "macOS: AVFoundation doesn't expose AC mains frequency filtering."@
}

/// Caveat shown for pan and tilt on macOS.
pub open spec fn macos_pan_tilt_caveat() -> Seq<char> {
    "macOS: AVFoundation doesn't expose pan/tilt controls for built-in or UVC cameras."@
}

/// Caveat of control `k` on `platform`: present exactly for the controls the
/// platform cannot expose on any device (on macOS: brightness, contrast,
/// saturation, sharpness, backlight compensation, power-line frequency, pan
/// and tilt).
pub open spec fn caveat_spec(k: ControlKind, platform: TargetPlatform) -> Option<Seq<char>> {
    if platform != TargetPlatform::MacOs {
        None
    } else {
        match k {
            ControlKind::Brightness | ControlKind::Contrast | ControlKind::Saturation
            | ControlKind::Sharpness | ControlKind::BacklightCompensation => Some(
                macos_image_caveat(),
            ),
            ControlKind::PowerLineFrequency => Some(macos_power_line_caveat()),
            ControlKind::Pan | ControlKind::Tilt => Some(macos_pan_tilt_caveat()),
            _ => None,
        }
    }
}

/// Every [`ControlKind`] in declaration order.
pub open spec fn all_kinds() -> Seq<ControlKind> {
    seq![
        ControlKind::Focus,
        ControlKind::AutoFocus,
        ControlKind::Exposure,
        ControlKind::AutoExposure,
        ControlKind::WhiteBalanceTemperature,
        ControlKind::AutoWhiteBalance,
        ControlKind::Brightness,
        ControlKind::Contrast,
        ControlKind::Saturation,
        ControlKind::Sharpness,
        ControlKind::Gain,
        ControlKind::BacklightCompensation,
        ControlKind::PowerLineFrequency,
        ControlKind::Pan,
        ControlKind::Tilt,
        ControlKind::Zoom,
    ]
}

impl ControlKind {
    /// Every [`ControlKind`] variant in declaration order.
    pub const ALL: [ControlKind; 16] = [
        ControlKind::Focus,
        ControlKind::AutoFocus,
        ControlKind::Exposure,
        ControlKind::AutoExposure,
        ControlKind::WhiteBalanceTemperature,
        ControlKind::AutoWhiteBalance,
        ControlKind::Brightness,
        ControlKind::Contrast,
        ControlKind::Saturation,
        ControlKind::Sharpness,
        ControlKind::Gain,
        ControlKind::BacklightCompensation,
        ControlKind::PowerLineFrequency,
        ControlKind::Pan,
        ControlKind::Tilt,
        ControlKind::Zoom,
    ];

    /// Snake-case name matching the corresponding field on [`Controls`].
    pub fn label(&self) -> (label: &'static str)
        ensures
            label@ == label_spec(*self),
    {
        match self {
            ControlKind::Focus => "focus",
            ControlKind::AutoFocus => "auto_focus",
            ControlKind::Exposure => "exposure",
            ControlKind::AutoExposure => "auto_exposure",
            ControlKind::WhiteBalanceTemperature => "white_balance_temperature",
            ControlKind::AutoWhiteBalance => "auto_white_balance",
            ControlKind::Brightness => "brightness",
            ControlKind::Contrast => "contrast",
            ControlKind::Saturation => "saturation",
            ControlKind::Sharpness => "sharpness",
            ControlKind::Gain => "gain",
            ControlKind::BacklightCompensation => "backlight_compensation",
            ControlKind::PowerLineFrequency => "power_line_frequency",
            ControlKind::Pan => "pan",
            ControlKind::Tilt => "tilt",
            ControlKind::Zoom => "zoom",
        }
    }

    /// Platform-specific caveat for this control on `platform`, if any:
    /// tooltip text for controls that the platform cannot expose on any
    /// device.
    pub fn caveat(&self, platform: TargetPlatform) -> (caveat: Option<&'static str>)
        ensures
            match caveat {
                Some(text) => caveat_spec(*self, platform) == Some(text@),
                None => caveat_spec(*self, platform) is None,
            },
    {
        match platform {
            TargetPlatform::MacOs => {},
            _ => return None,
        }
        match self {
            ControlKind::Brightness | ControlKind::Contrast | ControlKind::Saturation
            | ControlKind::Sharpness | ControlKind::BacklightCompensation => Some(
                "macOS: AVFoundation doesn't expose per-channel image-processing controls. Apply CPU/GPU post-processing (shaders, color matrices) over the Frame bytes in your app. The library is capture-only.",
            ),
            ControlKind::PowerLineFrequency => Some(
                "macOS: AVFoundation doesn't expose AC mains frequency filtering.",
            ),
            ControlKind::Pan | ControlKind::Tilt => Some(
                "macOS: AVFoundation doesn't expose pan/tilt controls for built-in or UVC cameras.",
            ),
            ControlKind::Focus | ControlKind::AutoFocus | ControlKind::Exposure
            | ControlKind::AutoExposure | ControlKind::WhiteBalanceTemperature
            | ControlKind::AutoWhiteBalance | ControlKind::Gain | ControlKind::Zoom => None,
        }
    }
}

/// [`ControlKind::ALL`] visits every control exactly once, in declaration
/// order.
pub proof fn lemma_all_lists_every_kind_once(k: ControlKind)
    ensures
        ControlKind::ALL@ == all_kinds(),
        all_kinds().contains(k),
        all_kinds().no_duplicates(),
{
    assert(ControlKind::ALL@ =~= all_kinds());
    let s = all_kinds();
    let i: int = match k {
        ControlKind::Focus => 0,
        ControlKind::AutoFocus => 1,
        ControlKind::Exposure => 2,
        ControlKind::AutoExposure => 3,
        ControlKind::WhiteBalanceTemperature => 4,
        ControlKind::AutoWhiteBalance => 5,
        ControlKind::Brightness => 6,
        ControlKind::Contrast => 7,
        ControlKind::Saturation => 8,
        ControlKind::Sharpness => 9,
        ControlKind::Gain => 10,
        ControlKind::BacklightCompensation => 11,
        ControlKind::PowerLineFrequency => 12,
        ControlKind::Pan => 13,
        ControlKind::Tilt => 14,
        ControlKind::Zoom => 15,
    };
    assert(s[i] == k);
}

/// Default of an auto toggle: enable auto where the device supports it,
/// otherwise leave the toggle alone.
pub open spec fn auto_toggle_spec(supported: Option<bool>) -> Option<bool> {
    if supported == Some(true) {
        Some(true)
    } else {
        None
    }
}

/// Default of a numeric control: the range's default, if the control is
/// exposed.
pub open spec fn range_default_spec<V>(range: Option<ControlRange<V>>) -> Option<V> {
    match range {
        Some(r) => Some(r.default),
        None => None,
    }
}

/// Default of a numeric control that has an auto mode: left alone (so the
/// camera's own algorithm converges) when auto is supported, else the
/// range's default.
pub open spec fn numeric_with_auto_spec<V>(range: Option<ControlRange<V>>, auto: Option<bool>) -> Option<V> {
    if auto == Some(true) {
        None
    } else {
        range_default_spec(range)
    }
}

/// Controls that return every exposed control to its factory state.
pub open spec fn default_controls_spec<V>(c: ControlCapabilities<V>) -> Controls<V> {
    Controls {
        focus: numeric_with_auto_spec(c.focus, c.auto_focus),
        auto_focus: auto_toggle_spec(c.auto_focus),
        exposure: numeric_with_auto_spec(c.exposure, c.auto_exposure),
        auto_exposure: auto_toggle_spec(c.auto_exposure),
        white_balance_temperature: numeric_with_auto_spec(
            c.white_balance_temperature,
            c.auto_white_balance,
        ),
        auto_white_balance: auto_toggle_spec(c.auto_white_balance),
        brightness: range_default_spec(c.brightness),
        contrast: range_default_spec(c.contrast),
        saturation: range_default_spec(c.saturation),
        sharpness: range_default_spec(c.sharpness),
        gain: range_default_spec(c.gain),
        backlight_compensation: range_default_spec(c.backlight_compensation),
        power_line_frequency: match c.power_line_frequency {
            Some(p) => Some(p.default),
            None => None,
        },
        pan: range_default_spec(c.pan),
        tilt: range_default_spec(c.tilt),
        zoom: range_default_spec(c.zoom),
    }
}

fn auto_toggle(supported: Option<bool>) -> (toggle: Option<bool>)
    ensures
        toggle == auto_toggle_spec(supported),
{
    match supported {
        Some(true) => Some(true),
        _ => None,
    }
}

fn range_default<V: Copy>(range: &Option<ControlRange<V>>) -> (value: Option<V>)
    ensures
        value == range_default_spec(*range),
{
    match range {
        Some(r) => Some(r.default),
        None => None,
    }
}

fn numeric_with_auto<V: Copy>(range: &Option<ControlRange<V>>, auto: Option<bool>) -> (value:
    Option<V>)
    ensures
        value == numeric_with_auto_spec(*range, auto),
{
    match auto {
        Some(true) => None,
        _ => range_default(range),
    }
}

/// Builds [`Controls`] that, when applied, return every exposed control to
/// a factory state.
///
/// Axes with an auto mode (focus, exposure, white-balance temperature)
/// prefer enabling auto over writing a manual default; without auto they
/// fall back to the range's default. Every other exposed control carries
/// its reported default. Controls the device does not expose stay `None`.
pub fn default_controls<V: Copy>(capabilities: &ControlCapabilities<V>) -> (controls: Controls<V>)
    ensures
        controls == default_controls_spec(*capabilities),
{
    Controls {
        focus: numeric_with_auto(&capabilities.focus, capabilities.auto_focus),
        auto_focus: auto_toggle(capabilities.auto_focus),
        exposure: numeric_with_auto(&capabilities.exposure, capabilities.auto_exposure),
        auto_exposure: auto_toggle(capabilities.auto_exposure),
        white_balance_temperature: numeric_with_auto(
            &capabilities.white_balance_temperature,
            capabilities.auto_white_balance,
        ),
        auto_white_balance: auto_toggle(capabilities.auto_white_balance),
        brightness: range_default(&capabilities.brightness),
        contrast: range_default(&capabilities.contrast),
        saturation: range_default(&capabilities.saturation),
        sharpness: range_default(&capabilities.sharpness),
        gain: range_default(&capabilities.gain),
        backlight_compensation: range_default(&capabilities.backlight_compensation),
        power_line_frequency: match &capabilities.power_line_frequency {
            Some(p) => Some(p.default),
            None => None,
        },
        pan: range_default(&capabilities.pan),
        tilt: range_default(&capabilities.tilt),
        zoom: range_default(&capabilities.zoom),
    }
}

/// Controls that reset a device with capabilities `c` on `platform`: its
/// [`default_controls_spec`], except that on macOS the ISO (gain) is left
/// to the camera whenever auto-exposure is enabled. AVFoundation sets ISO
/// together with the exposure duration, so with auto-exposure on, the ISO
/// default is the camera's own choice, and writing it would turn
/// auto-exposure off again.
pub open spec fn reset_controls_spec<V>(c: ControlCapabilities<V>, platform: TargetPlatform) -> Controls<V> {
    let d = default_controls_spec(c);
    if platform == TargetPlatform::MacOs && d.auto_exposure == Some(true) {
        Controls { gain: None, ..d }
    } else {
        d
    }
}

/// Builds the controls that reset a device with `capabilities` on
/// `platform`; see [`reset_controls_spec`].
pub fn reset_controls<V: Copy>(capabilities: &ControlCapabilities<V>, platform: TargetPlatform) -> (controls: Controls<V>)
    ensures
        controls == reset_controls_spec(*capabilities, platform),
{
    let defaults = default_controls(capabilities);
    match platform {
        TargetPlatform::MacOs => match defaults.auto_exposure {
            Some(true) => Controls { gain: None, ..defaults },
            _ => defaults,
        },
        _ => defaults,
    }
}

/// Probes a device's capabilities with `probe`, builds the controls that
/// return it to a factory state on `platform` ([`reset_controls`], the
/// [`default_controls`] with the platform's adjustments), and applies them
/// with `apply`: a "start over" escape hatch for a camera that looks wrong.
///
/// A failed probe is returned unchanged and nothing is applied; otherwise
/// the result is that of applying exactly those controls.
pub fn reset_to_defaults<V: Copy, P, A>(platform: TargetPlatform, probe: P, apply: A) -> (result: Result<(), Error>) where
    P: FnOnce() -> Result<ControlCapabilities<V>, Error>,
    A: FnOnce(&Controls<V>) -> Result<(), Error>,

    requires
        call_requires(probe, ()),
        forall|c: &Controls<V>| #[trigger] call_requires(apply, (c,)),
    ensures
        exists|probed: Result<ControlCapabilities<V>, Error>|
            #![trigger call_ensures(probe, (), probed)]
            call_ensures(probe, (), probed) && match probed {
                Err(e) => result == Err::<(), Error>(e),
                Ok(caps) => call_ensures(apply, (&reset_controls_spec(caps, platform),), result),
            },
{
    let probed = probe();
    match probed {
        Err(e) => Err(e),
        Ok(capabilities) => {
            let controls = reset_controls(&capabilities, platform);
            apply(&controls)
        },
    }
}

/// Resetting touches only what the device exposes: a control whose
/// capability is absent stays `None`, and an auto toggle is never switched
/// off.
pub proof fn lemma_defaults_touch_only_exposed<V>(c: ControlCapabilities<V>)
    ensures
        ({
            let d = default_controls_spec(c);
            &&& c.focus is None ==> d.focus is None
            &&& c.exposure is None ==> d.exposure is None
            &&& c.white_balance_temperature is None ==> d.white_balance_temperature is None
            &&& c.brightness is None ==> d.brightness is None
            &&& c.contrast is None ==> d.contrast is None
            &&& c.saturation is None ==> d.saturation is None
            &&& c.sharpness is None ==> d.sharpness is None
            &&& c.gain is None ==> d.gain is None
            &&& c.backlight_compensation is None ==> d.backlight_compensation is None
            &&& c.power_line_frequency is None ==> d.power_line_frequency is None
            &&& c.pan is None ==> d.pan is None
            &&& c.tilt is None ==> d.tilt is None
            &&& c.zoom is None ==> d.zoom is None
            &&& d.auto_focus != Some(false)
            &&& d.auto_exposure != Some(false)
            &&& d.auto_white_balance != Some(false)
        }),
{
}

/// Resetting prefers auto: on an axis whose auto mode is supported, auto is
/// enabled and no manual value is written; on an axis without it, the
/// manual value is the range's default.
pub proof fn lemma_defaults_prefer_auto<V>(c: ControlCapabilities<V>)
    ensures
        ({
            let d = default_controls_spec(c);
            &&& c.auto_focus == Some(true) ==> d.auto_focus == Some(true) && d.focus is None
            &&& c.auto_exposure == Some(true) ==> d.auto_exposure == Some(true) && d.exposure is None
            &&& c.auto_white_balance == Some(true) ==> d.auto_white_balance == Some(true)
                && d.white_balance_temperature is None
            &&& c.auto_focus != Some(true) ==> d.auto_focus is None && d.focus == range_default_spec(
                c.focus,
            )
            &&& c.auto_exposure != Some(true) ==> d.auto_exposure is None && d.exposure
                == range_default_spec(c.exposure)
            &&& c.auto_white_balance != Some(true) ==> d.auto_white_balance is None
                && d.white_balance_temperature == range_default_spec(c.white_balance_temperature)
        }),
{
}

/// A reset carries each exposed control's reported factory default: every
/// numeric control without an auto mode gets exactly its range's `default`
/// (never its minimum, maximum or step); an axis with a supported auto mode
/// gets auto enabled and no manual value, and otherwise its range's
/// `default`; the power-line filter gets its reported default mode; and a
/// control the device does not expose is left alone.
pub proof fn lemma_defaults_carry_range_defaults<V>(c: ControlCapabilities<V>)
    ensures
        ({
            let d = default_controls_spec(c);
            &&& (c.brightness matches Some(r) ==> d.brightness == Some(r.default))
            &&& (c.brightness is None ==> d.brightness is None)
            &&& (c.contrast matches Some(r) ==> d.contrast == Some(r.default))
            &&& (c.contrast is None ==> d.contrast is None)
            &&& (c.saturation matches Some(r) ==> d.saturation == Some(r.default))
            &&& (c.saturation is None ==> d.saturation is None)
            &&& (c.sharpness matches Some(r) ==> d.sharpness == Some(r.default))
            &&& (c.sharpness is None ==> d.sharpness is None)
            &&& (c.gain matches Some(r) ==> d.gain == Some(r.default))
            &&& (c.gain is None ==> d.gain is None)
            &&& (c.backlight_compensation matches Some(r) ==> d.backlight_compensation == Some(r.default))
            &&& (c.backlight_compensation is None ==> d.backlight_compensation is None)
            &&& (c.pan matches Some(r) ==> d.pan == Some(r.default))
            &&& (c.pan is None ==> d.pan is None)
            &&& (c.tilt matches Some(r) ==> d.tilt == Some(r.default))
            &&& (c.tilt is None ==> d.tilt is None)
            &&& (c.zoom matches Some(r) ==> d.zoom == Some(r.default))
            &&& (c.zoom is None ==> d.zoom is None)
            &&& (c.auto_focus == Some(true) ==> d.auto_focus == Some(true) && d.focus is None)
            &&& (c.auto_focus != Some(true) ==> d.auto_focus is None)
            &&& (c.auto_focus != Some(true) ==> (c.focus matches Some(r) ==> d.focus == Some(r.default)))
            &&& (c.focus is None ==> d.focus is None)
            &&& (c.auto_exposure == Some(true) ==> d.auto_exposure == Some(true) && d.exposure is None)
            &&& (c.auto_exposure != Some(true) ==> d.auto_exposure is None)
            &&& (c.auto_exposure != Some(true) ==> (c.exposure matches Some(r) ==> d.exposure == Some(r.default)))
            &&& (c.exposure is None ==> d.exposure is None)
            &&& (c.auto_white_balance == Some(true) ==> d.auto_white_balance == Some(true) && d.white_balance_temperature is None)
            &&& (c.auto_white_balance != Some(true) ==> d.auto_white_balance is None)
            &&& (c.auto_white_balance != Some(true) ==> (c.white_balance_temperature matches Some(r) ==> d.white_balance_temperature == Some(r.default)))
            &&& (c.white_balance_temperature is None ==> d.white_balance_temperature is None)
            &&& (c.power_line_frequency matches Some(p) ==> d.power_line_frequency == Some(p.default))
            &&& (c.power_line_frequency is None ==> d.power_line_frequency is None)
        }),
{
}

/// Resetting returns the factory defaults everywhere except for one macOS
/// adjustment: off macOS the reset controls are exactly
/// [`default_controls`]; on macOS they differ from them only in leaving
/// the ISO (gain) alone when auto-exposure is enabled.
pub proof fn lemma_reset_is_defaults_but_macos_iso<V>(c: ControlCapabilities<V>, platform: TargetPlatform)
    ensures
        ({
            let r = reset_controls_spec(c, platform);
            let d = default_controls_spec(c);
            &&& platform != TargetPlatform::MacOs ==> r == d
            &&& Controls { gain: d.gain, ..r } == d
            &&& (platform == TargetPlatform::MacOs && c.auto_exposure == Some(true)) ==> r.gain is None
            &&& !(platform == TargetPlatform::MacOs && c.auto_exposure == Some(true)) ==> r.gain == d.gain
        }),
{
}

/// A caveat is shown only on macOS, and there exactly for the controls
/// AVFoundation cannot expose: brightness, contrast, saturation,
/// sharpness, backlight compensation, power-line frequency, pan and tilt.
pub proof fn lemma_caveats_only_for_unexposable(k: ControlKind, platform: TargetPlatform)
    ensures
        caveat_spec(k, platform) is Some <==> (platform == TargetPlatform::MacOs && (k
            == ControlKind::Brightness || k == ControlKind::Contrast || k == ControlKind::Saturation
            || k == ControlKind::Sharpness || k == ControlKind::BacklightCompensation || k
            == ControlKind::PowerLineFrequency || k == ControlKind::Pan || k == ControlKind::Tilt)),
{
}

} // verus!
