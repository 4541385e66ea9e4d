//! Decisions of the macOS (AVFoundation) control backend.
//!
//! The platform layer queries the capture device and performs the writes;
//! what is reported, which requests are refused, which writes are made in
//! which order, and how a failed write is reported are decided here.

use vstd::prelude::*;

use crate::controls::{reset_controls_spec, ControlCapabilities, ControlRange, Controls, TargetPlatform};
use crate::error::{is_backend, is_unsupported, Error};

verus! {

/// AVFoundation focus modes.
#[derive(Clone, Copy, Debug, PartialEq, Eq)]
pub enum FocusMode {
    /// Focus held at the lens position.
    Locked,
    /// Single auto-focus pass, then locked.
    AutoFocus,
    /// Focus adjusted continuously.
    ContinuousAutoFocus,
}

/// AVFoundation exposure modes.
#[derive(Clone, Copy, Debug, PartialEq, Eq)]
pub enum ExposureMode {
    /// Exposure held at its current value.
    Locked,
    /// Single auto-exposure pass, then locked.
    AutoExpose,
    /// Exposure adjusted continuously.
    ContinuousAutoExposure,
    /// Exposure set by explicit duration and ISO.
    Custom,
}

/// AVFoundation white-balance modes.
#[derive(Clone, Copy, Debug, PartialEq, Eq)]
pub enum WhiteBalanceMode {
    /// White balance held at its current gains.
    Locked,
    /// Single auto-white-balance pass, then locked.
    AutoWhiteBalance,
    /// White balance adjusted continuously.
    ContinuousAutoWhiteBalance,
}

/// Name of the platform in macOS errors.
pub open spec fn macos() -> Seq<char> {
    "macos"@
}

/// First control of `c` that AVFoundation cannot apply, as the reason
/// reported for it: auto-exposure together with an explicit exposure or
/// gain, then brightness, contrast, saturation, sharpness, backlight
/// compensation, power-line frequency, pan and tilt, in that order.
pub open spec fn unsupported_reason<V>(c: Controls<V>) -> Option<Seq<char>> {
    if c.auto_exposure == Some(true) && (c.exposure is Some || c.gain is Some) {
        Some("auto_exposure_with_explicit_exposure_or_gain"@)
    } else if c.brightness is Some {
        Some("brightness"@)
    } else if c.contrast is Some {
        Some("contrast"@)
    } else if c.saturation is Some {
        Some("saturation"@)
    } else if c.sharpness is Some {
        Some("sharpness"@)
    } else if c.backlight_compensation is Some {
        Some("backlight_compensation"@)
    } else if c.power_line_frequency is Some {
        Some("power_line_frequency"@)
    } else if c.pan is Some {
        Some("pan"@)
    } else if c.tilt is Some {
        Some("tilt"@)
    } else {
        None
    }
}

fn unsupported(reason: &'static str) -> (e: Error)
    ensures
        is_unsupported(e, macos(), reason@),
{
    Error::Unsupported { platform: "macos", reason }
}

/// Refuses, before touching the device, a request that AVFoundation cannot
/// honour; see [`unsupported_reason`] for the order of the checks.
pub fn reject_unsupported<V>(controls: &Controls<V>) -> (result: Result<(), Error>)
    ensures
        match unsupported_reason(*controls) {
            None => result is Ok,
            Some(reason) => match result {
                Err(e) => is_unsupported(e, macos(), reason),
                Ok(_) => false,
            },
        },
{
    if controls.auto_exposure == Some(true) && (controls.exposure.is_some()
        || controls.gain.is_some()) {
        return Err(unsupported("auto_exposure_with_explicit_exposure_or_gain"));
    }
    if controls.brightness.is_some() {
        return Err(unsupported("brightness"));
    }
    if controls.contrast.is_some() {
        return Err(unsupported("contrast"));
    }
    if controls.saturation.is_some() {
        return Err(unsupported("saturation"));
    }
    if controls.sharpness.is_some() {
        return Err(unsupported("sharpness"));
    }
    if controls.backlight_compensation.is_some() {
        return Err(unsupported("backlight_compensation"));
    }
    if controls.power_line_frequency.is_some() {
        return Err(unsupported("power_line_frequency"));
    }
    if controls.pan.is_some() {
        return Err(unsupported("pan"));
    }
    if controls.tilt.is_some() {
        return Err(unsupported("tilt"));
    }
    Ok(())
}

/// One write to the capture device, made while it is locked for
/// configuration.
pub enum ApplyStep<V> {
    /// Switch the focus mode.
    SetFocusMode(FocusMode),
    /// Switch the exposure mode.
    SetExposureMode(ExposureMode),
    /// Switch the white-balance mode.
    SetWhiteBalanceMode(WhiteBalanceMode),
    /// Lock focus at a lens position (`0..=1`).
    LockLensPosition(V),
    /// Custom exposure; an absent duration or ISO keeps the device's current
    /// value, an ISO must lie in the active format's range.
    SetCustomExposure { duration: Option<V>, iso: Option<V> },
    /// Lock white balance at a temperature, keeping the current tint.
    LockWhiteBalanceTemperature(V),
    /// Set the zoom factor (within the device's range).
    SetZoom(V),
}

/// Mode writes for the auto-focus toggle of `c`.
pub open spec fn focus_mode_steps<V>(c: Controls<V>) -> Seq<ApplyStep<V>> {
    match c.auto_focus {
        Some(true) => seq![ApplyStep::SetFocusMode(FocusMode::ContinuousAutoFocus)],
        Some(false) => seq![ApplyStep::SetFocusMode(FocusMode::Locked)],
        None => seq![],
    }
}

/// Mode writes for the auto-exposure toggle of `c`.
pub open spec fn exposure_mode_steps<V>(c: Controls<V>) -> Seq<ApplyStep<V>> {
    match c.auto_exposure {
        Some(true) => seq![ApplyStep::SetExposureMode(ExposureMode::ContinuousAutoExposure)],
        Some(false) => seq![ApplyStep::SetExposureMode(ExposureMode::Custom)],
        None => seq![],
    }
}

/// Mode writes for the auto-white-balance toggle of `c`.
pub open spec fn white_balance_mode_steps<V>(c: Controls<V>) -> Seq<ApplyStep<V>> {
    match c.auto_white_balance {
        Some(true) => seq![
            ApplyStep::SetWhiteBalanceMode(WhiteBalanceMode::ContinuousAutoWhiteBalance),
        ],
        Some(false) => seq![ApplyStep::SetWhiteBalanceMode(WhiteBalanceMode::Locked)],
        None => seq![],
    }
}

/// Value writes of `c`: lens position, custom exposure (duration and ISO
/// together), white-balance temperature, zoom.
pub open spec fn value_steps<V>(c: Controls<V>) -> Seq<ApplyStep<V>> {
    let lens = match c.focus {
        Some(p) => seq![ApplyStep::LockLensPosition(p)],
        None => seq![],
    };
    let exposure = if c.exposure is Some || c.gain is Some {
        seq![ApplyStep::SetCustomExposure { duration: c.exposure, iso: c.gain }]
    } else {
        seq![]
    };
    let temperature = match c.white_balance_temperature {
        Some(t) => seq![ApplyStep::LockWhiteBalanceTemperature(t)],
        None => seq![],
    };
    let zoom = match c.zoom {
        Some(z) => seq![ApplyStep::SetZoom(z)],
        None => seq![],
    };
    lens + exposure + temperature + zoom
}

/// The writes that apply `c`, in order: the focus, exposure and
/// white-balance modes, then the lens position, the custom exposure
/// (duration and ISO together), the white-balance temperature, and the zoom.
/// Enabling an auto toggle selects the continuous mode; disabling it selects
/// `Locked` (focus, white balance) or `Custom` (exposure).
pub open spec fn apply_plan_spec<V>(c: Controls<V>) -> Seq<ApplyStep<V>> {
    focus_mode_steps(c) + exposure_mode_steps(c) + white_balance_mode_steps(c) + value_steps(c)
}

fn push_mode_steps<V: Copy>(plan: &mut Vec<ApplyStep<V>>, controls: &Controls<V>)
    ensures
        final(plan)@ == old(plan)@ + focus_mode_steps(*controls) + exposure_mode_steps(*controls)
            + white_balance_mode_steps(*controls),
{
    let ghost p0 = plan@;
    match controls.auto_focus {
        Some(true) => plan.push(ApplyStep::SetFocusMode(FocusMode::ContinuousAutoFocus)),
        Some(false) => plan.push(ApplyStep::SetFocusMode(FocusMode::Locked)),
        None => {},
    }
    assert(plan@ =~= p0 + focus_mode_steps(*controls));
    let ghost p1 = plan@;
    match controls.auto_exposure {
        Some(true) => plan.push(ApplyStep::SetExposureMode(ExposureMode::ContinuousAutoExposure)),
        Some(false) => plan.push(ApplyStep::SetExposureMode(ExposureMode::Custom)),
        None => {},
    }
    assert(plan@ =~= p1 + exposure_mode_steps(*controls));
    let ghost p2 = plan@;
    match controls.auto_white_balance {
        Some(true) => plan.push(
            ApplyStep::SetWhiteBalanceMode(WhiteBalanceMode::ContinuousAutoWhiteBalance),
        ),
        Some(false) => plan.push(ApplyStep::SetWhiteBalanceMode(WhiteBalanceMode::Locked)),
        None => {},
    }
    assert(plan@ =~= p2 + white_balance_mode_steps(*controls));
}

fn push_value_steps<V: Copy>(plan: &mut Vec<ApplyStep<V>>, controls: &Controls<V>)
    ensures
        final(plan)@ == old(plan)@ + value_steps(*controls),
{
    let ghost p0 = plan@;
    match controls.focus {
        Some(p) => plan.push(ApplyStep::LockLensPosition(p)),
        None => {},
    }
    let ghost p1 = plan@;
    if controls.exposure.is_some() || controls.gain.is_some() {
        plan.push(ApplyStep::SetCustomExposure { duration: controls.exposure, iso: controls.gain });
    }
    let ghost p2 = plan@;
    match controls.white_balance_temperature {
        Some(t) => plan.push(ApplyStep::LockWhiteBalanceTemperature(t)),
        None => {},
    }
    let ghost p3 = plan@;
    match controls.zoom {
        Some(z) => plan.push(ApplyStep::SetZoom(z)),
        None => {},
    }
    assert(plan@ =~= p0 + value_steps(*controls));
}

/// Lists the device writes that apply `controls`; see [`apply_plan_spec`].
pub fn apply_plan<V: Copy>(controls: &Controls<V>) -> (plan: Vec<ApplyStep<V>>)
    ensures
        plan@ == apply_plan_spec(*controls),
{
    let mut plan: Vec<ApplyStep<V>> = Vec::new();
    push_mode_steps(&mut plan, controls);
    push_value_steps(&mut plan, controls);
    assert(plan@ =~= apply_plan_spec(*controls));
    plan
}

/// Name under which a failed write is reported.
pub open spec fn step_reason_spec<V>(step: ApplyStep<V>) -> Seq<char> {
    match step {
        ApplyStep::SetFocusMode(_) => "auto_focus"@,
        ApplyStep::SetExposureMode(_) => "auto_exposure"@,
        ApplyStep::SetWhiteBalanceMode(_) => "auto_white_balance"@,
        ApplyStep::LockLensPosition(_) => "focus"@,
        ApplyStep::SetCustomExposure { .. } => "exposure_iso"@,
        ApplyStep::LockWhiteBalanceTemperature(_) => "white_balance_temperature"@,
        ApplyStep::SetZoom(_) => "zoom"@,
    }
}

/// Whether the device is asked, before the write, if it supports the step;
/// the custom exposure and the zoom are written without asking.
pub open spec fn checks_support_spec<V>(step: ApplyStep<V>) -> bool {
    !(step is SetCustomExposure || step is SetZoom)
}

impl<V> ApplyStep<V> {
    /// Name under which a failure of this write is reported.
    pub fn reason(&self) -> (reason: &'static str)
        ensures
            reason@ == step_reason_spec(*self),
    {
        match self {
            ApplyStep::SetFocusMode(_) => "auto_focus",
            ApplyStep::SetExposureMode(_) => "auto_exposure",
            ApplyStep::SetWhiteBalanceMode(_) => "auto_white_balance",
            ApplyStep::LockLensPosition(_) => "focus",
            ApplyStep::SetCustomExposure { .. } => "exposure_iso",
            ApplyStep::LockWhiteBalanceTemperature(_) => "white_balance_temperature",
            ApplyStep::SetZoom(_) => "zoom",
        }
    }

    /// Whether the device's support for this write is checked first.
    pub fn checks_support(&self) -> (checks: bool)
        ensures
            checks == checks_support_spec(*self),
    {
        match self {
            ApplyStep::SetCustomExposure { .. } | ApplyStep::SetZoom(_) => false,
            _ => true,
        }
    }
}

/// The error for a write the device reports it does not support: an
/// `Unsupported` error of macOS named after the write.
pub fn unsupported_step<V>(step: &ApplyStep<V>) -> (e: Error)
    ensures
        is_unsupported(e, macos(), step_reason_spec(*step)),
{
    unsupported(step.reason())
}

/// Text used when the raised exception carries no object.
pub open spec fn nil_exception_text() -> Seq<char> {
    "ObjC exception (nil)"@
}

/// The error for a write that raised an Objective-C exception: a macOS
/// backend error whose message is the write's name, `": "`, and the
/// exception's description (or [`nil_exception_text`] when the exception
/// was nil).
pub fn exception_error<V>(step: &ApplyStep<V>, description: Option<String>) -> (e: Error)
    ensures
        is_backend(
            e,
            macos(),
            step_reason_spec(*step) + ": "@ + match description {
                Some(d) => d@,
                None => nil_exception_text(),
            },
        ),
{
    let mut message = String::from_str(step.reason());
    message.append(": ");
    match &description {
        Some(d) => message.append(d.as_str()),
        None => message.append("ObjC exception (nil)"),
    }
    Error::Backend { platform: "macos", message }
}

/// What the device answered to one write of an apply plan.
pub enum WriteOutcome {
    /// The device does not support the write (asked for writes whose
    /// support is checked, see [`ApplyStep::checks_support`]), or its value
    /// lies outside the range the device accepts.
    Unsupported,
    /// The write raised an Objective-C exception; its description, or
    /// `None` when the exception was nil.
    Raised(Option<String>),
    /// The write was made.
    Written,
}

/// What the apply loop does next.
pub enum ApplyNext {
    /// Make the write at this index of the plan.
    Write(usize),
    /// Every write of the plan was made.
    Done,
    /// Stop with this error; no further write is made.
    Failed(Error),
}

/// Where the apply loop starts: at the first write of `plan`, or done at
/// once when the plan is empty.
pub fn start_apply<V>(plan: &Vec<ApplyStep<V>>) -> (next: ApplyNext)
    ensures
        plan@.len() == 0 ==> next is Done,
        plan@.len() > 0 ==> next == ApplyNext::Write(0),
{
    if plan.len() == 0 {
        ApplyNext::Done
    } else {
        ApplyNext::Write(0)
    }
}

/// Decides the apply loop after the write at `index` of `plan` was
/// answered with `outcome`: the loop stops at the first failure, reporting
/// an unsupported write as [`unsupported_step`] and a raised exception as
/// [`exception_error`]; after a successful write it moves to the next one,
/// and it is done after the last.
pub fn next_apply_action<V>(plan: &Vec<ApplyStep<V>>, index: usize, outcome: WriteOutcome) -> (next: ApplyNext)
    requires
        index < plan@.len(),
    ensures
        match outcome {
            WriteOutcome::Unsupported => next matches ApplyNext::Failed(e) && is_unsupported(
                e,
                macos(),
                step_reason_spec(plan@[index as int]),
            ),
            WriteOutcome::Raised(description) => next matches ApplyNext::Failed(e) && is_backend(
                e,
                macos(),
                step_reason_spec(plan@[index as int]) + ": "@ + match description {
                    Some(d) => d@,
                    None => nil_exception_text(),
                },
            ),
            WriteOutcome::Written => if index + 1 < plan@.len() {
                next == ApplyNext::Write((index + 1) as usize)
            } else {
                next is Done
            },
        },
{
    match outcome {
        WriteOutcome::Unsupported => ApplyNext::Failed(unsupported_step(&plan[index])),
        WriteOutcome::Raised(description) => ApplyNext::Failed(
            exception_error(&plan[index], description),
        ),
        WriteOutcome::Written => {
            if index < plan.len() - 1 {
                ApplyNext::Write(index + 1)
            } else {
                ApplyNext::Done
            }
        },
    }
}

/// Capability of an auto toggle from the device's mode support: auto when
/// the continuous mode is supported, manual-only when only the fixed mode
/// is, and absent otherwise.
pub open spec fn auto_capability_spec(continuous: bool, fixed: bool) -> Option<bool> {
    if continuous {
        Some(true)
    } else if fixed {
        Some(false)
    } else {
        None
    }
}

/// Capability of an auto toggle; see [`auto_capability_spec`].
pub fn auto_capability(continuous: bool, fixed: bool) -> (capability: Option<bool>)
    ensures
        capability == auto_capability_spec(continuous, fixed),
{
    if continuous {
        Some(true)
    } else if fixed {
        Some(false)
    } else {
        None
    }
}

/// What a macOS device reports: focus, exposure, gain (ISO) and zoom ranges
/// and the three auto toggles from the probe; AVFoundation exposes no
/// white-balance temperature range, image adjustments, power-line filter,
/// pan or tilt.
pub open spec fn macos_capabilities_spec<V>(
    focus: Option<ControlRange<V>>,
    auto_focus: Option<bool>,
    exposure: Option<ControlRange<V>>,
    auto_exposure: Option<bool>,
    auto_white_balance: Option<bool>,
    gain: Option<ControlRange<V>>,
    zoom: Option<ControlRange<V>>,
) -> ControlCapabilities<V> {
    ControlCapabilities {
        focus,
        auto_focus,
        exposure,
        auto_exposure,
        white_balance_temperature: None,
        auto_white_balance,
        brightness: None,
        contrast: None,
        saturation: None,
        sharpness: None,
        gain,
        backlight_compensation: None,
        power_line_frequency: None,
        pan: None,
        tilt: None,
        zoom,
    }
}

/// Assembles the capabilities of a macOS device from its probe; see
/// [`macos_capabilities_spec`].
pub fn macos_capabilities<V>(
    focus: Option<ControlRange<V>>,
    auto_focus: Option<bool>,
    exposure: Option<ControlRange<V>>,
    auto_exposure: Option<bool>,
    auto_white_balance: Option<bool>,
    gain: Option<ControlRange<V>>,
    zoom: Option<ControlRange<V>>,
) -> (capabilities: ControlCapabilities<V>)
    ensures
        capabilities == macos_capabilities_spec(
            focus,
            auto_focus,
            exposure,
            auto_exposure,
            auto_white_balance,
            gain,
            zoom,
        ),
{
    ControlCapabilities {
        focus,
        auto_focus,
        exposure,
        auto_exposure,
        white_balance_temperature: None,
        auto_white_balance,
        brightness: None,
        contrast: None,
        saturation: None,
        sharpness: None,
        gain,
        backlight_compensation: None,
        power_line_frequency: None,
        pan: None,
        tilt: None,
        zoom,
    }
}

/// The focus mode runs an automatic algorithm.
pub open spec fn focus_is_auto(mode: FocusMode) -> bool {
    mode == FocusMode::ContinuousAutoFocus || mode == FocusMode::AutoFocus
}

/// The exposure mode runs an automatic algorithm.
pub open spec fn exposure_is_auto(mode: ExposureMode) -> bool {
    mode == ExposureMode::ContinuousAutoExposure || mode == ExposureMode::AutoExpose
}

/// The white-balance mode runs an automatic algorithm.
pub open spec fn white_balance_is_auto(mode: WhiteBalanceMode) -> bool {
    mode == WhiteBalanceMode::ContinuousAutoWhiteBalance || mode == WhiteBalanceMode::AutoWhiteBalance
}

/// `value` when the device exposes the control (`exposed`), else `None`.
pub open spec fn if_exposed<T>(exposed: bool, value: T) -> Option<T> {
    if exposed {
        Some(value)
    } else {
        None
    }
}

/// Current state of a macOS device with capabilities `caps`, read back as
/// [`Controls`]: lens position, exposure duration, ISO as gain, zoom, the
/// white-balance temperature when the device gains are valid, and each auto
/// toggle on exactly when its mode is automatic (one-shot or continuous).
/// Every control that `caps` does not expose reads back as `None`.
pub open spec fn macos_read_back_spec<V>(
    caps: ControlCapabilities<V>,
    lens_position: V,
    focus_mode: FocusMode,
    exposure_duration: V,
    exposure_mode: ExposureMode,
    white_balance_temperature: Option<V>,
    white_balance_mode: WhiteBalanceMode,
    iso: V,
    zoom: V,
) -> Controls<V> {
    Controls {
        focus: if_exposed(caps.focus is Some, lens_position),
        auto_focus: if_exposed(caps.auto_focus is Some, focus_is_auto(focus_mode)),
        exposure: if_exposed(caps.exposure is Some, exposure_duration),
        auto_exposure: if_exposed(caps.auto_exposure is Some, exposure_is_auto(exposure_mode)),
        white_balance_temperature: if caps.white_balance_temperature is Some {
            white_balance_temperature
        } else {
            None
        },
        auto_white_balance: if_exposed(
            caps.auto_white_balance is Some,
            white_balance_is_auto(white_balance_mode),
        ),
        brightness: None,
        contrast: None,
        saturation: None,
        sharpness: None,
        gain: if_exposed(caps.gain is Some, iso),
        backlight_compensation: None,
        power_line_frequency: None,
        pan: None,
        tilt: None,
        zoom: if_exposed(caps.zoom is Some, zoom),
    }
}

fn when_exposed<T>(is_exposed: bool, value: T) -> (v: Option<T>)
    ensures
        v == if_exposed(is_exposed, value),
{
    if is_exposed {
        Some(value)
    } else {
        None
    }
}

/// Assembles the read-back of a macOS device whose capabilities are
/// `capabilities`; see [`macos_read_back_spec`].
pub fn macos_read_back<V>(
    capabilities: &ControlCapabilities<V>,
    lens_position: V,
    focus_mode: FocusMode,
    exposure_duration: V,
    exposure_mode: ExposureMode,
    white_balance_temperature: Option<V>,
    white_balance_mode: WhiteBalanceMode,
    iso: V,
    zoom: V,
) -> (controls: Controls<V>)
    ensures
        controls == macos_read_back_spec(
            *capabilities,
            lens_position,
            focus_mode,
            exposure_duration,
            exposure_mode,
            white_balance_temperature,
            white_balance_mode,
            iso,
            zoom,
        ),
{
    let auto_focus = match focus_mode {
        FocusMode::ContinuousAutoFocus | FocusMode::AutoFocus => true,
        FocusMode::Locked => false,
    };
    let auto_exposure = match exposure_mode {
        ExposureMode::ContinuousAutoExposure | ExposureMode::AutoExpose => true,
        ExposureMode::Locked | ExposureMode::Custom => false,
    };
    let auto_white_balance = match white_balance_mode {
        WhiteBalanceMode::ContinuousAutoWhiteBalance | WhiteBalanceMode::AutoWhiteBalance => true,
        WhiteBalanceMode::Locked => false,
    };
    let temperature = if capabilities.white_balance_temperature.is_some() {
        white_balance_temperature
    } else {
        None
    };
    Controls {
        focus: when_exposed(capabilities.focus.is_some(), lens_position),
        auto_focus: when_exposed(capabilities.auto_focus.is_some(), auto_focus),
        exposure: when_exposed(capabilities.exposure.is_some(), exposure_duration),
        auto_exposure: when_exposed(capabilities.auto_exposure.is_some(), auto_exposure),
        white_balance_temperature: temperature,
        auto_white_balance: when_exposed(capabilities.auto_white_balance.is_some(), auto_white_balance),
        brightness: None,
        contrast: None,
        saturation: None,
        sharpness: None,
        gain: when_exposed(capabilities.gain.is_some(), iso),
        backlight_compensation: None,
        power_line_frequency: None,
        pan: None,
        tilt: None,
        zoom: when_exposed(capabilities.zoom.is_some(), zoom),
    }
}

/// The read-back reports only what the device exposes: every control whose
/// capability is `None` reads back as `None`.
pub proof fn lemma_read_back_only_exposed<V>(
    caps: ControlCapabilities<V>,
    lens_position: V,
    focus_mode: FocusMode,
    exposure_duration: V,
    exposure_mode: ExposureMode,
    white_balance_temperature: Option<V>,
    white_balance_mode: WhiteBalanceMode,
    iso: V,
    zoom: V,
)
    ensures
        ({
            let r = macos_read_back_spec(
                caps,
                lens_position,
                focus_mode,
                exposure_duration,
                exposure_mode,
                white_balance_temperature,
                white_balance_mode,
                iso,
                zoom,
            );
            &&& caps.focus is None ==> r.focus is None
            &&& caps.auto_focus is None ==> r.auto_focus is None
            &&& caps.exposure is None ==> r.exposure is None
            &&& caps.auto_exposure is None ==> r.auto_exposure is None
            &&& caps.white_balance_temperature is None ==> r.white_balance_temperature is None
            &&& caps.auto_white_balance is None ==> r.auto_white_balance is None
            &&& caps.brightness is None ==> r.brightness is None
            &&& caps.contrast is None ==> r.contrast is None
            &&& caps.saturation is None ==> r.saturation is None
            &&& caps.sharpness is None ==> r.sharpness is None
            &&& caps.gain is None ==> r.gain is None
            &&& caps.backlight_compensation is None ==> r.backlight_compensation is None
            &&& caps.power_line_frequency is None ==> r.power_line_frequency is None
            &&& caps.pan is None ==> r.pan is None
            &&& caps.tilt is None ==> r.tilt is None
            &&& caps.zoom is None ==> r.zoom is None
        }),
{
}

/// Resetting a macOS device passes the backend's preflight: whatever the
/// device reports, the reset controls ([`reset_controls_spec`] on macOS)
/// ask for nothing that [`reject_unsupported`] refuses, so the reset is
/// attempted on the device.
pub proof fn lemma_macos_reset_passes_preflight<V>(
    focus: Option<ControlRange<V>>,
    auto_focus: Option<bool>,
    exposure: Option<ControlRange<V>>,
    auto_exposure: Option<bool>,
    auto_white_balance: Option<bool>,
    gain: Option<ControlRange<V>>,
    zoom: Option<ControlRange<V>>,
)
    ensures
        unsupported_reason(
            reset_controls_spec(
                macos_capabilities_spec(
                    focus,
                    auto_focus,
                    exposure,
                    auto_exposure,
                    auto_white_balance,
                    gain,
                    zoom,
                ),
                TargetPlatform::MacOs,
            ),
        ) is None,
{
}

/// The read-back reports what the device is doing: for each exposed
/// control it carries the value read from the device, and each exposed
/// auto toggle reads `Some(true)` exactly when the mode is automatic (for
/// focus `ContinuousAutoFocus` or `AutoFocus`, for exposure
/// `ContinuousAutoExposure` or `AutoExpose`, for white balance
/// `ContinuousAutoWhiteBalance` or `AutoWhiteBalance`) and `Some(false)`
/// when it is locked or manual.
pub proof fn lemma_read_back_reports_device_state<V>(
    caps: ControlCapabilities<V>,
    lens_position: V,
    focus_mode: FocusMode,
    exposure_duration: V,
    exposure_mode: ExposureMode,
    white_balance_temperature: Option<V>,
    white_balance_mode: WhiteBalanceMode,
    iso: V,
    zoom: V,
)
    ensures
        ({
            let r = macos_read_back_spec(
                caps,
                lens_position,
                focus_mode,
                exposure_duration,
                exposure_mode,
                white_balance_temperature,
                white_balance_mode,
                iso,
                zoom,
            );
            &&& caps.focus is Some ==> r.focus == Some(lens_position)
            &&& caps.exposure is Some ==> r.exposure == Some(exposure_duration)
            &&& caps.gain is Some ==> r.gain == Some(iso)
            &&& caps.zoom is Some ==> r.zoom == Some(zoom)
            &&& caps.white_balance_temperature is Some ==> r.white_balance_temperature
                == white_balance_temperature
            &&& caps.auto_focus is Some ==> (r.auto_focus == Some(true) <==> (focus_mode
                == FocusMode::ContinuousAutoFocus || focus_mode == FocusMode::AutoFocus))
            &&& caps.auto_focus is Some ==> (r.auto_focus == Some(false) <==> focus_mode
                == FocusMode::Locked)
            &&& caps.auto_exposure is Some ==> (r.auto_exposure == Some(true) <==> (exposure_mode
                == ExposureMode::ContinuousAutoExposure || exposure_mode == ExposureMode::AutoExpose))
            &&& caps.auto_exposure is Some ==> (r.auto_exposure == Some(false) <==> (exposure_mode
                == ExposureMode::Locked || exposure_mode == ExposureMode::Custom))
            &&& caps.auto_white_balance is Some ==> (r.auto_white_balance == Some(true) <==> (
            white_balance_mode == WhiteBalanceMode::ContinuousAutoWhiteBalance || white_balance_mode
                == WhiteBalanceMode::AutoWhiteBalance))
            &&& caps.auto_white_balance is Some ==> (r.auto_white_balance == Some(false) <==> white_balance_mode
                == WhiteBalanceMode::Locked)
        }),
{
}

/// Applying controls writes what they ask for: an enabled auto toggle
/// selects the continuous automatic mode and a disabled one the manual mode
/// (`Locked` for focus and white balance, `Custom` for exposure), each
/// requested value is written once as given, and an absent field writes
/// nothing.
#[verifier::spinoff_prover]
#[verifier::rlimit(60)]
pub proof fn lemma_plan_writes_what_is_asked<V>(c: Controls<V>)
    ensures
        ({
            let plan = apply_plan_spec(c);
            &&& plan.contains(ApplyStep::SetFocusMode(FocusMode::ContinuousAutoFocus)) <==> c.auto_focus
                == Some(true)
            &&& plan.contains(ApplyStep::SetFocusMode(FocusMode::Locked)) <==> c.auto_focus == Some(false)
            &&& plan.contains(ApplyStep::SetExposureMode(ExposureMode::ContinuousAutoExposure))
                <==> c.auto_exposure == Some(true)
            &&& plan.contains(ApplyStep::SetExposureMode(ExposureMode::Custom)) <==> c.auto_exposure
                == Some(false)
            &&& plan.contains(
                ApplyStep::SetWhiteBalanceMode(WhiteBalanceMode::ContinuousAutoWhiteBalance),
            ) <==> c.auto_white_balance == Some(true)
            &&& plan.contains(ApplyStep::SetWhiteBalanceMode(WhiteBalanceMode::Locked))
                <==> c.auto_white_balance == Some(false)
            &&& forall|p: V| plan.contains(ApplyStep::LockLensPosition(p)) <==> c.focus == Some(p)
            &&& forall|t: V| plan.contains(ApplyStep::LockWhiteBalanceTemperature(t))
                <==> c.white_balance_temperature == Some(t)
            &&& forall|z: V| plan.contains(ApplyStep::SetZoom(z)) <==> c.zoom == Some(z)
            &&& forall|d: Option<V>, i: Option<V>|
                plan.contains(ApplyStep::SetCustomExposure { duration: d, iso: i }) <==> ((
                c.exposure is Some || c.gain is Some) && d == c.exposure && i == c.gain)
            &&& !plan.contains(ApplyStep::SetFocusMode(FocusMode::AutoFocus))
            &&& !plan.contains(ApplyStep::SetExposureMode(ExposureMode::AutoExpose))
            &&& !plan.contains(ApplyStep::SetExposureMode(ExposureMode::Locked))
            &&& !plan.contains(ApplyStep::SetWhiteBalanceMode(WhiteBalanceMode::AutoWhiteBalance))
        }),
{
    let plan = apply_plan_spec(c);
    let modes = focus_mode_steps(c) + exposure_mode_steps(c) + white_balance_mode_steps(c);
    assert forall|x: ApplyStep<V>| plan.contains(x) <==> (focus_mode_steps(c).contains(x)
        || exposure_mode_steps(c).contains(x) || white_balance_mode_steps(c).contains(x)
        || value_steps(c).contains(x)) by {
        lemma_contains_concat(focus_mode_steps(c), exposure_mode_steps(c), x);
        lemma_contains_concat(focus_mode_steps(c) + exposure_mode_steps(c), white_balance_mode_steps(c), x);
        lemma_contains_concat(modes, value_steps(c), x);
    }
    let lens = match c.focus {
        Some(p) => seq![ApplyStep::LockLensPosition(p)],
        None => seq![],
    };
    let exposure = if c.exposure is Some || c.gain is Some {
        seq![ApplyStep::SetCustomExposure { duration: c.exposure, iso: c.gain }]
    } else {
        seq![]
    };
    let temperature = match c.white_balance_temperature {
        Some(t) => seq![ApplyStep::LockWhiteBalanceTemperature(t)],
        None => seq![],
    };
    let zoom = match c.zoom {
        Some(z) => seq![ApplyStep::SetZoom(z)],
        None => seq![],
    };
    assert forall|x: ApplyStep<V>| value_steps(c).contains(x) <==> (lens.contains(x) || exposure.contains(x)
        || temperature.contains(x) || zoom.contains(x)) by {
        lemma_contains_concat(lens, exposure, x);
        lemma_contains_concat(lens + exposure, temperature, x);
        lemma_contains_concat(lens + exposure + temperature, zoom, x);
    }
    assert forall|x: ApplyStep<V>| #[trigger] lens.contains(x) <==> (c.focus matches Some(p) && x
        == ApplyStep::LockLensPosition(p)) by {
        if c.focus is Some {
            assert(lens[0] == x ==> lens.contains(x));
        }
    }
    assert forall|x: ApplyStep<V>| #[trigger] exposure.contains(x) <==> ((c.exposure is Some
        || c.gain is Some) && x == ApplyStep::SetCustomExposure { duration: c.exposure, iso: c.gain }) by {
        if c.exposure is Some || c.gain is Some {
            assert(exposure[0] == x ==> exposure.contains(x));
        }
    }
    assert forall|x: ApplyStep<V>| #[trigger] temperature.contains(x) <==> (
    c.white_balance_temperature matches Some(t) && x == ApplyStep::LockWhiteBalanceTemperature(t)) by {
        if c.white_balance_temperature is Some {
            assert(temperature[0] == x ==> temperature.contains(x));
        }
    }
    assert forall|x: ApplyStep<V>| #[trigger] zoom.contains(x) <==> (c.zoom matches Some(z) && x
        == ApplyStep::SetZoom(z)) by {
        if c.zoom is Some {
            assert(zoom[0] == x ==> zoom.contains(x));
        }
    }
    assert forall|x: ApplyStep<V>| #[trigger] focus_mode_steps(c).contains(x) <==> (match c.auto_focus {
        Some(true) => x == ApplyStep::<V>::SetFocusMode(FocusMode::ContinuousAutoFocus),
        Some(false) => x == ApplyStep::<V>::SetFocusMode(FocusMode::Locked),
        None => false,
    }) by {
        if c.auto_focus is Some {
            assert(focus_mode_steps(c)[0] == x ==> focus_mode_steps(c).contains(x));
        }
    }
    assert forall|x: ApplyStep<V>| #[trigger] exposure_mode_steps(c).contains(x) <==> (match c.auto_exposure {
        Some(true) => x == ApplyStep::<V>::SetExposureMode(ExposureMode::ContinuousAutoExposure),
        Some(false) => x == ApplyStep::<V>::SetExposureMode(ExposureMode::Custom),
        None => false,
    }) by {
        if c.auto_exposure is Some {
            assert(exposure_mode_steps(c)[0] == x ==> exposure_mode_steps(c).contains(x));
        }
    }
    assert forall|x: ApplyStep<V>| #[trigger] white_balance_mode_steps(c).contains(x) <==> (match c.auto_white_balance {
        Some(true) => x == ApplyStep::<V>::SetWhiteBalanceMode(WhiteBalanceMode::ContinuousAutoWhiteBalance),
        Some(false) => x == ApplyStep::<V>::SetWhiteBalanceMode(WhiteBalanceMode::Locked),
        None => false,
    }) by {
        if c.auto_white_balance is Some {
            assert(white_balance_mode_steps(c)[0] == x ==> white_balance_mode_steps(c).contains(x));
        }
    }
    assert forall|t: V| plan.contains(ApplyStep::LockWhiteBalanceTemperature(t))
        <==> c.white_balance_temperature == Some(t) by {
        let x = ApplyStep::LockWhiteBalanceTemperature(t);
        assert(plan.contains(x) <==> value_steps(c).contains(x));
        assert(value_steps(c).contains(x) <==> temperature.contains(x));
    }
    assert forall|p: V| plan.contains(ApplyStep::LockLensPosition(p)) <==> c.focus == Some(p) by {
        let x = ApplyStep::LockLensPosition(p);
        assert(plan.contains(x) <==> value_steps(c).contains(x));
        assert(value_steps(c).contains(x) <==> lens.contains(x));
    }
    assert forall|z: V| plan.contains(ApplyStep::SetZoom(z)) <==> c.zoom == Some(z) by {
        let x = ApplyStep::SetZoom(z);
        assert(plan.contains(x) <==> value_steps(c).contains(x));
        assert(value_steps(c).contains(x) <==> zoom.contains(x));
    }
}

proof fn lemma_contains_concat<T>(a: Seq<T>, b: Seq<T>, x: T)
    ensures
        (a + b).contains(x) <==> (a.contains(x) || b.contains(x)),
{
    if a.contains(x) {
        let i = choose|i: int| 0 <= i < a.len() && a[i] == x;
        assert((a + b)[i] == x);
    }
    if b.contains(x) {
        let i = choose|i: int| 0 <= i < b.len() && b[i] == x;
        assert((a + b)[a.len() + i] == x);
    }
    if (a + b).contains(x) {
        let i = choose|i: int| 0 <= i < (a + b).len() && (a + b)[i] == x;
        if i < a.len() {
            assert(a[i] == x);
        } else {
            assert(b[i - a.len()] == x);
        }
    }
}

/// The write switches a mode (focus, exposure or white balance).
pub open spec fn is_mode_write<V>(step: ApplyStep<V>) -> bool {
    step is SetFocusMode || step is SetExposureMode || step is SetWhiteBalanceMode
}

/// Modes are written before values: no mode switch follows a value write,
/// so a value is never written under a mode that the same request changes
/// afterwards.
pub proof fn lemma_plan_modes_before_values<V>(c: Controls<V>)
    ensures
        forall|i: int, j: int|
            0 <= i < j < apply_plan_spec(c).len() && !is_mode_write(#[trigger] apply_plan_spec(c)[i])
                ==> !is_mode_write(#[trigger] apply_plan_spec(c)[j]),
{
    let modes = focus_mode_steps(c) + exposure_mode_steps(c) + white_balance_mode_steps(c);
    let values = value_steps(c);
    let plan = apply_plan_spec(c);
    assert(plan == modes + values);
    assert forall|k: int| 0 <= k < modes.len() implies is_mode_write(#[trigger] modes[k]) by {
        let f = focus_mode_steps(c);
        let e = exposure_mode_steps(c);
        let w = white_balance_mode_steps(c);
        if k < f.len() {
            assert(modes[k] == f[k]);
        } else if k < f.len() + e.len() {
            assert(modes[k] == e[k - f.len()]);
        } else {
            assert(modes[k] == w[k - f.len() - e.len()]);
        }
    }
    assert forall|k: int| 0 <= k < values.len() implies !is_mode_write(#[trigger] values[k]) by {
        let lens = match c.focus {
            Some(p) => seq![ApplyStep::LockLensPosition(p)],
            None => seq![],
        };
        let exposure = if c.exposure is Some || c.gain is Some {
            seq![ApplyStep::SetCustomExposure { duration: c.exposure, iso: c.gain }]
        } else {
            seq![]
        };
        let temperature = match c.white_balance_temperature {
            Some(t) => seq![ApplyStep::LockWhiteBalanceTemperature(t)],
            None => seq![],
        };
        let zoom = match c.zoom {
            Some(z) => seq![ApplyStep::SetZoom(z)],
            None => seq![],
        };
        assert(values == lens + exposure + temperature + zoom);
        if k < lens.len() {
            assert(values[k] == lens[k]);
        } else if k < lens.len() + exposure.len() {
            assert(values[k] == exposure[k - lens.len()]);
        } else if k < lens.len() + exposure.len() + temperature.len() {
            assert(values[k] == temperature[k - lens.len() - exposure.len()]);
        } else {
            assert(values[k] == zoom[k - lens.len() - exposure.len() - temperature.len()]);
        }
    }
    assert forall|i: int, j: int|
        0 <= i < j < plan.len() && !is_mode_write(#[trigger] plan[i]) implies !is_mode_write(
        #[trigger] plan[j]) by {
        if i < modes.len() {
            assert(plan[i] == modes[i]);
        }
        assert(plan[j] == values[j - modes.len()]);
    }
}

/// What macOS refuses before touching the device: a request is refused
/// exactly when it enables auto-exposure together with an explicit
/// exposure or gain, or asks for brightness, contrast, saturation,
/// sharpness, backlight compensation, power-line frequency, pan or tilt;
/// focus, exposure, white balance, gain and zoom requests are otherwise
/// let through.
pub proof fn lemma_refuses_exactly_the_unexposable<V>(c: Controls<V>)
    ensures
        unsupported_reason(c) is Some <==> ((c.auto_exposure == Some(true) && (c.exposure is Some
            || c.gain is Some)) || c.brightness is Some || c.contrast is Some || c.saturation is Some
            || c.sharpness is Some || c.backlight_compensation is Some || c.power_line_frequency is Some
            || c.pan is Some || c.tilt is Some),
        (c.auto_exposure == Some(true) && (c.exposure is Some || c.gain is Some)) ==> unsupported_reason(c)
            == Some("auto_exposure_with_explicit_exposure_or_gain"@),
{
}

/// A macOS device never reports a white-balance temperature range, image
/// adjustments, power-line filtering, pan or tilt, and reports the probed
/// focus, exposure, gain and zoom ranges and auto toggles unchanged.
pub proof fn lemma_macos_capabilities_shape<V>(
    focus: Option<ControlRange<V>>,
    auto_focus: Option<bool>,
    exposure: Option<ControlRange<V>>,
    auto_exposure: Option<bool>,
    auto_white_balance: Option<bool>,
    gain: Option<ControlRange<V>>,
    zoom: Option<ControlRange<V>>,
)
    ensures
        ({
            let c = macos_capabilities_spec(
                focus,
                auto_focus,
                exposure,
                auto_exposure,
                auto_white_balance,
                gain,
                zoom,
            );
            &&& c.focus == focus && c.auto_focus == auto_focus && c.exposure == exposure
            &&& c.auto_exposure == auto_exposure && c.auto_white_balance == auto_white_balance
            &&& c.gain == gain && c.zoom == zoom
            &&& c.white_balance_temperature is None && c.brightness is None && c.contrast is None
            &&& c.saturation is None && c.sharpness is None && c.backlight_compensation is None
            &&& c.power_line_frequency is None && c.pan is None && c.tilt is None
        }),
{
}

/// Capability of an auto toggle: auto is reported when the continuous mode
/// is supported, manual-only when only the fixed mode is, and nothing when
/// neither is.
pub proof fn lemma_auto_capability(continuous: bool, fixed: bool)
    ensures
        auto_capability_spec(continuous, fixed) == Some(true) <==> continuous,
        auto_capability_spec(continuous, fixed) == Some(false) <==> (!continuous && fixed),
        auto_capability_spec(continuous, fixed) is None <==> (!continuous && !fixed),
{
}

} // verus!
