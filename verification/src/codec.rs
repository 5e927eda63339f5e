//! The setting codec: each configurable setting of the mouse maps to one or
//! two fixed replacement frames (or, for the byte-valued settings, to a frame
//! with the value at a fixed offset).  The `hex` methods give the same
//! encodings in the hex-string form in which the protocol was documented.

use vstd::prelude::*;
use vstd::string::StrSliceExecFns;

use crate::frame::Frame;
use crate::hexfmt::spec_hex_to_bytes;

verus! {

/// Continuous-fire state: when enabled, auto-fire repeats indefinitely and
/// the independent repeat-count field is disabled by the firmware.
#[derive(Debug, Clone, Copy, PartialEq, Eq)]
pub enum ContinouslyState {
    Enable,
    Disable,
}

/// LED brightness; the firmware splits brightness across a pair of frames.
#[derive(Debug, Clone, Copy, PartialEq, Eq)]
pub enum LedBrightness {
    All,
    Half,
}

/// Whether the LED lights are on at all.
#[derive(Debug, Clone, Copy, PartialEq, Eq)]
pub enum LedStatus {
    Enable,
    Disable,
}

/// The eight discrete DPI levels of the sensor.
#[derive(Debug, Clone, Copy, PartialEq, Eq)]
pub enum DpiVal {
    DPI1,
    DPI2,
    DPI3,
    DPI4,
    DPI5,
    DPI6,
    DPI7,
    DPI8,
}

/// The LED lighting mode.
#[derive(Debug, Clone, Copy, PartialEq, Eq)]
pub enum LedMode {
    Dpi,
    Multi,
    Rainbow,
    FloeLight,
    Waltz,
    FourSeasons,
    Off,
}

/// Breathing speed of the LED animation, slowest to fastest.
#[derive(Debug, Clone, Copy, PartialEq, Eq)]
pub enum BreathingSpeed {
    BS1,
    BS2,
    BS3,
    BS4,
    BS5,
    BS6,
    BS7,
    BS8,
}

/// Byte offset of the value field inside the repeat and interval frames.
pub const VALUE_BYTE_OFFSET: usize = 4;

/// The repeat value the firmware treats as "repeat disabled"; forced by
/// enabling continuous fire.
pub const REPEAT_DISABLED_SENTINEL: u8 = 0xff;

/// Frame carrying the auto-fire repeat count `v`.
pub open spec fn spec_repeat_frame(v: u8) -> Seq<u8> {
    seq![0x04u8, 0x07, 0x0a, 0xfd, v, 0xa1, 0xfe, 0x03]
}

/// Frame carrying the firing interval `v`.
pub open spec fn spec_interval_frame(v: u8) -> Seq<u8> {
    seq![0x04u8, 0x07, 0x21, 0xfe, v, 0xfc, 0x94, 0xff]
}

/// Frame encoding of a continuous-fire state.
pub open spec fn spec_continuous_frame(c: ContinouslyState) -> Seq<u8> {
    match c {
        ContinouslyState::Enable => seq![0x04u8, 0x07, 0xfd, 0xff, 0xff, 0xfc, 0x64, 0xff],
        ContinouslyState::Disable => seq![0x04u8, 0x07, 0xfd, 0xff, 0xff, 0xfc, 0x1b, 0xff],
    }
}

/// First frame of the brightness pair.
pub open spec fn spec_brightness_first_frame(b: LedBrightness) -> Seq<u8> {
    match b {
        LedBrightness::All => seq![0x04u8, 0x07, 0x45, 0xf8, 0x06, 0x38, 0xff, 0x00],
        LedBrightness::Half => seq![0x04u8, 0x07, 0x45, 0xf8, 0x06, 0x30, 0xff, 0x00],
    }
}

/// Second frame of the brightness pair.
pub open spec fn spec_brightness_second_frame(b: LedBrightness) -> Seq<u8> {
    match b {
        LedBrightness::All => seq![0x04u8, 0x07, 0xff, 0x00, 0xff, 0xff, 0xff, 0x71],
        LedBrightness::Half => seq![0x04u8, 0x07, 0xff, 0x00, 0xff, 0xff, 0xff, 0x79],
    }
}

/// Frame encoding of an LED status.
pub open spec fn spec_led_status_frame(s: LedStatus) -> Seq<u8> {
    match s {
        LedStatus::Enable => seq![0x04u8, 0x07, 0x01, 0xfe, 0x81, 0x7e, 0x80, 0x7f],
        LedStatus::Disable => seq![0x04u8, 0x07, 0x01, 0xfe, 0x89, 0x76, 0x80, 0x7f],
    }
}

/// Frame encoding of a DPI level.
pub open spec fn spec_dpi_frame(d: DpiVal) -> Seq<u8> {
    match d {
        DpiVal::DPI1 => seq![0x04u8, 0x07, 0x00, 0xff, 0x81, 0x7e, 0x80, 0x7f],
        DpiVal::DPI2 => seq![0x04u8, 0x07, 0x01, 0xfe, 0x81, 0x7e, 0x80, 0x7f],
        DpiVal::DPI3 => seq![0x04u8, 0x07, 0x02, 0xfd, 0x81, 0x7e, 0x80, 0x7f],
        DpiVal::DPI4 => seq![0x04u8, 0x07, 0x03, 0xfd, 0x81, 0x7e, 0x80, 0x7f],
        DpiVal::DPI5 => seq![0x04u8, 0x07, 0x04, 0xfd, 0x81, 0x7e, 0x80, 0x7f],
        DpiVal::DPI6 => seq![0x04u8, 0x07, 0x05, 0xfd, 0x81, 0x7e, 0x80, 0x7f],
        DpiVal::DPI7 => seq![0x04u8, 0x07, 0x06, 0xfd, 0x81, 0x7e, 0x80, 0x7f],
        DpiVal::DPI8 => seq![0x04u8, 0x07, 0x07, 0xfd, 0x81, 0x7e, 0x80, 0x7f],
    }
}

/// Frame encoding of an LED mode.
pub open spec fn spec_led_mode_frame(m: LedMode) -> Seq<u8> {
    match m {
        LedMode::Dpi => seq![0x04u8, 0x07, 0x01, 0xfe, 0x81, 0x7e, 0x80, 0x7f],
        LedMode::Multi => seq![0x04u8, 0x07, 0x01, 0xfe, 0x82, 0x7d, 0x80, 0x7f],
        LedMode::Rainbow => seq![0x04u8, 0x07, 0x01, 0xfe, 0x83, 0x7c, 0x80, 0x7f],
        LedMode::FloeLight => seq![0x04u8, 0x07, 0x01, 0xfe, 0x84, 0x7b, 0x80, 0x7f],
        LedMode::Waltz => seq![0x04u8, 0x07, 0x01, 0xfe, 0x85, 0x7a, 0x80, 0x7f],
        LedMode::FourSeasons => seq![0x04u8, 0x07, 0x01, 0xfe, 0x86, 0x79, 0x80, 0x7f],
        LedMode::Off => seq![0x04u8, 0x07, 0x01, 0xfe, 0x87, 0x78, 0x80, 0x7f],
    }
}

/// Frame encoding of a breathing speed.
pub open spec fn spec_breathing_frame(b: BreathingSpeed) -> Seq<u8> {
    match b {
        BreathingSpeed::BS1 => seq![0x04u8, 0x07, 0x01, 0xfe, 0xe1, 0x1e, 0x80, 0x7f],
        BreathingSpeed::BS2 => seq![0x04u8, 0x07, 0x01, 0xfe, 0xc1, 0x3e, 0x80, 0x7f],
        BreathingSpeed::BS3 => seq![0x04u8, 0x07, 0x01, 0xfe, 0xa1, 0x5e, 0x80, 0x7f],
        BreathingSpeed::BS4 => seq![0x04u8, 0x07, 0x01, 0xfe, 0x81, 0x7e, 0x80, 0x7f],
        BreathingSpeed::BS5 => seq![0x04u8, 0x07, 0x01, 0xfe, 0x61, 0x9e, 0x80, 0x7f],
        BreathingSpeed::BS6 => seq![0x04u8, 0x07, 0x01, 0xfe, 0x41, 0xbe, 0x80, 0x7f],
        BreathingSpeed::BS7 => seq![0x04u8, 0x07, 0x01, 0xfe, 0x21, 0xde, 0x80, 0x7f],
        BreathingSpeed::BS8 => seq![0x04u8, 0x07, 0x01, 0xfe, 0x01, 0xfe, 0x80, 0x7f],
    }
}

/// Placeholder of the repeat count: the template frame that carries the
/// factory repeat value.
pub open spec fn spec_repeat_placeholder() -> Seq<u8> {
    spec_repeat_frame(0x03)
}

/// Placeholder of the firing interval: the template frame that carries the
/// factory interval value.
pub open spec fn spec_interval_placeholder() -> Seq<u8> {
    spec_interval_frame(0x08)
}

/// Placeholder shared by DPI level, LED mode, LED status and breathing
/// speed: they all rewrite the same template frame.
pub open spec fn spec_led_placeholder() -> Seq<u8> {
    seq![0x04u8, 0x07, 0x01, 0xfe, 0x81, 0x7e, 0x80, 0x7f]
}

/// Placeholder of the first brightness frame.
pub open spec fn spec_brightness_first_placeholder() -> Seq<u8> {
    spec_brightness_first_frame(LedBrightness::All)
}

/// Placeholder of the second brightness frame.
pub open spec fn spec_brightness_second_placeholder() -> Seq<u8> {
    spec_brightness_second_frame(LedBrightness::All)
}

/// Placeholder of the continuous-fire frame, as it stands in the template.
pub open spec fn spec_continuous_placeholder() -> Seq<u8> {
    seq![0x04u8, 0x07, 0xfd, 0xff, 0xff, 0xfc, 0x94, 0xff]
}

/// Frame carrying the auto-fire repeat count.
pub fn repeat_frame(v: u8) -> (f: Frame)
    ensures
        f@ =~= spec_repeat_frame(v),
        f.wf(),
{
    Frame::of_bytes(0x04, 0x07, 0x0a, 0xfd, v, 0xa1, 0xfe, 0x03)
}

/// Frame carrying the firing interval.
pub fn interval_frame(v: u8) -> (f: Frame)
    ensures
        f@ =~= spec_interval_frame(v),
        f.wf(),
{
    Frame::of_bytes(0x04, 0x07, 0x21, 0xfe, v, 0xfc, 0x94, 0xff)
}

/// Replacement frame of a continuous-fire state.
pub fn continuous_frame(c: ContinouslyState) -> (f: Frame)
    ensures
        f@ =~= spec_continuous_frame(c),
        f.wf(),
{
    match c {
        ContinouslyState::Enable => Frame::of_bytes(0x04, 0x07, 0xfd, 0xff, 0xff, 0xfc, 0x64, 0xff),
        ContinouslyState::Disable => Frame::of_bytes(
            0x04,
            0x07,
            0xfd,
            0xff,
            0xff,
            0xfc,
            0x1b,
            0xff,
        ),
    }
}

/// First replacement frame of the brightness pair.
pub fn brightness_first_frame(b: LedBrightness) -> (f: Frame)
    ensures
        f@ =~= spec_brightness_first_frame(b),
        f.wf(),
{
    match b {
        LedBrightness::All => Frame::of_bytes(0x04, 0x07, 0x45, 0xf8, 0x06, 0x38, 0xff, 0x00),
        LedBrightness::Half => Frame::of_bytes(0x04, 0x07, 0x45, 0xf8, 0x06, 0x30, 0xff, 0x00),
    }
}

/// Second replacement frame of the brightness pair.
pub fn brightness_second_frame(b: LedBrightness) -> (f: Frame)
    ensures
        f@ =~= spec_brightness_second_frame(b),
        f.wf(),
{
    match b {
        LedBrightness::All => Frame::of_bytes(0x04, 0x07, 0xff, 0x00, 0xff, 0xff, 0xff, 0x71),
        LedBrightness::Half => Frame::of_bytes(0x04, 0x07, 0xff, 0x00, 0xff, 0xff, 0xff, 0x79),
    }
}

/// Replacement frame of an LED status.
pub fn led_status_frame(s: LedStatus) -> (f: Frame)
    ensures
        f@ =~= spec_led_status_frame(s),
        f.wf(),
{
    match s {
        LedStatus::Enable => Frame::of_bytes(0x04, 0x07, 0x01, 0xfe, 0x81, 0x7e, 0x80, 0x7f),
        LedStatus::Disable => Frame::of_bytes(0x04, 0x07, 0x01, 0xfe, 0x89, 0x76, 0x80, 0x7f),
    }
}

/// Replacement frame of a DPI level.
pub fn dpi_frame(d: DpiVal) -> (f: Frame)
    ensures
        f@ =~= spec_dpi_frame(d),
        f.wf(),
{
    match d {
        DpiVal::DPI1 => Frame::of_bytes(0x04, 0x07, 0x00, 0xff, 0x81, 0x7e, 0x80, 0x7f),
        DpiVal::DPI2 => Frame::of_bytes(0x04, 0x07, 0x01, 0xfe, 0x81, 0x7e, 0x80, 0x7f),
        DpiVal::DPI3 => Frame::of_bytes(0x04, 0x07, 0x02, 0xfd, 0x81, 0x7e, 0x80, 0x7f),
        DpiVal::DPI4 => Frame::of_bytes(0x04, 0x07, 0x03, 0xfd, 0x81, 0x7e, 0x80, 0x7f),
        DpiVal::DPI5 => Frame::of_bytes(0x04, 0x07, 0x04, 0xfd, 0x81, 0x7e, 0x80, 0x7f),
        DpiVal::DPI6 => Frame::of_bytes(0x04, 0x07, 0x05, 0xfd, 0x81, 0x7e, 0x80, 0x7f),
        DpiVal::DPI7 => Frame::of_bytes(0x04, 0x07, 0x06, 0xfd, 0x81, 0x7e, 0x80, 0x7f),
        DpiVal::DPI8 => Frame::of_bytes(0x04, 0x07, 0x07, 0xfd, 0x81, 0x7e, 0x80, 0x7f),
    }
}

/// Replacement frame of an LED mode.
pub fn led_mode_frame(m: LedMode) -> (f: Frame)
    ensures
        f@ =~= spec_led_mode_frame(m),
        f.wf(),
{
    match m {
        LedMode::Dpi => Frame::of_bytes(0x04, 0x07, 0x01, 0xfe, 0x81, 0x7e, 0x80, 0x7f),
        LedMode::Multi => Frame::of_bytes(0x04, 0x07, 0x01, 0xfe, 0x82, 0x7d, 0x80, 0x7f),
        LedMode::Rainbow => Frame::of_bytes(0x04, 0x07, 0x01, 0xfe, 0x83, 0x7c, 0x80, 0x7f),
        LedMode::FloeLight => Frame::of_bytes(0x04, 0x07, 0x01, 0xfe, 0x84, 0x7b, 0x80, 0x7f),
        LedMode::Waltz => Frame::of_bytes(0x04, 0x07, 0x01, 0xfe, 0x85, 0x7a, 0x80, 0x7f),
        LedMode::FourSeasons => Frame::of_bytes(0x04, 0x07, 0x01, 0xfe, 0x86, 0x79, 0x80, 0x7f),
        LedMode::Off => Frame::of_bytes(0x04, 0x07, 0x01, 0xfe, 0x87, 0x78, 0x80, 0x7f),
    }
}

/// Replacement frame of a breathing speed.
pub fn breathing_frame(b: BreathingSpeed) -> (f: Frame)
    ensures
        f@ =~= spec_breathing_frame(b),
        f.wf(),
{
    match b {
        BreathingSpeed::BS1 => Frame::of_bytes(0x04, 0x07, 0x01, 0xfe, 0xe1, 0x1e, 0x80, 0x7f),
        BreathingSpeed::BS2 => Frame::of_bytes(0x04, 0x07, 0x01, 0xfe, 0xc1, 0x3e, 0x80, 0x7f),
        BreathingSpeed::BS3 => Frame::of_bytes(0x04, 0x07, 0x01, 0xfe, 0xa1, 0x5e, 0x80, 0x7f),
        BreathingSpeed::BS4 => Frame::of_bytes(0x04, 0x07, 0x01, 0xfe, 0x81, 0x7e, 0x80, 0x7f),
        BreathingSpeed::BS5 => Frame::of_bytes(0x04, 0x07, 0x01, 0xfe, 0x61, 0x9e, 0x80, 0x7f),
        BreathingSpeed::BS6 => Frame::of_bytes(0x04, 0x07, 0x01, 0xfe, 0x41, 0xbe, 0x80, 0x7f),
        BreathingSpeed::BS7 => Frame::of_bytes(0x04, 0x07, 0x01, 0xfe, 0x21, 0xde, 0x80, 0x7f),
        BreathingSpeed::BS8 => Frame::of_bytes(0x04, 0x07, 0x01, 0xfe, 0x01, 0xfe, 0x80, 0x7f),
    }
}

/// The repeat placeholder pattern, as bytes.
pub fn repeat_placeholder() -> (v: Vec<u8>)
    ensures
        v@ =~= spec_repeat_placeholder(),
{
    repeat_frame(0x03).bytes
}

/// The firing-interval placeholder pattern, as bytes.
pub fn interval_placeholder() -> (v: Vec<u8>)
    ensures
        v@ =~= spec_interval_placeholder(),
{
    interval_frame(0x08).bytes
}

/// The shared LED/DPI placeholder pattern, as bytes.
pub fn led_placeholder() -> (v: Vec<u8>)
    ensures
        v@ =~= spec_led_placeholder(),
{
    Frame::of_bytes(0x04, 0x07, 0x01, 0xfe, 0x81, 0x7e, 0x80, 0x7f).bytes
}

/// The first brightness placeholder pattern, as bytes.
pub fn brightness_first_placeholder() -> (v: Vec<u8>)
    ensures
        v@ =~= spec_brightness_first_placeholder(),
{
    brightness_first_frame(LedBrightness::All).bytes
}

/// The second brightness placeholder pattern, as bytes.
pub fn brightness_second_placeholder() -> (v: Vec<u8>)
    ensures
        v@ =~= spec_brightness_second_placeholder(),
{
    brightness_second_frame(LedBrightness::All).bytes
}

/// The continuous-fire placeholder pattern, as bytes.
pub fn continuous_placeholder() -> (v: Vec<u8>)
    ensures
        v@ =~= spec_continuous_placeholder(),
{
    Frame::of_bytes(0x04, 0x07, 0xfd, 0xff, 0xff, 0xfc, 0x94, 0xff).bytes
}

/// Hex-string form of a continuous-fire encoding.
pub open spec fn spec_continuous_hex(c: ContinouslyState) -> Seq<char> {
    match c {
        ContinouslyState::Enable => "0407fdfffffc64ff"@,
        ContinouslyState::Disable => "0407fdfffffc1bff"@,
    }
}

/// Hex-string forms of a brightness encoding pair.
pub open spec fn spec_brightness_hex(b: LedBrightness) -> (Seq<char>, Seq<char>) {
    match b {
        LedBrightness::All => ("040745f80638ff00"@, "0407ff00ffffff71"@),
        LedBrightness::Half => ("040745f80630ff00"@, "0407ff00ffffff79"@),
    }
}

/// Hex-string form of an LED-status encoding.
pub open spec fn spec_led_status_hex(s: LedStatus) -> Seq<char> {
    match s {
        LedStatus::Enable => "040701fe817e807f"@,
        LedStatus::Disable => "040701fe8976807f"@,
    }
}

/// Hex-string form of a DPI encoding.
pub open spec fn spec_dpi_hex(d: DpiVal) -> Seq<char> {
    match d {
        DpiVal::DPI1 => "040700ff817e807f"@,
        DpiVal::DPI2 => "040701fe817e807f"@,
        DpiVal::DPI3 => "040702fd817e807f"@,
        DpiVal::DPI4 => "040703fd817e807f"@,
        DpiVal::DPI5 => "040704fd817e807f"@,
        DpiVal::DPI6 => "040705fd817e807f"@,
        DpiVal::DPI7 => "040706fd817e807f"@,
        DpiVal::DPI8 => "040707fd817e807f"@,
    }
}

/// Hex-string form of an LED-mode encoding.
pub open spec fn spec_led_mode_hex(m: LedMode) -> Seq<char> {
    match m {
        LedMode::Dpi => "040701fe817e807f"@,
        LedMode::Multi => "040701fe827d807f"@,
        LedMode::Rainbow => "040701fe837c807f"@,
        LedMode::FloeLight => "040701fe847b807f"@,
        LedMode::Waltz => "040701fe857a807f"@,
        LedMode::FourSeasons => "040701fe8679807f"@,
        LedMode::Off => "040701fe8778807f"@,
    }
}

/// Hex-string form of a breathing-speed encoding.
pub open spec fn spec_breathing_hex(b: BreathingSpeed) -> Seq<char> {
    match b {
        BreathingSpeed::BS1 => "040701fee11e807f"@,
        BreathingSpeed::BS2 => "040701fec13e807f"@,
        BreathingSpeed::BS3 => "040701fea15e807f"@,
        BreathingSpeed::BS4 => "040701fe817e807f"@,
        BreathingSpeed::BS5 => "040701fe619e807f"@,
        BreathingSpeed::BS6 => "040701fe41be807f"@,
        BreathingSpeed::BS7 => "040701fe21de807f"@,
        BreathingSpeed::BS8 => "040701fe01fe807f"@,
    }
}

impl ContinouslyState {
    /// The hex-string form of this state's replacement frame.
    pub fn hex(&self) -> (r: &'static str)
        ensures
            r@ == spec_continuous_hex(*self),
            spec_hex_to_bytes(r@) =~= spec_continuous_frame(*self),
    {
        proof {
            reveal_strlit("0407fdfffffc64ff");
            reveal_strlit("0407fdfffffc1bff");
        }
        match *self {
            ContinouslyState::Enable => "0407fdfffffc64ff",
            ContinouslyState::Disable => "0407fdfffffc1bff",
        }
    }
}

impl LedBrightness {
    /// The hex-string forms of this brightness's replacement frame pair.
    pub fn hex(&self) -> (r: (&'static str, &'static str))
        ensures
            r.0@ == spec_brightness_hex(*self).0,
            r.1@ == spec_brightness_hex(*self).1,
            spec_hex_to_bytes(r.0@) =~= spec_brightness_first_frame(*self),
            spec_hex_to_bytes(r.1@) =~= spec_brightness_second_frame(*self),
    {
        proof {
            reveal_strlit("040745f80638ff00");
            reveal_strlit("0407ff00ffffff71");
            reveal_strlit("040745f80630ff00");
            reveal_strlit("0407ff00ffffff79");
        }
        match *self {
            LedBrightness::All => ("040745f80638ff00", "0407ff00ffffff71"),
            LedBrightness::Half => ("040745f80630ff00", "0407ff00ffffff79"),
        }
    }
}

impl LedStatus {
    /// The hex-string form of this status's replacement frame.
    pub fn hex(&self) -> (r: &'static str)
        ensures
            r@ == spec_led_status_hex(*self),
            spec_hex_to_bytes(r@) =~= spec_led_status_frame(*self),
    {
        proof {
            reveal_strlit("040701fe817e807f");
            reveal_strlit("040701fe8976807f");
        }
        match *self {
            LedStatus::Enable => "040701fe817e807f",
            LedStatus::Disable => "040701fe8976807f",
        }
    }
}

impl DpiVal {
    /// The hex-string form of this DPI level's replacement frame.
    pub fn hex(&self) -> (r: &'static str)
        ensures
            r@ == spec_dpi_hex(*self),
            spec_hex_to_bytes(r@) =~= spec_dpi_frame(*self),
    {
        proof {
            reveal_strlit("040700ff817e807f");
            reveal_strlit("040701fe817e807f");
            reveal_strlit("040702fd817e807f");
            reveal_strlit("040703fd817e807f");
            reveal_strlit("040704fd817e807f");
            reveal_strlit("040705fd817e807f");
            reveal_strlit("040706fd817e807f");
            reveal_strlit("040707fd817e807f");
        }
        match *self {
            DpiVal::DPI1 => "040700ff817e807f",
            DpiVal::DPI2 => "040701fe817e807f",
            DpiVal::DPI3 => "040702fd817e807f",
            DpiVal::DPI4 => "040703fd817e807f",
            DpiVal::DPI5 => "040704fd817e807f",
            DpiVal::DPI6 => "040705fd817e807f",
            DpiVal::DPI7 => "040706fd817e807f",
            DpiVal::DPI8 => "040707fd817e807f",
        }
    }
}

impl LedMode {
    /// The hex-string form of this mode's replacement frame.
    pub fn hex(&self) -> (r: &'static str)
        ensures
            r@ == spec_led_mode_hex(*self),
            spec_hex_to_bytes(r@) =~= spec_led_mode_frame(*self),
    {
        proof {
            reveal_strlit("040701fe817e807f");
            reveal_strlit("040701fe827d807f");
            reveal_strlit("040701fe837c807f");
            reveal_strlit("040701fe847b807f");
            reveal_strlit("040701fe857a807f");
            reveal_strlit("040701fe8679807f");
            reveal_strlit("040701fe8778807f");
        }
        match *self {
            LedMode::Dpi => "040701fe817e807f",
            LedMode::Multi => "040701fe827d807f",
            LedMode::Rainbow => "040701fe837c807f",
            LedMode::FloeLight => "040701fe847b807f",
            LedMode::Waltz => "040701fe857a807f",
            LedMode::FourSeasons => "040701fe8679807f",
            LedMode::Off => "040701fe8778807f",
        }
    }
}

impl BreathingSpeed {
    /// The hex-string form of this speed's replacement frame.  One speed's
    /// documented constant circulates with a stray leading digit, which
    /// would break the fixed frame length; the value here is the corrected
    /// eight-byte form.
    pub fn hex(&self) -> (r: &'static str)
        ensures
            r@ == spec_breathing_hex(*self),
            spec_hex_to_bytes(r@) =~= spec_breathing_frame(*self),
    {
        proof {
            reveal_strlit("040701fee11e807f");
            reveal_strlit("040701fec13e807f");
            reveal_strlit("040701fea15e807f");
            reveal_strlit("040701fe817e807f");
            reveal_strlit("040701fe619e807f");
            reveal_strlit("040701fe41be807f");
            reveal_strlit("040701fe21de807f");
            reveal_strlit("040701fe01fe807f");
        }
        match *self {
            BreathingSpeed::BS1 => "040701fee11e807f",
            BreathingSpeed::BS2 => "040701fec13e807f",
            BreathingSpeed::BS3 => "040701fea15e807f",
            BreathingSpeed::BS4 => "040701fe817e807f",
            BreathingSpeed::BS5 => "040701fe619e807f",
            BreathingSpeed::BS6 => "040701fe41be807f",
            BreathingSpeed::BS7 => "040701fe21de807f",
            BreathingSpeed::BS8 => "040701fe01fe807f",
        }
    }
}

impl core::str::FromStr for LedBrightness {
    type Err = &'static str;

    fn from_str(s: &str) -> Result<LedBrightness, Self::Err> {
        if s.unicode_len() == 3 && s.get_char(0) == 'A' && s.get_char(1) == 'l' && s.get_char(2)
            == 'l' {
            Ok(LedBrightness::All)
        } else if s.unicode_len() == 4 && s.get_char(0) == 'H' && s.get_char(1) == 'a'
            && s.get_char(2) == 'l' && s.get_char(3) == 'f' {
            Ok(LedBrightness::Half)
        } else {
            Err("Error: See --help for possible values")
        }
    }
}

impl core::str::FromStr for DpiVal {
    type Err = &'static str;

    fn from_str(s: &str) -> Result<DpiVal, Self::Err> {
        if s.unicode_len() != 1 {
            return Err("Error: See --help for possible values");
        }
        let c = s.get_char(0);
        if c == '1' {
            Ok(DpiVal::DPI1)
        } else if c == '2' {
            Ok(DpiVal::DPI2)
        } else if c == '3' {
            Ok(DpiVal::DPI3)
        } else if c == '4' {
            Ok(DpiVal::DPI4)
        } else if c == '5' {
            Ok(DpiVal::DPI5)
        } else if c == '6' {
            Ok(DpiVal::DPI6)
        } else if c == '7' {
            Ok(DpiVal::DPI7)
        } else if c == '8' {
            Ok(DpiVal::DPI8)
        } else {
            Err("Error: See --help for possible values")
        }
    }
}

impl core::str::FromStr for BreathingSpeed {
    type Err = &'static str;

    fn from_str(s: &str) -> Result<BreathingSpeed, Self::Err> {
        if s.unicode_len() != 1 {
            return Err("Invalid breathing speed");
        }
        let c = s.get_char(0);
        if c == '1' {
            Ok(BreathingSpeed::BS1)
        } else if c == '2' {
            Ok(BreathingSpeed::BS2)
        } else if c == '3' {
            Ok(BreathingSpeed::BS3)
        } else if c == '4' {
            Ok(BreathingSpeed::BS4)
        } else if c == '5' {
            Ok(BreathingSpeed::BS5)
        } else if c == '6' {
            Ok(BreathingSpeed::BS6)
        } else if c == '7' {
            Ok(BreathingSpeed::BS7)
        } else if c == '8' {
            Ok(BreathingSpeed::BS8)
        } else {
            Err("Invalid breathing speed")
        }
    }
}

} // verus!
