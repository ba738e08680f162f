//! The commands that change a setting of an iiyama display, with their
//! typed parameters and the bytes they put on the wire.
use vstd::prelude::*;

use crate::dialect::iiyama::get_commands::GetCommand;
use crate::dialect::iiyama::IiyamaCommand;

verus! {

/// Upper end of the range 0-100 that the display accepts for levels.
pub const MAX_LEVEL: u8 = 100;

/// `v` clipped to the range 0-100.
pub open spec fn clip_level(v: u8) -> u8 {
    if v > MAX_LEVEL {
        MAX_LEVEL
    } else {
        v
    }
}

/// `v` clamped into `[lo, hi]` (for `lo <= hi`), as `Ord::clamp` does.
pub open spec fn clamp_to(v: u8, lo: u8, hi: u8) -> u8 {
    if v < lo {
        lo
    } else if v > hi {
        hi
    } else {
        v
    }
}

fn clip_level_exec(v: u8) -> (r: u8)
    ensures
        r == clip_level(v),
{
    if v > MAX_LEVEL {
        MAX_LEVEL
    } else {
        v
    }
}

#[derive(Debug, Clone, Copy, PartialEq, Eq, Structural)]
pub enum PowerState {
    Off,
    On,
}

impl PowerState {
    /// The byte that selects this state on the wire.
    pub open spec fn spec_code(self) -> u8 {
        match self {
            PowerState::Off => 0x01,
            PowerState::On => 0x02,
        }
    }

    pub fn code(self) -> (r: u8)
        ensures
            r == self.spec_code(),
    {
        match self {
            PowerState::Off => 0x01,
            PowerState::On => 0x02,
        }
    }
}

#[derive(Debug, Clone, Copy, PartialEq, Eq, Structural)]
pub enum BlockedUserInput {
    UnlockAll,
    LockAll,
    LockAllButPower,
    LockAllButVolume,
    ExceptPowerVolume,
}

impl BlockedUserInput {
    /// The byte that selects this lock mode on the wire.
    pub open spec fn spec_code(self) -> u8 {
        match self {
            BlockedUserInput::UnlockAll => 0x01,
            BlockedUserInput::LockAll => 0x02,
            BlockedUserInput::LockAllButPower => 0x03,
            BlockedUserInput::LockAllButVolume => 0x04,
            BlockedUserInput::ExceptPowerVolume => 0x07,
        }
    }

    pub fn code(self) -> (r: u8)
        ensures
            r == self.spec_code(),
    {
        match self {
            BlockedUserInput::UnlockAll => 0x01,
            BlockedUserInput::LockAll => 0x02,
            BlockedUserInput::LockAllButPower => 0x03,
            BlockedUserInput::LockAllButVolume => 0x04,
            BlockedUserInput::ExceptPowerVolume => 0x07,
        }
    }
}

#[derive(Debug, Clone, Copy, PartialEq, Eq, Structural)]
pub enum PowerStateAtColdStart {
    PowerOff,
    ForcedOn,
    LastState,
}

impl PowerStateAtColdStart {
    /// The byte that selects this behaviour on the wire.
    pub open spec fn spec_code(self) -> u8 {
        match self {
            PowerStateAtColdStart::PowerOff => 0x00,
            PowerStateAtColdStart::ForcedOn => 0x01,
            PowerStateAtColdStart::LastState => 0x02,
        }
    }

    pub fn code(self) -> (r: u8)
        ensures
            r == self.spec_code(),
    {
        match self {
            PowerStateAtColdStart::PowerOff => 0x00,
            PowerStateAtColdStart::ForcedOn => 0x01,
            PowerStateAtColdStart::LastState => 0x02,
        }
    }
}

#[derive(Debug, Clone, Copy, PartialEq, Eq, Structural)]
pub enum InputSource {
    Video,
    SVideo,
    Component,
    Cvi2,
    Vga,
    HDMi2,
    DisplayPort2,
    Usb2,
    CardDviD,
    DisplayPort1,
    CardOps,
    Usb1,
    HDMi,
    DviD,
    HDMi3,
    Browser,
    SmartCMS,
    /// Digital Media Server (DMS)
    DMS,
    InternalStorage,
    MediaPlayer,
    PdfPlayer,
    Custom,
    HDMi4,
}

impl InputSource {
    /// The byte that selects this source on the wire (0x14 and 0x15 are reserved).
    pub open spec fn spec_code(self) -> u8 {
        match self {
            InputSource::Video => 0x01,
            InputSource::SVideo => 0x02,
            InputSource::Component => 0x03,
            InputSource::Cvi2 => 0x04,
            InputSource::Vga => 0x05,
            InputSource::HDMi2 => 0x06,
            InputSource::DisplayPort2 => 0x07,
            InputSource::Usb2 => 0x08,
            InputSource::CardDviD => 0x09,
            InputSource::DisplayPort1 => 0x0A,
            InputSource::CardOps => 0x0B,
            InputSource::Usb1 => 0x0C,
            InputSource::HDMi => 0x0D,
            InputSource::DviD => 0x0E,
            InputSource::HDMi3 => 0x0F,
            InputSource::Browser => 0x10,
            InputSource::SmartCMS => 0x11,
            InputSource::DMS => 0x12,
            InputSource::InternalStorage => 0x13,
            InputSource::MediaPlayer => 0x16,
            InputSource::PdfPlayer => 0x17,
            InputSource::Custom => 0x18,
            InputSource::HDMi4 => 0x19,
        }
    }

    pub fn code(self) -> (r: u8)
        ensures
            r == self.spec_code(),
    {
        match self {
            InputSource::Video => 0x01,
            InputSource::SVideo => 0x02,
            InputSource::Component => 0x03,
            InputSource::Cvi2 => 0x04,
            InputSource::Vga => 0x05,
            InputSource::HDMi2 => 0x06,
            InputSource::DisplayPort2 => 0x07,
            InputSource::Usb2 => 0x08,
            InputSource::CardDviD => 0x09,
            InputSource::DisplayPort1 => 0x0A,
            InputSource::CardOps => 0x0B,
            InputSource::Usb1 => 0x0C,
            InputSource::HDMi => 0x0D,
            InputSource::DviD => 0x0E,
            InputSource::HDMi3 => 0x0F,
            InputSource::Browser => 0x10,
            InputSource::SmartCMS => 0x11,
            InputSource::DMS => 0x12,
            InputSource::InternalStorage => 0x13,
            InputSource::MediaPlayer => 0x16,
            InputSource::PdfPlayer => 0x17,
            InputSource::Custom => 0x18,
            InputSource::HDMi4 => 0x19,
        }
    }
}

#[derive(Debug, Clone, Copy, PartialEq, Eq, Structural)]
pub enum GammaSelection {
    Native,
    SGamma,
    Gamma22,
    Gamma24,
    /// D-Image (DICOM gamma)
    DImage,
}

impl GammaSelection {
    /// The byte that selects this gamma curve on the wire.
    pub open spec fn spec_code(self) -> u8 {
        match self {
            GammaSelection::Native => 0x01,
            GammaSelection::SGamma => 0x02,
            GammaSelection::Gamma22 => 0x03,
            GammaSelection::Gamma24 => 0x04,
            GammaSelection::DImage => 0x05,
        }
    }

    pub fn code(self) -> (r: u8)
        ensures
            r == self.spec_code(),
    {
        match self {
            GammaSelection::Native => 0x01,
            GammaSelection::SGamma => 0x02,
            GammaSelection::Gamma22 => 0x03,
            GammaSelection::Gamma24 => 0x04,
            GammaSelection::DImage => 0x05,
        }
    }
}

/// Need clipping ([`VideoParameters::clip_values`])
#[derive(Debug, Clone, Copy, PartialEq, Eq, Structural)]
pub struct VideoParameters {
    pub brightness: u8,
    pub color: u8,
    pub contrast: u8,
    pub sharpness: u8,
    /// Tint (Hue)
    pub tint: u8,
    pub black_level: u8,
    pub gamma: GammaSelection,
}

impl VideoParameters {
    /// The parameters with every level clipped to 0-100.
    pub open spec fn clipped(self) -> Self {
        VideoParameters {
            brightness: clip_level(self.brightness),
            color: clip_level(self.color),
            contrast: clip_level(self.contrast),
            sharpness: clip_level(self.sharpness),
            tint: clip_level(self.tint),
            black_level: clip_level(self.black_level),
            gamma: self.gamma,
        }
    }

    /// Every level lies in 0-100.
    pub open spec fn in_range(self) -> bool {
        &&& self.brightness <= MAX_LEVEL
        &&& self.color <= MAX_LEVEL
        &&& self.contrast <= MAX_LEVEL
        &&& self.sharpness <= MAX_LEVEL
        &&& self.tint <= MAX_LEVEL
        &&& self.black_level <= MAX_LEVEL
    }

    /// Clip the (potentially deserialized) values to the allowed range of 0-100
    /// This **must be called** before sending the data to the screen
    pub fn clip_values(&mut self)
        ensures
            *final(self) == old(self).clipped(),
    {
        self.brightness = clip_level_exec(self.brightness);
        self.color = clip_level_exec(self.color);
        self.contrast = clip_level_exec(self.contrast);
        self.sharpness = clip_level_exec(self.sharpness);
        self.tint = clip_level_exec(self.tint);
        self.black_level = clip_level_exec(self.black_level);
    }
}

#[derive(Debug, Clone, Copy, PartialEq, Eq, Structural)]
pub enum ColorTemperature {
    User1,
    Native,
    K11000,
    K10000,
    K9300,
    K7500,
    K6500,
    K5770,
    K5500,
    K5000,
    K4000,
    K3400,
    K3350,
    K3000,
    K2800,
    K2600,
    K1850,
    User2,
}

impl ColorTemperature {
    /// The byte that selects this colour temperature on the wire (0x11 is not used).
    pub open spec fn spec_code(self) -> u8 {
        match self {
            ColorTemperature::User1 => 0x00,
            ColorTemperature::Native => 0x01,
            ColorTemperature::K11000 => 0x02,
            ColorTemperature::K10000 => 0x03,
            ColorTemperature::K9300 => 0x04,
            ColorTemperature::K7500 => 0x05,
            ColorTemperature::K6500 => 0x06,
            ColorTemperature::K5770 => 0x07,
            ColorTemperature::K5500 => 0x08,
            ColorTemperature::K5000 => 0x09,
            ColorTemperature::K4000 => 0x0A,
            ColorTemperature::K3400 => 0x0B,
            ColorTemperature::K3350 => 0x0C,
            ColorTemperature::K3000 => 0x0D,
            ColorTemperature::K2800 => 0x0E,
            ColorTemperature::K2600 => 0x0F,
            ColorTemperature::K1850 => 0x10,
            ColorTemperature::User2 => 0x12,
        }
    }

    pub fn code(self) -> (r: u8)
        ensures
            r == self.spec_code(),
    {
        match self {
            ColorTemperature::User1 => 0x00,
            ColorTemperature::Native => 0x01,
            ColorTemperature::K11000 => 0x02,
            ColorTemperature::K10000 => 0x03,
            ColorTemperature::K9300 => 0x04,
            ColorTemperature::K7500 => 0x05,
            ColorTemperature::K6500 => 0x06,
            ColorTemperature::K5770 => 0x07,
            ColorTemperature::K5500 => 0x08,
            ColorTemperature::K5000 => 0x09,
            ColorTemperature::K4000 => 0x0A,
            ColorTemperature::K3400 => 0x0B,
            ColorTemperature::K3350 => 0x0C,
            ColorTemperature::K3000 => 0x0D,
            ColorTemperature::K2800 => 0x0E,
            ColorTemperature::K2600 => 0x0F,
            ColorTemperature::K1850 => 0x10,
            ColorTemperature::User2 => 0x12,
        }
    }
}

#[derive(Debug, Clone, Copy, PartialEq, Eq, Structural)]
pub struct ColorParameters {
    pub red_gain: u8,
    pub green_gain: u8,
    pub blue_gain: u8,
    pub red_offset: u8,
    pub green_offset: u8,
    pub blue_offset: u8,
}

#[derive(Debug, Clone, Copy, PartialEq, Eq, Structural)]
pub enum PictureFormat {
    Normal43,
    Custom,
    Real11,
    Full,
    Widescreen219,
    Dynamic,
    Widescreen169,
}

impl PictureFormat {
    /// The byte that selects this picture format on the wire.
    pub open spec fn spec_code(self) -> u8 {
        match self {
            PictureFormat::Normal43 => 0x00,
            PictureFormat::Custom => 0x01,
            PictureFormat::Real11 => 0x02,
            PictureFormat::Full => 0x03,
            PictureFormat::Widescreen219 => 0x04,
            PictureFormat::Dynamic => 0x05,
            PictureFormat::Widescreen169 => 0x06,
        }
    }

    pub fn code(self) -> (r: u8)
        ensures
            r == self.spec_code(),
    {
        match self {
            PictureFormat::Normal43 => 0x00,
            PictureFormat::Custom => 0x01,
            PictureFormat::Real11 => 0x02,
            PictureFormat::Full => 0x03,
            PictureFormat::Widescreen219 => 0x04,
            PictureFormat::Dynamic => 0x05,
            PictureFormat::Widescreen169 => 0x06,
        }
    }
}

/// Need clipping ([`Volume::clip_values`])
#[derive(Debug, Clone, Copy, PartialEq, Eq, Structural)]
pub struct Volume {
    pub volume: u8,
    pub audio_out_volume_level: u8,
}

impl Volume {
    /// The volumes clipped to 0-100.
    pub open spec fn clipped(self) -> Self {
        Volume {
            volume: clip_level(self.volume),
            audio_out_volume_level: clip_level(self.audio_out_volume_level),
        }
    }

    /// Both volumes lie in 0-100.
    pub open spec fn in_range(self) -> bool {
        self.volume <= MAX_LEVEL && self.audio_out_volume_level <= MAX_LEVEL
    }

    /// Clip the (potentially deserialized) values to the allowed range of 0-100
    /// This **must be called** before sending the data to the screen
    pub fn clip_values(&mut self)
        ensures
            *final(self) == old(self).clipped(),
    {
        self.volume = clip_level_exec(self.volume);
        self.audio_out_volume_level = clip_level_exec(self.audio_out_volume_level);
    }
}

/// Need clipping ([`VolumeLimits::clip_values`])
#[derive(Debug, Clone, Copy, PartialEq, Eq, Structural)]
pub struct VolumeLimits {
    pub min_volume: u8,
    pub max_volume: u8,
    pub switch_on_volume: u8,
}

impl VolumeLimits {
    /// The smaller of the two clipped limits.
    pub open spec fn lower_limit(self) -> u8 {
        if clip_level(self.min_volume) <= clip_level(self.max_volume) {
            clip_level(self.min_volume)
        } else {
            clip_level(self.max_volume)
        }
    }

    /// The larger of the two clipped limits.
    pub open spec fn upper_limit(self) -> u8 {
        if clip_level(self.min_volume) <= clip_level(self.max_volume) {
            clip_level(self.max_volume)
        } else {
            clip_level(self.min_volume)
        }
    }

    /// The limits clipped to 0-100, and the switch-on volume clamped between
    /// the clipped limits (between the smaller and the larger of them, should
    /// the minimum exceed the maximum).
    pub open spec fn clipped(self) -> Self {
        VolumeLimits {
            min_volume: clip_level(self.min_volume),
            max_volume: clip_level(self.max_volume),
            switch_on_volume: clamp_to(self.switch_on_volume, self.lower_limit(), self.upper_limit()),
        }
    }

    /// The limits lie in 0-100 and the switch-on volume lies between them.
    pub open spec fn in_range(self) -> bool {
        &&& self.min_volume <= MAX_LEVEL
        &&& self.max_volume <= MAX_LEVEL
        &&& (self.min_volume <= self.switch_on_volume || self.max_volume <= self.switch_on_volume)
        &&& (self.switch_on_volume <= self.max_volume || self.switch_on_volume <= self.min_volume)
    }

    /// Clip the (potentially deserialized) values to the allowed range of 0-100
    /// This **must be called** before sending the data to the screen
    pub fn clip_values(&mut self)
        ensures
            *final(self) == old(self).clipped(),
    {
        self.min_volume = clip_level_exec(self.min_volume);
        self.max_volume = clip_level_exec(self.max_volume);

        // I don't know if this is strictly necessary but I think it's at least logical
        let (lower, upper) = if self.min_volume <= self.max_volume {
            (self.min_volume, self.max_volume)
        } else {
            (self.max_volume, self.min_volume)
        };
        let v = self.switch_on_volume;
        self.switch_on_volume = if v < lower {
            lower
        } else if v > upper {
            upper
        } else {
            v
        };
    }
}

/// Need clipping ([`AudioParameters::clip_values`])
#[derive(Debug, Clone, Copy, PartialEq, Eq, Structural)]
pub struct AudioParameters {
    pub treble: u8,
    pub bass: u8,
}

impl AudioParameters {
    /// Treble and bass clipped to 0-100.
    pub open spec fn clipped(self) -> Self {
        AudioParameters { treble: clip_level(self.treble), bass: clip_level(self.bass) }
    }

    /// Treble and bass lie in 0-100.
    pub open spec fn in_range(self) -> bool {
        self.treble <= MAX_LEVEL && self.bass <= MAX_LEVEL
    }

    /// Clip the (potentially deserialized) values to the allowed range of 0-100
    /// This **must be called** before sending the data to the screen
    pub fn clip_values(&mut self)
        ensures
            *final(self) == old(self).clipped(),
    {
        self.treble = clip_level_exec(self.treble);
        self.bass = clip_level_exec(self.bass);
    }
}

/// Clipping puts video parameters in range, and leaves parameters that
/// are in range unchanged; so clipping twice is clipping once.
pub proof fn lemma_video_parameters_clip(p: VideoParameters)
    ensures
        p.clipped().in_range(),
        p.in_range() ==> p.clipped() == p,
        p.clipped().clipped() == p.clipped(),
{
}

/// Clipping puts volumes in range, leaves volumes in range unchanged, and
/// is idempotent.
pub proof fn lemma_volume_clip(v: Volume)
    ensures
        v.clipped().in_range(),
        v.in_range() ==> v.clipped() == v,
        v.clipped().clipped() == v.clipped(),
{
}

/// Clipping puts volume limits in range (both limits at most 100, the
/// switch-on volume between them, and so at most 100), leaves limits in
/// range unchanged, and is idempotent.
pub proof fn lemma_volume_limits_clip(l: VolumeLimits)
    ensures
        l.clipped().in_range(),
        l.clipped().switch_on_volume <= MAX_LEVEL,
        l.in_range() ==> l.clipped() == l,
        l.clipped().clipped() == l.clipped(),
{
}

/// Clipping puts audio parameters in range, leaves parameters in range
/// unchanged, and is idempotent.
pub proof fn lemma_audio_parameters_clip(p: AudioParameters)
    ensures
        p.clipped().in_range(),
        p.in_range() ==> p.clipped() == p,
        p.clipped().clipped() == p.clipped(),
{
}

/// Enum representing the different request functions for setting data on the monitor
#[derive(Debug, Clone, Copy, PartialEq, Eq, Structural)]
pub enum SetCommand {
    PowerState(PowerState),
    IrRemoteControl(BlockedUserInput),
    KeypadControl(BlockedUserInput),
    PowerStateAtColdStart(PowerStateAtColdStart),
    InputSource(InputSource),
    VideoParameters(VideoParameters),
    ColorTemperature(ColorTemperature),
    ColorParameters(ColorParameters),
    PictureFormat(PictureFormat),
    Volume(Volume),
    VolumeLimits(VolumeLimits),
    AudioParameters(AudioParameters),
    /// Requests the display to make an auto adjustment on the VGA input; no parameters.
    AutoAdjust,
}

impl SetCommand {
    /// The function code of the command.
    pub open spec fn code_of(self) -> u8 {
        match self {
            SetCommand::PowerState(_) => 0x18,
            SetCommand::IrRemoteControl(_) => 0x1c,
            SetCommand::KeypadControl(_) => 0x1a,
            SetCommand::PowerStateAtColdStart(_) => 0xa3,
            SetCommand::InputSource(_) => 0xac,
            SetCommand::VideoParameters(_) => 0x32,
            SetCommand::ColorTemperature(_) => 0x34,
            SetCommand::ColorParameters(_) => 0x36,
            SetCommand::PictureFormat(_) => 0x3a,
            SetCommand::Volume(_) => 0x44,
            SetCommand::VolumeLimits(_) => 0xb8,
            SetCommand::AudioParameters(_) => 0x42,
            SetCommand::AutoAdjust => 0x70,
        }
    }

    /// The payload bytes of the command, in the order the protocol gives.
    pub open spec fn payload_of(self) -> Seq<u8> {
        match self {
            SetCommand::PowerState(v) => seq![v.spec_code()],
            SetCommand::IrRemoteControl(v) => seq![v.spec_code()],
            SetCommand::KeypadControl(v) => seq![v.spec_code()],
            SetCommand::PowerStateAtColdStart(v) => seq![v.spec_code()],
            // data[1] - data[3] are reserved and must be 0
            SetCommand::InputSource(v) => seq![v.spec_code(), 0u8, 0u8, 0u8],
            SetCommand::VideoParameters(p) => seq![
                p.brightness,
                p.color,
                p.contrast,
                p.sharpness,
                p.tint,
                p.black_level,
                p.gamma.spec_code(),
            ],
            SetCommand::ColorTemperature(v) => seq![v.spec_code()],
            SetCommand::ColorParameters(p) => seq![
                p.red_gain,
                p.green_gain,
                p.blue_gain,
                p.red_offset,
                p.green_offset,
                p.blue_offset,
            ],
            SetCommand::PictureFormat(v) => seq![v.spec_code()],
            SetCommand::Volume(p) => seq![p.volume, p.audio_out_volume_level],
            SetCommand::VolumeLimits(p) => seq![p.min_volume, p.max_volume, p.switch_on_volume],
            SetCommand::AudioParameters(p) => seq![p.treble, p.bass],
            // 0x40: Auto Adjust (all other values are reserved); 0x00: Reserved, default 0
            SetCommand::AutoAdjust => seq![0x40u8, 0x00u8],
        }
    }

    /// The parameters that need clipping are in range.
    pub open spec fn is_clipped(self) -> bool {
        match self {
            SetCommand::VideoParameters(p) => p.in_range(),
            SetCommand::Volume(v) => v.in_range(),
            SetCommand::VolumeLimits(l) => l.in_range(),
            SetCommand::AudioParameters(p) => p.in_range(),
            _ => true,
        }
    }

    /// The reading that reports the setting this command changes.
    pub fn get_matching_get_command(&self) -> (r: Option<GetCommand>)
        ensures
            r is None,
    {
        match self {
            Self::PowerState(_) => None,
            Self::IrRemoteControl(_) => None,
            Self::KeypadControl(_) => None,
            Self::PowerStateAtColdStart(_) => None,
            Self::InputSource(_) => None,
            Self::VideoParameters(_) => None,
            Self::ColorTemperature(_) => None,
            Self::ColorParameters(_) => None,
            Self::PictureFormat(_) => None,
            Self::Volume(_) => None,
            Self::VolumeLimits(_) => None,
            Self::AudioParameters(_) => None,
            Self::AutoAdjust => None,
        }
    }
}

impl IiyamaCommand for SetCommand {
    open spec fn spec_command_code(&self) -> u8 {
        self.code_of()
    }

    open spec fn spec_payload_data(&self) -> Option<Seq<u8>> {
        Some(self.payload_of())
    }

    fn get_command_code(&self) -> (r: u8) {
        match self {
            Self::PowerState(_) => 0x18,
            Self::IrRemoteControl(_) => 0x1c,
            Self::KeypadControl(_) => 0x1a,
            Self::PowerStateAtColdStart(_) => 0xa3,
            Self::InputSource(_) => 0xac,
            Self::VideoParameters(_) => 0x32,
            Self::ColorTemperature(_) => 0x34,
            Self::ColorParameters(_) => 0x36,
            Self::PictureFormat(_) => 0x3a,
            Self::Volume(_) => 0x44,
            Self::VolumeLimits(_) => 0xb8,
            Self::AudioParameters(_) => 0x42,
            Self::AutoAdjust => 0x70,
        }
    }

    fn get_payload_data(&self) -> (r: Option<Vec<u8>>) {
        match *self {
            Self::PowerState(value) => Some(vec![value.code()]),
            Self::IrRemoteControl(value) => Some(vec![value.code()]),
            Self::KeypadControl(value) => Some(vec![value.code()]),
            Self::PowerStateAtColdStart(value) => Some(vec![value.code()]),
            Self::InputSource(value) => Some(vec![value.code(), 0, 0, 0]),
            Self::VideoParameters(params) => Some(
                vec![
                    params.brightness,
                    params.color,
                    params.contrast,
                    params.sharpness,
                    params.tint,
                    params.black_level,
                    params.gamma.code(),
                ],
            ),
            Self::ColorTemperature(value) => Some(vec![value.code()]),
            Self::ColorParameters(params) => Some(
                vec![
                    params.red_gain,
                    params.green_gain,
                    params.blue_gain,
                    params.red_offset,
                    params.green_offset,
                    params.blue_offset,
                ],
            ),
            Self::PictureFormat(value) => Some(vec![value.code()]),
            Self::Volume(params) => Some(vec![params.volume, params.audio_out_volume_level]),
            Self::VolumeLimits(params) => Some(
                vec![params.min_volume, params.max_volume, params.switch_on_volume],
            ),
            Self::AudioParameters(params) => Some(vec![params.treble, params.bass]),
            Self::AutoAdjust => Some(vec![0x40, 0x00]),
        }
    }
}


// The protocol constants and the laws of payloads and clipping, stated
// against fixed numbers and fields.

/// The wire codes of the power states, as the protocol fixes them; no two
/// share a code.
pub proof fn lemma_power_state_codes()
    ensures
        PowerState::Off.spec_code() == 0x01,
        PowerState::On.spec_code() == 0x02,
        forall|a: PowerState, b: PowerState| a.spec_code() == b.spec_code() ==> a == b,
        forall|a: PowerState| 0x01 <= #[trigger] a.spec_code() <= 0x02,
{
}

/// The wire codes of the lock modes of user input, as the protocol fixes them; no two
/// share a code, and the codes 0x05 and 0x06 are not used.
pub proof fn lemma_blocked_user_input_codes()
    ensures
        BlockedUserInput::UnlockAll.spec_code() == 0x01,
        BlockedUserInput::LockAll.spec_code() == 0x02,
        BlockedUserInput::LockAllButPower.spec_code() == 0x03,
        BlockedUserInput::LockAllButVolume.spec_code() == 0x04,
        BlockedUserInput::ExceptPowerVolume.spec_code() == 0x07,
        forall|a: BlockedUserInput, b: BlockedUserInput| a.spec_code() == b.spec_code() ==> a == b,
        forall|a: BlockedUserInput| 0x01 <= #[trigger] a.spec_code() <= 0x07 && a.spec_code() != 0x05 && a.spec_code() != 0x06,
{
}

/// The wire codes of the cold-start behaviours, as the protocol fixes them; no two
/// share a code.
pub proof fn lemma_power_state_at_cold_start_codes()
    ensures
        PowerStateAtColdStart::PowerOff.spec_code() == 0x00,
        PowerStateAtColdStart::ForcedOn.spec_code() == 0x01,
        PowerStateAtColdStart::LastState.spec_code() == 0x02,
        forall|a: PowerStateAtColdStart, b: PowerStateAtColdStart| a.spec_code() == b.spec_code() ==> a == b,
        forall|a: PowerStateAtColdStart| 0x00 <= #[trigger] a.spec_code() <= 0x02,
{
}

/// The wire codes of the input sources, as the protocol fixes them; no two
/// share a code, and the codes 0x14 and 0x15 are not used.
pub proof fn lemma_input_source_codes()
    ensures
        InputSource::Video.spec_code() == 0x01,
        InputSource::SVideo.spec_code() == 0x02,
        InputSource::Component.spec_code() == 0x03,
        InputSource::Cvi2.spec_code() == 0x04,
        InputSource::Vga.spec_code() == 0x05,
        InputSource::HDMi2.spec_code() == 0x06,
        InputSource::DisplayPort2.spec_code() == 0x07,
        InputSource::Usb2.spec_code() == 0x08,
        InputSource::CardDviD.spec_code() == 0x09,
        InputSource::DisplayPort1.spec_code() == 0x0A,
        InputSource::CardOps.spec_code() == 0x0B,
        InputSource::Usb1.spec_code() == 0x0C,
        InputSource::HDMi.spec_code() == 0x0D,
        InputSource::DviD.spec_code() == 0x0E,
        InputSource::HDMi3.spec_code() == 0x0F,
        InputSource::Browser.spec_code() == 0x10,
        InputSource::SmartCMS.spec_code() == 0x11,
        InputSource::DMS.spec_code() == 0x12,
        InputSource::InternalStorage.spec_code() == 0x13,
        InputSource::MediaPlayer.spec_code() == 0x16,
        InputSource::PdfPlayer.spec_code() == 0x17,
        InputSource::Custom.spec_code() == 0x18,
        InputSource::HDMi4.spec_code() == 0x19,
        forall|a: InputSource, b: InputSource| a.spec_code() == b.spec_code() ==> a == b,
        forall|a: InputSource| 0x01 <= #[trigger] a.spec_code() <= 0x19 && a.spec_code() != 0x14 && a.spec_code() != 0x15,
{
}

/// The wire codes of the gamma curves, as the protocol fixes them; no two
/// share a code.
pub proof fn lemma_gamma_selection_codes()
    ensures
        GammaSelection::Native.spec_code() == 0x01,
        GammaSelection::SGamma.spec_code() == 0x02,
        GammaSelection::Gamma22.spec_code() == 0x03,
        GammaSelection::Gamma24.spec_code() == 0x04,
        GammaSelection::DImage.spec_code() == 0x05,
        forall|a: GammaSelection, b: GammaSelection| a.spec_code() == b.spec_code() ==> a == b,
        forall|a: GammaSelection| 0x01 <= #[trigger] a.spec_code() <= 0x05,
{
}

/// The wire codes of the colour temperatures, as the protocol fixes them; no two
/// share a code, and the code 0x11 is not used.
pub proof fn lemma_color_temperature_codes()
    ensures
        ColorTemperature::User1.spec_code() == 0x00,
        ColorTemperature::Native.spec_code() == 0x01,
        ColorTemperature::K11000.spec_code() == 0x02,
        ColorTemperature::K10000.spec_code() == 0x03,
        ColorTemperature::K9300.spec_code() == 0x04,
        ColorTemperature::K7500.spec_code() == 0x05,
        ColorTemperature::K6500.spec_code() == 0x06,
        ColorTemperature::K5770.spec_code() == 0x07,
        ColorTemperature::K5500.spec_code() == 0x08,
        ColorTemperature::K5000.spec_code() == 0x09,
        ColorTemperature::K4000.spec_code() == 0x0A,
        ColorTemperature::K3400.spec_code() == 0x0B,
        ColorTemperature::K3350.spec_code() == 0x0C,
        ColorTemperature::K3000.spec_code() == 0x0D,
        ColorTemperature::K2800.spec_code() == 0x0E,
        ColorTemperature::K2600.spec_code() == 0x0F,
        ColorTemperature::K1850.spec_code() == 0x10,
        ColorTemperature::User2.spec_code() == 0x12,
        forall|a: ColorTemperature, b: ColorTemperature| a.spec_code() == b.spec_code() ==> a == b,
        forall|a: ColorTemperature| 0x00 <= #[trigger] a.spec_code() <= 0x12 && a.spec_code() != 0x11,
{
}

/// The wire codes of the picture formats, as the protocol fixes them; no two
/// share a code.
pub proof fn lemma_picture_format_codes()
    ensures
        PictureFormat::Normal43.spec_code() == 0x00,
        PictureFormat::Custom.spec_code() == 0x01,
        PictureFormat::Real11.spec_code() == 0x02,
        PictureFormat::Full.spec_code() == 0x03,
        PictureFormat::Widescreen219.spec_code() == 0x04,
        PictureFormat::Dynamic.spec_code() == 0x05,
        PictureFormat::Widescreen169.spec_code() == 0x06,
        forall|a: PictureFormat, b: PictureFormat| a.spec_code() == b.spec_code() ==> a == b,
        forall|a: PictureFormat| 0x00 <= #[trigger] a.spec_code() <= 0x06,
{
}

/// The function code of every set command, as the protocol fixes it.
pub proof fn lemma_set_command_codes()
    ensures
        forall|s: PowerState| #[trigger] SetCommand::PowerState(s).code_of() == 0x18,
        forall|b: BlockedUserInput| #[trigger] SetCommand::IrRemoteControl(b).code_of() == 0x1c,
        forall|b: BlockedUserInput| #[trigger] SetCommand::KeypadControl(b).code_of() == 0x1a,
        forall|s: PowerStateAtColdStart| #[trigger] SetCommand::PowerStateAtColdStart(s).code_of()
            == 0xa3,
        forall|s: InputSource| #[trigger] SetCommand::InputSource(s).code_of() == 0xac,
        forall|p: VideoParameters| #[trigger] SetCommand::VideoParameters(p).code_of() == 0x32,
        forall|t: ColorTemperature| #[trigger] SetCommand::ColorTemperature(t).code_of() == 0x34,
        forall|p: ColorParameters| #[trigger] SetCommand::ColorParameters(p).code_of() == 0x36,
        forall|f: PictureFormat| #[trigger] SetCommand::PictureFormat(f).code_of() == 0x3a,
        forall|v: Volume| #[trigger] SetCommand::Volume(v).code_of() == 0x44,
        forall|l: VolumeLimits| #[trigger] SetCommand::VolumeLimits(l).code_of() == 0xb8,
        forall|a: AudioParameters| #[trigger] SetCommand::AudioParameters(a).code_of() == 0x42,
        SetCommand::AutoAdjust.code_of() == 0x70,
{
}

/// The payload of every set command, byte by byte: a one-byte code for the
/// enumerated settings; the input source code followed by three zero
/// bytes; brightness, colour, contrast, sharpness, tint, black level and
/// gamma code for the video parameters; red, green and blue gain, then red,
/// green and blue offset for the colour parameters; volume then audio-out
/// level; minimum, maximum then switch-on volume; treble then bass; and
/// 0x40, 0x00 for the auto adjustment.
pub proof fn lemma_set_command_payloads()
    ensures
        forall|s: PowerState| #[trigger] SetCommand::PowerState(s).payload_of() == seq![s.spec_code()],
        forall|b: BlockedUserInput| #[trigger] SetCommand::IrRemoteControl(b).payload_of() == seq![
            b.spec_code(),
        ],
        forall|b: BlockedUserInput| #[trigger] SetCommand::KeypadControl(b).payload_of() == seq![
            b.spec_code(),
        ],
        forall|s: PowerStateAtColdStart| #[trigger] SetCommand::PowerStateAtColdStart(s).payload_of()
            == seq![s.spec_code()],
        forall|s: InputSource|
            {
                let d = #[trigger] SetCommand::InputSource(s).payload_of();
                &&& d.len() == 4
                &&& d[0] == s.spec_code()
                &&& d[1] == 0 && d[2] == 0 && d[3] == 0
            },
        forall|p: VideoParameters|
            {
                let d = #[trigger] SetCommand::VideoParameters(p).payload_of();
                &&& d.len() == 7
                &&& d[0] == p.brightness
                &&& d[1] == p.color
                &&& d[2] == p.contrast
                &&& d[3] == p.sharpness
                &&& d[4] == p.tint
                &&& d[5] == p.black_level
                &&& d[6] == p.gamma.spec_code()
            },
        forall|t: ColorTemperature| #[trigger] SetCommand::ColorTemperature(t).payload_of() == seq![
            t.spec_code(),
        ],
        forall|p: ColorParameters|
            {
                let d = #[trigger] SetCommand::ColorParameters(p).payload_of();
                &&& d.len() == 6
                &&& d[0] == p.red_gain
                &&& d[1] == p.green_gain
                &&& d[2] == p.blue_gain
                &&& d[3] == p.red_offset
                &&& d[4] == p.green_offset
                &&& d[5] == p.blue_offset
            },
        forall|f: PictureFormat| #[trigger] SetCommand::PictureFormat(f).payload_of() == seq![
            f.spec_code(),
        ],
        forall|v: Volume|
            {
                let d = #[trigger] SetCommand::Volume(v).payload_of();
                &&& d.len() == 2
                &&& d[0] == v.volume
                &&& d[1] == v.audio_out_volume_level
            },
        forall|l: VolumeLimits|
            {
                let d = #[trigger] SetCommand::VolumeLimits(l).payload_of();
                &&& d.len() == 3
                &&& d[0] == l.min_volume
                &&& d[1] == l.max_volume
                &&& d[2] == l.switch_on_volume
            },
        forall|a: AudioParameters|
            {
                let d = #[trigger] SetCommand::AudioParameters(a).payload_of();
                &&& d.len() == 2
                &&& d[0] == a.treble
                &&& d[1] == a.bass
            },
        SetCommand::AutoAdjust.payload_of() == seq![0x40u8, 0x00u8],
{
}

/// A level clipped to 0-100: the level itself up to 100, and 100 above.
pub open spec fn level_up_to_100(v: u8) -> u8 {
    if v <= 100 {
        v
    } else {
        100
    }
}

/// Clipping video parameters takes each level to itself when it is at
/// most 100 and to 100 when it is above, and keeps the gamma curve.
pub proof fn lemma_video_parameters_clip_levels(p: VideoParameters)
    ensures
        p.clipped().brightness == level_up_to_100(p.brightness),
        p.clipped().color == level_up_to_100(p.color),
        p.clipped().contrast == level_up_to_100(p.contrast),
        p.clipped().sharpness == level_up_to_100(p.sharpness),
        p.clipped().tint == level_up_to_100(p.tint),
        p.clipped().black_level == level_up_to_100(p.black_level),
        p.clipped().gamma == p.gamma,
{
}

/// Clipping a volume takes each level to itself when it is at most 100 and
/// to 100 when it is above.
pub proof fn lemma_volume_clip_levels(v: Volume)
    ensures
        v.clipped().volume == level_up_to_100(v.volume),
        v.clipped().audio_out_volume_level == level_up_to_100(v.audio_out_volume_level),
{
}

/// Clipping audio parameters takes treble and bass to themselves when they
/// are at most 100 and to 100 when they are above.
pub proof fn lemma_audio_parameters_clip_levels(a: AudioParameters)
    ensures
        a.clipped().treble == level_up_to_100(a.treble),
        a.clipped().bass == level_up_to_100(a.bass),
{
}

/// Clipping volume limits takes each limit to itself when it is at most 100
/// and to 100 when it is above; the switch-on volume stays where it is when
/// it lies between the clipped limits, and otherwise moves to the nearer
/// one.
pub proof fn lemma_volume_limits_clip_levels(l: VolumeLimits)
    ensures
        l.clipped().min_volume == level_up_to_100(l.min_volume),
        l.clipped().max_volume == level_up_to_100(l.max_volume),
        ({
            let lo = level_up_to_100(l.min_volume);
            let hi = level_up_to_100(l.max_volume);
            let s = l.switch_on_volume;
            let r = l.clipped().switch_on_volume;
            &&& ((lo <= s && s <= hi) || (hi <= s && s <= lo)) ==> r == s
            &&& (s < lo && s < hi) ==> (r == lo || r == hi) && r <= lo && r <= hi
            &&& (s > lo && s > hi) ==> (r == lo || r == hi) && r >= lo && r >= hi
        }),
{
}

} // verus!
