//! The Soundcore Sport X20 (A3968): its sound modes, its state update packet and its state.

use vstd::prelude::*;

use crate::button_configuration::{
    ActionKind, Button, ButtonAction, ButtonConfigurationSettings, ButtonDisableMode,
    ButtonParseSettings, ButtonPressKind, ButtonSettings, ButtonStatusCollection,
    EnabledFlagKind, spec_take_statuses,
};
use crate::dual_connections::{DualConnections, DualConnectionsDevice};
use crate::equalizer::{
    AgeRange, CustomHearId, EqualizerConfiguration, EqualizerConfigurationView, Gender,
    VolumeAdjustments,
};
use crate::packet::{Command, Direction, Packet};
use crate::reset_buttons::ResetButtonConfigurationPending;
use crate::structures::{
    AmbientSoundMode, AmbientSoundModeCycle, AmbientSoundModeCycleTws, AutoPowerOff,
    AutoPowerOffDurationIndex, CaseBatteryLevel, BatteryLevel, DualBattery, DualFirmwareVersion,
    SerialNumber, TransparencyMode, TwsStatus, WindNoise,
};

verus! {

/// Manual or adaptive noise canceling.
#[derive(Debug, Clone, Copy, PartialEq, Eq, Hash, Structural)]
pub enum NoiseCancelingMode {
    Manual,
    Adaptive,
}

impl NoiseCancelingMode {
    pub open spec fn spec_byte(self) -> u8 {
        match self {
            NoiseCancelingMode::Manual => 0,
            NoiseCancelingMode::Adaptive => 1,
        }
    }

    /// Unknown bytes fall back to manual.
    pub open spec fn spec_from_byte(byte: u8) -> Self {
        if byte == 1 {
            NoiseCancelingMode::Adaptive
        } else {
            NoiseCancelingMode::Manual
        }
    }

    pub fn byte(&self) -> (r: u8)
        ensures
            r == self.spec_byte(),
    {
        match self {
            NoiseCancelingMode::Manual => 0,
            NoiseCancelingMode::Adaptive => 1,
        }
    }

    pub fn from_byte(byte: u8) -> (r: Self)
        ensures
            r == Self::spec_from_byte(byte),
    {
        if byte == 1 {
            NoiseCancelingMode::Adaptive
        } else {
            NoiseCancelingMode::Manual
        }
    }
}

/// The strength of manual noise canceling.
#[derive(Debug, Clone, Copy, PartialEq, Eq, Hash, Structural)]
pub enum ManualNoiseCancelingNamed {
    Weak,
    Moderate,
    Strong,
}

impl ManualNoiseCancelingNamed {
    pub open spec fn spec_id(self) -> u8 {
        match self {
            ManualNoiseCancelingNamed::Weak => 1,
            ManualNoiseCancelingNamed::Moderate => 2,
            ManualNoiseCancelingNamed::Strong => 3,
        }
    }

    /// Unknown ids fall back to weak.
    pub open spec fn spec_from_id(id: u8) -> Self {
        if id == 2 {
            ManualNoiseCancelingNamed::Moderate
        } else if id == 3 {
            ManualNoiseCancelingNamed::Strong
        } else {
            ManualNoiseCancelingNamed::Weak
        }
    }

    pub fn id(&self) -> (r: u8)
        ensures
            r == self.spec_id(),
    {
        match self {
            ManualNoiseCancelingNamed::Weak => 1,
            ManualNoiseCancelingNamed::Moderate => 2,
            ManualNoiseCancelingNamed::Strong => 3,
        }
    }

    pub fn from_id(id: u8) -> (r: Self)
        ensures
            r == Self::spec_from_id(id),
    {
        if id == 2 {
            ManualNoiseCancelingNamed::Moderate
        } else if id == 3 {
            ManualNoiseCancelingNamed::Strong
        } else {
            ManualNoiseCancelingNamed::Weak
        }
    }

    pub open spec fn spec_name(self) -> Seq<char> {
        match self {
            ManualNoiseCancelingNamed::Weak => "Weak"@,
            ManualNoiseCancelingNamed::Moderate => "Moderate"@,
            ManualNoiseCancelingNamed::Strong => "Strong"@,
        }
    }

    pub fn name(&self) -> (r: &'static str)
        ensures
            r@ == self.spec_name(),
    {
        match self {
            ManualNoiseCancelingNamed::Weak => "Weak",
            ManualNoiseCancelingNamed::Moderate => "Moderate",
            ManualNoiseCancelingNamed::Strong => "Strong",
        }
    }
}

/// The noise level that adaptive noise canceling measured.
#[derive(Debug, Clone, Copy, PartialEq, Eq, Hash, Structural)]
pub enum AdaptiveNoiseCancelingNamedNoiseLevel {
    LowNoise,
    MediumNoise,
    HighNoise,
}

impl AdaptiveNoiseCancelingNamedNoiseLevel {
    pub open spec fn spec_id(self) -> u8 {
        match self {
            AdaptiveNoiseCancelingNamedNoiseLevel::LowNoise => 0,
            AdaptiveNoiseCancelingNamedNoiseLevel::MediumNoise => 1,
            AdaptiveNoiseCancelingNamedNoiseLevel::HighNoise => 2,
        }
    }

    /// Unknown ids fall back to low noise.
    pub open spec fn spec_from_id(id: u8) -> Self {
        if id == 1 {
            AdaptiveNoiseCancelingNamedNoiseLevel::MediumNoise
        } else if id == 2 {
            AdaptiveNoiseCancelingNamedNoiseLevel::HighNoise
        } else {
            AdaptiveNoiseCancelingNamedNoiseLevel::LowNoise
        }
    }

    pub fn id(&self) -> (r: u8)
        ensures
            r == self.spec_id(),
    {
        match self {
            AdaptiveNoiseCancelingNamedNoiseLevel::LowNoise => 0,
            AdaptiveNoiseCancelingNamedNoiseLevel::MediumNoise => 1,
            AdaptiveNoiseCancelingNamedNoiseLevel::HighNoise => 2,
        }
    }

    pub fn from_id(id: u8) -> (r: Self)
        ensures
            r == Self::spec_from_id(id),
    {
        if id == 1 {
            AdaptiveNoiseCancelingNamedNoiseLevel::MediumNoise
        } else if id == 2 {
            AdaptiveNoiseCancelingNamedNoiseLevel::HighNoise
        } else {
            AdaptiveNoiseCancelingNamedNoiseLevel::LowNoise
        }
    }

    pub open spec fn spec_name(self) -> Seq<char> {
        match self {
            AdaptiveNoiseCancelingNamedNoiseLevel::LowNoise => "LowNoise"@,
            AdaptiveNoiseCancelingNamedNoiseLevel::MediumNoise => "MediumNoise"@,
            AdaptiveNoiseCancelingNamedNoiseLevel::HighNoise => "HighNoise"@,
        }
    }

    pub fn name(&self) -> (r: &'static str)
        ensures
            r@ == self.spec_name(),
    {
        match self {
            AdaptiveNoiseCancelingNamedNoiseLevel::LowNoise => "LowNoise",
            AdaptiveNoiseCancelingNamedNoiseLevel::MediumNoise => "MediumNoise",
            AdaptiveNoiseCancelingNamedNoiseLevel::HighNoise => "HighNoise",
        }
    }
}

/// The sound modes of the A3968.
#[derive(Debug, Clone, Copy, PartialEq, Eq, Hash, Structural)]
pub struct SoundModes {
    pub ambient_sound_mode: AmbientSoundMode,
    pub noise_canceling_mode: NoiseCancelingMode,
    pub adaptive_noise_canceling: AdaptiveNoiseCancelingNamedNoiseLevel,
    pub manual_noise_canceling: ManualNoiseCancelingNamed,
    pub transparency_mode: TransparencyMode,
    pub wind_noise: WindNoise,
}

impl SoundModes {
    /// Ambient sound mode; manual strength (high nibble) and adaptive level (low nibble);
    /// transparency mode; noise canceling mode; wind noise; and a byte of unknown use.
    pub open spec fn spec_bytes(self) -> Seq<u8> {
        seq![
            self.ambient_sound_mode.spec_id(),
            (self.manual_noise_canceling.spec_id() * 16 + self.adaptive_noise_canceling.spec_id()) as u8,
            self.transparency_mode.spec_id(),
            self.noise_canceling_mode.spec_byte(),
            self.wind_noise.spec_byte(),
            0xFFu8,
        ]
    }

    pub open spec fn spec_take(s: Seq<u8>) -> Option<SoundModes> {
        if s.len() < 6 {
            None
        } else {
            Some(
                SoundModes {
                    ambient_sound_mode: AmbientSoundMode::spec_from_id(s[0]),
                    manual_noise_canceling: ManualNoiseCancelingNamed::spec_from_id(s[1] / 16),
                    adaptive_noise_canceling: AdaptiveNoiseCancelingNamedNoiseLevel::spec_from_id(
                        s[1] % 16,
                    ),
                    transparency_mode: TransparencyMode::spec_from_id(s[2]),
                    noise_canceling_mode: NoiseCancelingMode::spec_from_byte(s[3]),
                    wind_noise: WindNoise::spec_from_byte(s[4]),
                },
            )
        }
    }

    pub fn bytes(&self) -> (r: [u8; 6])
        ensures
            r@ == self.spec_bytes(),
    {
        let r = [
            self.ambient_sound_mode.id(),
            self.manual_noise_canceling.id() * 16 + self.adaptive_noise_canceling.id(),
            self.transparency_mode.id(),
            self.noise_canceling_mode.byte(),
            self.wind_noise.byte(),
            0xFF,
        ];
        assert(r@ =~= self.spec_bytes());
        r
    }

    pub fn take(s: &[u8]) -> (r: Option<SoundModes>)
        ensures
            r == Self::spec_take(s@),
    {
        if s.len() < 6 {
            return None;
        }
        Some(
            SoundModes {
                ambient_sound_mode: AmbientSoundMode::from_id(s[0]),
                manual_noise_canceling: ManualNoiseCancelingNamed::from_id(s[1] / 16),
                adaptive_noise_canceling: AdaptiveNoiseCancelingNamedNoiseLevel::from_id(s[1] % 16),
                transparency_mode: TransparencyMode::from_id(s[2]),
                noise_canceling_mode: NoiseCancelingMode::from_byte(s[3]),
                wind_noise: WindNoise::take(s[4]),
            },
        )
    }
}

/// Reading back the bytes of sound modes gives the same sound modes.
pub proof fn lemma_a3968_sound_modes_roundtrip(modes: SoundModes)
    ensures
        SoundModes::spec_take(modes.spec_bytes()) == Some(modes),
{
    modes.wind_noise.lemma_byte_roundtrip();
    modes.ambient_sound_mode.lemma_id_roundtrip();
}

/// A volume adjustment from its byte: the byte less 120.
pub open spec fn spec_volume_from_byte(b: u8) -> i16 {
    (b - 120) as i16
}

/// The byte of a volume adjustment from -120 to 135.
pub open spec fn spec_volume_byte(v: i16) -> u8 {
    (v + 120) as u8
}

pub open spec fn spec_volumes(s: Seq<u8>) -> Seq<i16> {
    s.map_values(|b: u8| spec_volume_from_byte(b))
}

pub open spec fn spec_volume_bytes(v: Seq<i16>) -> Seq<u8> {
    v.map_values(|x: i16| spec_volume_byte(x))
}

/// Whether every adjustment has a byte.
pub open spec fn volumes_fit(v: Seq<i16>) -> bool {
    forall|i: int| 0 <= i < v.len() ==> -120 <= #[trigger] v[i] <= 135
}

/// The adjustments of the `n` bytes of `s` from `start` on.
fn volumes(s: &[u8], start: usize, n: usize) -> (r: Vec<i16>)
    requires
        start + n <= s@.len(),
    ensures
        r@ == spec_volumes(s@.subrange(start as int, start + n)),
{
    let len = s.len();
    let mut r: Vec<i16> = Vec::new();
    let mut i: usize = 0;
    while i < n
        invariant
            i <= n,
            len == s@.len(),
            start + n <= s@.len(),
            r@ == spec_volumes(s@.subrange(start as int, start + i)),
        decreases n - i,
    {
        r.push(s[start + i] as i16 - 120);
        i = i + 1;
        assert(r@ =~= spec_volumes(s@.subrange(start as int, start + i)));
    }
    r
}

/// Appends the bytes of `v`.
fn push_volume_bytes(out: &mut Vec<u8>, v: &Vec<i16>)
    requires
        volumes_fit(v@),
    ensures
        final(out)@ == old(out)@ + spec_volume_bytes(v@),
{
    let ghost start = out@;
    let mut i: usize = 0;
    while i < v.len()
        invariant
            i <= v@.len(),
            volumes_fit(v@),
            out@ == start + spec_volume_bytes(v@.subrange(0, i as int)),
        decreases v@.len() - i,
    {
        assert(-120 <= v@[i as int] <= 135);
        out.push((v[i] + 120) as u8);
        i = i + 1;
        assert(out@ =~= start + spec_volume_bytes(v@.subrange(0, i as int)));
    }
    assert(v@.subrange(0, i as int) =~= v@);
}

/// The equalizer as the A3968 stores it: the preset id (little endian), then ten bands of
/// each of two channels.
pub open spec fn spec_take_equalizer(s: Seq<u8>) -> EqualizerConfigurationView {
    EqualizerConfigurationView {
        preset_id: (s[0] + s[1] * 256) as u16,
        channels: seq![spec_volumes(s.subrange(2, 12)), spec_volumes(s.subrange(12, 22))],
    }
}

fn take_equalizer(s: &[u8], start: usize) -> (r: EqualizerConfiguration)
    requires
        start + 22 <= s@.len(),
    ensures
        r@ == spec_take_equalizer(s@.subrange(start as int, start + 22)),
{
    let len = s.len();
    let ghost e = s@.subrange(start as int, start + 22);
    assert(e.subrange(2, 12) =~= s@.subrange(start + 2, start + 12));
    assert(e.subrange(12, 22) =~= s@.subrange(start + 12, start + 22));
    let preset_id: u16 = s[start] as u16 + s[start + 1] as u16 * 256;
    let left = volumes(s, start + 2, 10);
    let right = volumes(s, start + 12, 10);
    let mut volume_adjustments: Vec<VolumeAdjustments> = Vec::new();
    volume_adjustments.push(VolumeAdjustments { adjustments: left });
    volume_adjustments.push(VolumeAdjustments { adjustments: right });
    let r = EqualizerConfiguration { preset_id, volume_adjustments };
    assert(r@.channels =~= spec_take_equalizer(e).channels);
    r
}

/// The hearing test data as the A3968 stores it, with the music genre at the end.
pub struct CustomHearIdView {
    pub is_enabled: bool,
    pub channels: Seq<Seq<i16>>,
    pub time: u32,
    pub hear_id_type: u8,
    pub custom_channels: Seq<Option<Seq<i16>>>,
    pub favorite_music_genre: u16,
}

impl View for CustomHearId {
    type V = CustomHearIdView;

    open spec fn view(&self) -> CustomHearIdView {
        CustomHearIdView {
            is_enabled: self.is_enabled,
            channels: crate::equalizer::spec_channels(self.volume_adjustments@),
            time: self.time,
            hear_id_type: self.hear_id_type,
            custom_channels: crate::equalizer::spec_optional_channels(
                self.custom_volume_adjustments@,
            ),
            favorite_music_genre: self.favorite_music_genre,
        }
    }
}

/// Ten bytes of 255 mark a channel without custom adjustments.
pub open spec fn spec_optional_volumes(s: Seq<u8>) -> Option<Seq<i16>> {
    if s == Seq::new(10, |i: int| 255u8) {
        None
    } else {
        Some(spec_volumes(s))
    }
}

/// Enabled flag; ten bands of each of two channels; the time (little endian); the type; ten
/// custom bands of each channel; the music genre (little endian).
pub open spec fn spec_take_hear_id(s: Seq<u8>) -> CustomHearIdView {
    CustomHearIdView {
        is_enabled: s[0] != 0,
        channels: seq![spec_volumes(s.subrange(1, 11)), spec_volumes(s.subrange(11, 21))],
        time: (s[21] + s[22] * 0x100 + s[23] * 0x10000 + s[24] * 0x1000000) as u32,
        hear_id_type: s[25],
        custom_channels: seq![
            spec_optional_volumes(s.subrange(26, 36)),
            spec_optional_volumes(s.subrange(36, 46)),
        ],
        favorite_music_genre: (s[46] + s[47] * 256) as u16,
    }
}

fn all_255(s: &[u8], start: usize) -> (r: bool)
    requires
        start + 10 <= s@.len(),
    ensures
        r == (s@.subrange(start as int, start + 10) == Seq::new(10, |i: int| 255u8)),
{
    let len = s.len();
    let mut i: usize = 0;
    while i < 10
        invariant
            i <= 10,
            len == s@.len(),
            start + 10 <= s@.len(),
            forall|k: int| start <= k < start + i ==> #[trigger] s@[k] == 255u8,
        decreases 10 - i,
    {
        if s[start + i] != 255 {
            assert(s@.subrange(start as int, start + 10)[i as int] == s@[start + i]);
            return false;
        }
        i = i + 1;
    }
    assert(s@.subrange(start as int, start + 10) =~= Seq::new(10, |i: int| 255u8));
    true
}

fn take_optional_volumes(s: &[u8], start: usize) -> (r: Option<VolumeAdjustments>)
    requires
        start + 10 <= s@.len(),
    ensures
        match spec_optional_volumes(s@.subrange(start as int, start + 10)) {
            Some(v) => r matches Some(a) && a.adjustments@ == v,
            None => r is None,
        },
{
    if all_255(s, start) {
        None
    } else {
        Some(VolumeAdjustments { adjustments: volumes(s, start, 10) })
    }
}

fn take_hear_id(s: &[u8], start: usize) -> (r: CustomHearId)
    requires
        start + 48 <= s@.len(),
    ensures
        r@ == spec_take_hear_id(s@.subrange(start as int, start + 48)),
{
    let len = s.len();
    let ghost h = s@.subrange(start as int, start + 48);
    assert(h.subrange(1, 11) =~= s@.subrange(start + 1, start + 11));
    assert(h.subrange(11, 21) =~= s@.subrange(start + 11, start + 21));
    assert(h.subrange(26, 36) =~= s@.subrange(start + 26, start + 36));
    assert(h.subrange(36, 46) =~= s@.subrange(start + 36, start + 46));
    let mut volume_adjustments: Vec<VolumeAdjustments> = Vec::new();
    volume_adjustments.push(VolumeAdjustments { adjustments: volumes(s, start + 1, 10) });
    volume_adjustments.push(VolumeAdjustments { adjustments: volumes(s, start + 11, 10) });
    let mut custom_volume_adjustments: Vec<Option<VolumeAdjustments>> = Vec::new();
    custom_volume_adjustments.push(take_optional_volumes(s, start + 26));
    custom_volume_adjustments.push(take_optional_volumes(s, start + 36));
    let time: u32 = s[start + 21] as u32 + s[start + 22] as u32 * 0x100 + s[start + 23] as u32
        * 0x10000 + s[start + 24] as u32 * 0x1000000;
    let r = CustomHearId {
        is_enabled: s[start] != 0,
        volume_adjustments,
        time,
        hear_id_type: s[start + 25],
        favorite_music_genre: s[start + 46] as u16 + s[start + 47] as u16 * 256,
        custom_volume_adjustments,
    };
    assert(r@.channels =~= spec_take_hear_id(h).channels);
    assert(r@.custom_channels =~= spec_take_hear_id(h).custom_channels);
    r
}

/// How the A3968's buttons are laid out: single, double and long press of each earbud, left
/// first; each an action byte with a nibble per connection state and no enabled flag.
pub fn button_configuration_settings() -> (r: ButtonConfigurationSettings)
    ensures
        r.is_well_formed(),
        r.order@ == seq![
            Button::LeftSinglePress,
            Button::RightSinglePress,
            Button::LeftDoublePress,
            Button::RightDoublePress,
            Button::LeftLongPress,
            Button::RightLongPress,
        ],
        forall|i: int|
            0 <= i < r.settings@.len() ==> (#[trigger] r.settings@[i]).parse_settings == (
            ButtonParseSettings {
                enabled_flag_kind: EnabledFlagKind::Absent,
                action_kind: ActionKind::TwsLowBits,
            }),
{
    let parse_settings = ButtonParseSettings {
        enabled_flag_kind: EnabledFlagKind::Absent,
        action_kind: ActionKind::TwsLowBits,
    };
    let settings = vec![
        ButtonSettings {
            button_id: 2,
            press_kind: ButtonPressKind::Single,
            parse_settings,
            disable_mode: ButtonDisableMode::IndividualDisable,
            available_actions: crate::button_configuration::common_actions_minimal(),
        },
        ButtonSettings {
            button_id: 0,
            press_kind: ButtonPressKind::Double,
            parse_settings,
            disable_mode: ButtonDisableMode::IndividualDisable,
            available_actions: crate::button_configuration::common_actions(),
        },
        ButtonSettings {
            button_id: 1,
            press_kind: ButtonPressKind::Long,
            parse_settings,
            disable_mode: ButtonDisableMode::IndividualDisable,
            available_actions: crate::button_configuration::common_actions(),
        },
    ];
    let order = vec![
        Button::LeftSinglePress,
        Button::RightSinglePress,
        Button::LeftDoublePress,
        Button::RightDoublePress,
        Button::LeftLongPress,
        Button::RightLongPress,
    ];
    let r = ButtonConfigurationSettings {
        supports_set_all_packet: false,
        use_enabled_flag_to_disable: false,
        order,
        settings,
    };
    proof {
        reveal_with_fuel(crate::button_configuration::find_press_kind, 4);
        reveal_with_fuel(crate::button_configuration::find_other_side, 7);
        assert forall|i: int| 0 <= i < r.order@.len() implies crate::button_configuration::find_press_kind(
            r.settings@,
            (#[trigger] r.order@[i]).spec_press_kind(),
            0,
        ) is Some && crate::button_configuration::find_other_side(r.order@, r.order@[i], 0) is Some by {
            assert(0 <= i < 6);
        }
        assert forall|i: int| 0 <= i < r.settings@.len() implies (
        #[trigger] r.settings@[i]).available_actions@.len() > 0 by {
            assert(crate::button_configuration::spec_action_entries(
                r.settings@[i].available_actions@,
            ).len() > 0);
        }
    }
    assert(r.order@ =~= seq![
        Button::LeftSinglePress,
        Button::RightSinglePress,
        Button::LeftDoublePress,
        Button::RightDoublePress,
        Button::LeftLongPress,
        Button::RightLongPress,
    ]);
    r
}

/// The A3968's parse settings of its six buttons.
pub open spec fn spec_button_parse_settings() -> Seq<ButtonParseSettings> {
    Seq::new(
        6,
        |i: int|
            ButtonParseSettings {
                enabled_flag_kind: EnabledFlagKind::Absent,
                action_kind: ActionKind::TwsLowBits,
            },
    )
}

fn button_parse_settings() -> (r: Vec<ButtonParseSettings>)
    ensures
        r@ == spec_button_parse_settings(),
{
    let p = ButtonParseSettings {
        enabled_flag_kind: EnabledFlagKind::Absent,
        action_kind: ActionKind::TwsLowBits,
    };
    let r = vec![p, p, p, p, p, p];
    assert(r@ =~= spec_button_parse_settings());
    r
}

/// The state update packet of the A3968.
#[derive(Debug, Clone, PartialEq, Eq)]
pub struct A3968StateUpdatePacket {
    pub tws_status: TwsStatus,
    pub dual_battery: DualBattery,
    pub dual_firmware_version: DualFirmwareVersion,
    pub serial_number: SerialNumber,
    pub case_battery_level: CaseBatteryLevel,
    pub equalizer_configuration: EqualizerConfiguration,
    pub hear_id: CustomHearId,
    pub button_configuration: ButtonStatusCollection,
    pub sound_modes: SoundModes,
}

/// Where each part of the state update packet's body starts.
pub const TWS_STATUS_OFFSET: usize = 0;
pub const DUAL_BATTERY_OFFSET: usize = 2;
pub const FIRMWARE_VERSION_OFFSET: usize = 6;
pub const SERIAL_NUMBER_OFFSET: usize = 16;
pub const CASE_BATTERY_OFFSET: usize = 37;
pub const EQUALIZER_OFFSET: usize = 38;
pub const HEAR_ID_OFFSET: usize = 61;
pub const BUTTONS_OFFSET: usize = 110;
pub const SOUND_MODES_OFFSET: usize = 117;
/// The body is at least this long; what follows the sound modes is not read.
pub const MIN_BODY_LEN: usize = 123;

impl A3968StateUpdatePacket {
    pub open spec fn spec_command() -> Command {
        Command([0x01, 0x01])
    }

    pub fn command() -> (r: Command)
        ensures
            r == Self::spec_command(),
    {
        Command([0x01, 0x01])
    }

    /// Whether a body holds a readable state: long enough, with a well formed firmware version
    /// for each earbud.
    pub open spec fn spec_readable(body: Seq<u8>) -> bool {
        &&& body.len() >= MIN_BODY_LEN
        &&& DualFirmwareVersion::spec_take(body.subrange(6, 16)) is Some
    }

    /// Reads the parts at their offsets: TWS status, dual battery, firmware versions, serial
    /// number, five unknown bytes, case battery level, equalizer, an unknown byte, hearing test
    /// data, an unknown byte, the six buttons, an unknown byte, and the sound modes.
    pub fn take(body: &[u8]) -> (r: Option<Self>)
        ensures
            Self::spec_readable(body@) <==> r is Some,
            r matches Some(p) ==> {
                &&& Some(p.tws_status) == TwsStatus::spec_take(body@.subrange(0, 2))
                &&& Some(p.dual_battery) == DualBattery::spec_take(body@.subrange(2, 6))
                &&& Some(p.dual_firmware_version) == DualFirmwareVersion::spec_take(
                    body@.subrange(6, 16),
                )
                &&& p.serial_number.bytes@ == body@.subrange(16, 32)
                &&& p.case_battery_level == CaseBatteryLevel(BatteryLevel(body@[37]))
                &&& p.equalizer_configuration@ == spec_take_equalizer(body@.subrange(38, 60))
                &&& p.hear_id@ == spec_take_hear_id(body@.subrange(61, 109))
                &&& spec_take_statuses(body@.subrange(110, 116), spec_button_parse_settings())
                    == Some((p.button_configuration.statuses@, 6nat))
                &&& Some(p.sound_modes) == SoundModes::spec_take(body@.subrange(117, 123))
            },
    {
        if body.len() < MIN_BODY_LEN {
            return None;
        }
        let tws_status = TwsStatus::take(vstd::slice::slice_subrange(body, 0, 2))?;
        let dual_battery = DualBattery::take(vstd::slice::slice_subrange(body, 2, 6))?;
        let dual_firmware_version = DualFirmwareVersion::take(
            vstd::slice::slice_subrange(body, 6, 16),
        )?;
        let serial_number = SerialNumber::take(vstd::slice::slice_subrange(body, 16, 32))?;
        let case_battery_level = CaseBatteryLevel(BatteryLevel(body[37]));
        let equalizer_configuration = take_equalizer(body, 38);
        let hear_id = take_hear_id(body, 61);
        let parse_settings = button_parse_settings();
        let buttons = vstd::slice::slice_subrange(body, 110, 116);
        let (button_configuration, used) = match ButtonStatusCollection::take(
            buttons,
            &parse_settings,
        ) {
            Some(b) => b,
            None => {
                proof {
                    lemma_six_buttons_readable(buttons@);
                }
                return None;
            },
        };
        proof {
            lemma_six_buttons_readable(buttons@);
        }
        let sound_modes = SoundModes::take(vstd::slice::slice_subrange(body, 117, 123))?;
        Some(
            A3968StateUpdatePacket {
                tws_status,
                dual_battery,
                dual_firmware_version,
                serial_number,
                case_battery_level,
                equalizer_configuration,
                hear_id,
                button_configuration,
                sound_modes,
            },
        )
    }
}

/// Six bytes always hold the A3968's six buttons.
proof fn lemma_six_buttons_readable(s: Seq<u8>)
    requires
        s.len() == 6,
    ensures
        spec_take_statuses(s, spec_button_parse_settings()) matches Some((statuses, used))
            && used == 6 && statuses.len() == 6,
{
    let p = spec_button_parse_settings();
    reveal_with_fuel(spec_take_statuses, 7);
    assert(p.subrange(0, 6) =~= p);
    assert(p.drop_last().drop_last().drop_last().drop_last().drop_last().drop_last() =~= Seq::<
        ButtonParseSettings,
    >::empty());
}

/// The state of an A3968.
#[derive(Debug, Clone, PartialEq, Eq)]
pub struct A3968State {
    pub tws_status: TwsStatus,
    pub dual_battery: DualBattery,
    pub dual_firmware_version: DualFirmwareVersion,
    pub serial_number: SerialNumber,
    pub case_battery_level: CaseBatteryLevel,
    pub sound_modes: SoundModes,
    pub equalizer_configuration: EqualizerConfiguration,
    pub hear_id: CustomHearId,
    pub button_configuration: ButtonStatusCollection,
    pub ambient_sound_mode_cycle: AmbientSoundModeCycleTws,
    pub dual_connections: DualConnections,
    pub touch_tone: bool,
    pub auto_power_off: AutoPowerOff,
    pub age_range: AgeRange,
    pub gender: Gender,
    pub button_reset_pending: ResetButtonConfigurationPending,
}

impl A3968State {
    /// The state from a state update packet and the known host devices. The A3968's state
    /// update packet carries neither whether dual connections are enabled, nor touch tone, auto
    /// power off or the sound mode cycle: these start out off, with every mode of the cycle off
    /// and the first auto power off delay. The age range, gender and pending button reset,
    /// which no packet carries, start out zero and not pending.
    pub fn new(packet: A3968StateUpdatePacket, dual_connections_devices: Vec<DualConnectionsDevice>) -> (r:
        Self)
        ensures
            r.tws_status == packet.tws_status,
            r.dual_battery == packet.dual_battery,
            r.dual_firmware_version == packet.dual_firmware_version,
            r.serial_number == packet.serial_number,
            r.case_battery_level == packet.case_battery_level,
            r.sound_modes == packet.sound_modes,
            r.equalizer_configuration == packet.equalizer_configuration,
            r.hear_id == packet.hear_id,
            r.button_configuration == packet.button_configuration,
            r.dual_connections.devices == dual_connections_devices,
            !r.dual_connections.is_enabled,
            !r.button_reset_pending.0,
            r.age_range == AgeRange(0),
            r.gender == Gender(0),
            !r.touch_tone,
            r.auto_power_off == (AutoPowerOff {
                is_enabled: false,
                duration: AutoPowerOffDurationIndex(0),
            }),
            r.ambient_sound_mode_cycle.tws_enabled == r.ambient_sound_mode_cycle.tws_disabled,
            !r.ambient_sound_mode_cycle.tws_enabled.noise_canceling_mode,
            !r.ambient_sound_mode_cycle.tws_enabled.transparency_mode,
            !r.ambient_sound_mode_cycle.tws_enabled.normal_mode,
    {
        let off = AmbientSoundModeCycle {
            noise_canceling_mode: false,
            transparency_mode: false,
            normal_mode: false,
        };
        A3968State {
            tws_status: packet.tws_status,
            dual_battery: packet.dual_battery,
            dual_firmware_version: packet.dual_firmware_version,
            serial_number: packet.serial_number,
            case_battery_level: packet.case_battery_level,
            sound_modes: packet.sound_modes,
            equalizer_configuration: packet.equalizer_configuration,
            hear_id: packet.hear_id,
            button_configuration: packet.button_configuration,
            ambient_sound_mode_cycle: AmbientSoundModeCycleTws { tws_enabled: off, tws_disabled: off },
            dual_connections: DualConnections { is_enabled: false, devices: dual_connections_devices },
            touch_tone: false,
            auto_power_off: AutoPowerOff {
                is_enabled: false,
                duration: AutoPowerOffDurationIndex(0),
            },
            age_range: AgeRange(0),
            gender: Gender(0),
            button_reset_pending: ResetButtonConfigurationPending(false),
        }
    }

    /// Takes over everything a state update packet carries; the rest stays.
    pub fn update(&mut self, packet: A3968StateUpdatePacket)
        ensures
            final(self).tws_status == packet.tws_status,
            final(self).dual_battery == packet.dual_battery,
            final(self).dual_firmware_version == packet.dual_firmware_version,
            final(self).serial_number == packet.serial_number,
            final(self).case_battery_level == packet.case_battery_level,
            final(self).sound_modes == packet.sound_modes,
            final(self).equalizer_configuration == packet.equalizer_configuration,
            final(self).hear_id == packet.hear_id,
            final(self).button_configuration == packet.button_configuration,
            final(self).ambient_sound_mode_cycle == old(self).ambient_sound_mode_cycle,
            final(self).dual_connections == old(self).dual_connections,
            final(self).touch_tone == old(self).touch_tone,
            final(self).auto_power_off == old(self).auto_power_off,
            final(self).age_range == old(self).age_range,
            final(self).gender == old(self).gender,
            final(self).button_reset_pending == old(self).button_reset_pending,
    {
        self.tws_status = packet.tws_status;
        self.dual_battery = packet.dual_battery;
        self.dual_firmware_version = packet.dual_firmware_version;
        self.serial_number = packet.serial_number;
        self.case_battery_level = packet.case_battery_level;
        self.sound_modes = packet.sound_modes;
        self.equalizer_configuration = packet.equalizer_configuration;
        self.hear_id = packet.hear_id;
        self.button_configuration = packet.button_configuration;
    }
}

/// Applies state update packets to the A3968's state.
pub struct StateUpdatePacketHandler {}

impl StateUpdatePacketHandler {
    /// Reads a state update packet into the state; a body that cannot be read changes nothing.
    pub fn handle_packet(&self, state: &mut A3968State, packet: &Packet) -> (r: Result<(), crate::packet::PacketParseError>)
        ensures
            A3968StateUpdatePacket::spec_readable(packet.body@) <==> r is Ok,
            r is Err ==> *final(state) == *old(state),
            r is Ok ==> {
                let body = packet.body@;
                &&& TwsStatus::spec_take(body.subrange(0, 2)) == Some(final(state).tws_status)
                &&& DualBattery::spec_take(body.subrange(2, 6)) == Some(final(state).dual_battery)
                &&& DualFirmwareVersion::spec_take(body.subrange(6, 16)) == Some(
                    final(state).dual_firmware_version,
                )
                &&& final(state).serial_number.bytes@ == body.subrange(16, 32)
                &&& final(state).case_battery_level == CaseBatteryLevel(BatteryLevel(body[37]))
                &&& final(state).equalizer_configuration@ == spec_take_equalizer(
                    body.subrange(38, 60),
                )
                &&& final(state).hear_id@ == spec_take_hear_id(body.subrange(61, 109))
                &&& spec_take_statuses(body.subrange(110, 116), spec_button_parse_settings())
                    == Some((final(state).button_configuration.statuses@, 6nat))
                &&& SoundModes::spec_take(body.subrange(117, 123)) == Some(final(state).sound_modes)
                &&& final(state).dual_connections == old(state).dual_connections
                &&& final(state).touch_tone == old(state).touch_tone
                &&& final(state).auto_power_off == old(state).auto_power_off
                &&& final(state).ambient_sound_mode_cycle == old(state).ambient_sound_mode_cycle
                &&& final(state).button_reset_pending == old(state).button_reset_pending
                &&& final(state).age_range == old(state).age_range
                &&& final(state).gender == old(state).gender
            },
    {
        match A3968StateUpdatePacket::take(packet.body.as_slice()) {
            Some(p) => {
                state.update(p);
                Ok(())
            },
            None => Err(crate::packet::PacketParseError::InvalidBody),
        }
    }
}

/// The bytes of an equalizer of two channels of ten bands: the inverse of
/// [`spec_take_equalizer`].
pub open spec fn spec_equalizer_bytes(config: EqualizerConfigurationView) -> Seq<u8> {
    seq![(config.preset_id % 256) as u8, (config.preset_id / 256) as u8] + spec_volume_bytes(
        config.channels[0],
    ) + spec_volume_bytes(config.channels[1])
}

/// Whether an equalizer has the A3968's shape and every adjustment has a byte.
pub open spec fn equalizer_fits(config: EqualizerConfigurationView) -> bool {
    &&& config.channels.len() == 2
    &&& config.channels[0].len() == 10 && volumes_fit(config.channels[0])
    &&& config.channels[1].len() == 10 && volumes_fit(config.channels[1])
}

/// The bytes of a channel's custom adjustments; ten bytes of 255 for none.
pub open spec fn spec_optional_volume_bytes(v: Option<Seq<i16>>) -> Seq<u8> {
    match v {
        Some(values) => spec_volume_bytes(values),
        None => Seq::new(10, |i: int| 255u8),
    }
}

/// The bytes of hearing test data: the inverse of [`spec_take_hear_id`].
pub open spec fn spec_hear_id_bytes(h: CustomHearIdView) -> Seq<u8> {
    seq![if h.is_enabled { 1u8 } else { 0u8 }] + spec_volume_bytes(h.channels[0])
        + spec_volume_bytes(h.channels[1]) + seq![
        (h.time % 0x100) as u8,
        ((h.time / 0x100) % 0x100) as u8,
        ((h.time / 0x10000) % 0x100) as u8,
        (h.time / 0x1000000) as u8,
        h.hear_id_type,
    ] + spec_optional_volume_bytes(h.custom_channels[0]) + spec_optional_volume_bytes(
        h.custom_channels[1],
    ) + seq![(h.favorite_music_genre % 256) as u8, (h.favorite_music_genre / 256) as u8]
}

/// Custom adjustments that can be told apart from none: ten that fit, not all 135.
pub open spec fn custom_volumes_fit(v: Option<Seq<i16>>) -> bool {
    match v {
        Some(values) => values.len() == 10 && volumes_fit(values) && values != Seq::new(
            10,
            |i: int| 135i16,
        ),
        None => true,
    }
}

/// Whether hearing test data has the A3968's shape and every value has its bytes.
pub open spec fn hear_id_fits(h: CustomHearIdView) -> bool {
    &&& h.channels.len() == 2
    &&& h.channels[0].len() == 10 && volumes_fit(h.channels[0])
    &&& h.channels[1].len() == 10 && volumes_fit(h.channels[1])
    &&& h.custom_channels.len() == 2
    &&& custom_volumes_fit(h.custom_channels[0])
    &&& custom_volumes_fit(h.custom_channels[1])
}

/// The byte of a button: its action ids, one per nibble.
pub open spec fn spec_button_byte(status: crate::button_configuration::ButtonStatus) -> u8 {
    status.action.spec_byte(ActionKind::TwsLowBits)
}

/// Whether a button status has the A3968's layout: no enabled flag, and two action ids that
/// fit in a nibble each.
pub open spec fn button_fits(status: crate::button_configuration::ButtonStatus) -> bool {
    &&& status.enabled is None
    &&& match status.action {
        crate::button_configuration::ActionStatus::Tws { connected, disconnected } => connected < 16
            && disconnected < 16,
        _ => false,
    }
}

/// Whether six button statuses have the A3968's layout.
pub open spec fn buttons_fit(statuses: Seq<crate::button_configuration::ButtonStatus>) -> bool {
    &&& statuses.len() == 6
    &&& forall|i: int| 0 <= i < 6 ==> button_fits(#[trigger] statuses[i])
}

impl A3968StateUpdatePacket {
    /// The body of a state update: each part at its offset, zeros in the unknown bytes.
    pub open spec fn spec_body(&self) -> Seq<u8> {
        self.tws_status.spec_bytes() + self.dual_battery.spec_bytes()
            + self.dual_firmware_version.spec_bytes() + self.serial_number.bytes@ + Seq::new(
            5,
            |i: int| 0u8,
        ) + seq![self.case_battery_level.0.0] + spec_equalizer_bytes(self.equalizer_configuration@)
            + seq![0u8] + spec_hear_id_bytes(self.hear_id@) + seq![0u8]
            + self.button_configuration.statuses@.map_values(
            |st: crate::button_configuration::ButtonStatus| spec_button_byte(st),
        ) + seq![0u8] + self.sound_modes.spec_bytes()
    }

    /// Whether the body of this packet reads back as this packet.
    pub open spec fn fits(&self) -> bool {
        &&& self.dual_firmware_version.left.is_well_formed()
        &&& self.dual_firmware_version.right.is_well_formed()
        &&& self.serial_number.bytes@.len() == 16
        &&& equalizer_fits(self.equalizer_configuration@)
        &&& hear_id_fits(self.hear_id@)
        &&& buttons_fit(self.button_configuration.statuses@)
    }
}

proof fn lemma_volumes_roundtrip(v: Seq<i16>)
    requires
        volumes_fit(v),
    ensures
        spec_volumes(spec_volume_bytes(v)) == v,
{
    assert forall|i: int| 0 <= i < v.len() implies #[trigger] spec_volumes(spec_volume_bytes(v))[i]
        == v[i] by {
        assert(-120 <= v[i] <= 135);
    }
    assert(spec_volumes(spec_volume_bytes(v)) =~= v);
}

proof fn lemma_equalizer_roundtrip(config: EqualizerConfigurationView)
    requires
        equalizer_fits(config),
    ensures
        spec_take_equalizer(spec_equalizer_bytes(config)) == config,
{
    let b = spec_equalizer_bytes(config);
    assert(b.subrange(2, 12) =~= spec_volume_bytes(config.channels[0]));
    assert(b.subrange(12, 22) =~= spec_volume_bytes(config.channels[1]));
    lemma_volumes_roundtrip(config.channels[0]);
    lemma_volumes_roundtrip(config.channels[1]);
    assert(spec_take_equalizer(b).channels =~= config.channels);
}

proof fn lemma_optional_volumes_roundtrip(v: Option<Seq<i16>>)
    requires
        custom_volumes_fit(v),
    ensures
        spec_optional_volumes(spec_optional_volume_bytes(v)) == v,
{
    match v {
        Some(values) => {
            lemma_volumes_roundtrip(values);
            let b = spec_volume_bytes(values);
            if b == Seq::new(10, |i: int| 255u8) {
                assert forall|i: int| 0 <= i < 10 implies values[i] == 135i16 by {
                    assert(spec_volumes(b)[i] == values[i]);
                    assert(b[i] == 255u8);
                }
                assert(values =~= Seq::new(10, |i: int| 135i16));
            }
        },
        None => {},
    }
}

proof fn lemma_time_roundtrip(t: u32)
    ensures
        ((t % 0x100) as u8 + ((t / 0x100) % 0x100) as u8 * 0x100 + ((t / 0x10000) % 0x100) as u8
            * 0x10000 + (t / 0x1000000) as u8 * 0x1000000) as u32 == t,
{
    assert(((t % 0x100) as u8 + ((t / 0x100) % 0x100) as u8 * 0x100 + ((t / 0x10000) % 0x100) as u8
        * 0x10000 + (t / 0x1000000) as u8 * 0x1000000) as u32 == t) by (bit_vector);
}

proof fn lemma_hear_id_roundtrip(h: CustomHearIdView)
    requires
        hear_id_fits(h),
    ensures
        spec_take_hear_id(spec_hear_id_bytes(h)) == h,
{
    let b = spec_hear_id_bytes(h);
    assert(b.subrange(1, 11) =~= spec_volume_bytes(h.channels[0]));
    assert(b.subrange(11, 21) =~= spec_volume_bytes(h.channels[1]));
    assert(b.subrange(26, 36) =~= spec_optional_volume_bytes(h.custom_channels[0]));
    assert(b.subrange(36, 46) =~= spec_optional_volume_bytes(h.custom_channels[1]));
    lemma_volumes_roundtrip(h.channels[0]);
    lemma_volumes_roundtrip(h.channels[1]);
    lemma_optional_volumes_roundtrip(h.custom_channels[0]);
    lemma_optional_volumes_roundtrip(h.custom_channels[1]);
    lemma_time_roundtrip(h.time);
    let r = spec_take_hear_id(b);
    assert(r.channels =~= h.channels);
    assert(r.custom_channels =~= h.custom_channels);
}

proof fn lemma_buttons_roundtrip(statuses: Seq<crate::button_configuration::ButtonStatus>, k: int)
    requires
        buttons_fit(statuses),
        0 <= k <= 6,
    ensures
        spec_take_statuses(
            statuses.map_values(|st: crate::button_configuration::ButtonStatus| spec_button_byte(st)),
            spec_button_parse_settings().subrange(0, k),
        ) == Some((statuses.subrange(0, k), k as nat)),
    decreases k,
{
    let b = statuses.map_values(|st: crate::button_configuration::ButtonStatus| spec_button_byte(st));
    let p = spec_button_parse_settings().subrange(0, k);
    if k == 0 {
        assert(statuses.subrange(0, 0) =~= Seq::<crate::button_configuration::ButtonStatus>::empty());
    } else {
        lemma_buttons_roundtrip(statuses, k - 1);
        assert(p.drop_last() =~= spec_button_parse_settings().subrange(0, k - 1));
        assert(button_fits(statuses[k - 1]));
        let rest = b.subrange(k - 1, b.len() as int);
        assert(rest[0] == spec_button_byte(statuses[k - 1]));
        assert(crate::button_configuration::ButtonStatus::spec_take(rest, p.last()) == Some(
            statuses[k - 1],
        ));
        assert(statuses.subrange(0, k - 1).push(statuses[k - 1]) =~= statuses.subrange(0, k));
    }
}

/// Reading the body of a state update back gives the same parts, for a packet whose parts all
/// have their bytes: well formed firmware versions, a sixteen byte serial number, an equalizer
/// and hearing test data of the A3968's shape whose values have bytes, and six buttons laid out
/// as the A3968's.
pub proof fn lemma_a3968_state_update_roundtrip(p: A3968StateUpdatePacket)
    requires
        p.fits(),
    ensures
        ({
            let b = p.spec_body();
            &&& A3968StateUpdatePacket::spec_readable(b)
            &&& TwsStatus::spec_take(b.subrange(0, 2)) == Some(p.tws_status)
            &&& DualBattery::spec_take(b.subrange(2, 6)) == Some(p.dual_battery)
            &&& DualFirmwareVersion::spec_take(b.subrange(6, 16)) == Some(p.dual_firmware_version)
            &&& b.subrange(16, 32) == p.serial_number.bytes@
            &&& CaseBatteryLevel(BatteryLevel(b[37])) == p.case_battery_level
            &&& spec_take_equalizer(b.subrange(38, 60)) == p.equalizer_configuration@
            &&& spec_take_hear_id(b.subrange(61, 109)) == p.hear_id@
            &&& spec_take_statuses(b.subrange(110, 116), spec_button_parse_settings()) == Some(
                (p.button_configuration.statuses@, 6nat),
            )
            &&& SoundModes::spec_take(b.subrange(117, 123)) == Some(p.sound_modes)
        }),
{
    let b = p.spec_body();
    let fw = p.dual_firmware_version;
    assert(b.subrange(0, 2) =~= p.tws_status.spec_bytes());
    assert(b.subrange(2, 6) =~= p.dual_battery.spec_bytes());
    assert(b.subrange(6, 16) =~= fw.spec_bytes());
    assert(b.subrange(16, 32) =~= p.serial_number.bytes@);
    assert(b.subrange(38, 60) =~= spec_equalizer_bytes(p.equalizer_configuration@));
    assert(b.subrange(61, 109) =~= spec_hear_id_bytes(p.hear_id@));
    let buttons = p.button_configuration.statuses@.map_values(
        |st: crate::button_configuration::ButtonStatus| spec_button_byte(st),
    );
    assert(b.subrange(110, 116) =~= buttons);
    assert(b.subrange(117, 123) =~= p.sound_modes.spec_bytes());
    crate::structures::lemma_firmware_version_roundtrip(fw.left);
    crate::structures::lemma_firmware_version_roundtrip(fw.right);
    assert(fw.spec_bytes().subrange(0, 5) =~= fw.left.spec_bytes());
    assert(fw.spec_bytes().subrange(5, 10) =~= fw.right.spec_bytes());
    lemma_equalizer_roundtrip(p.equalizer_configuration@);
    lemma_hear_id_roundtrip(p.hear_id@);
    lemma_buttons_roundtrip(p.button_configuration.statuses@, 6);
    assert(spec_button_parse_settings().subrange(0, 6) =~= spec_button_parse_settings());
    assert(p.button_configuration.statuses@.subrange(0, 6) =~= p.button_configuration.statuses@);
    lemma_a3968_sound_modes_roundtrip(p.sound_modes);
}

fn push_bytes(out: &mut Vec<u8>, bytes: &[u8])
    ensures
        final(out)@ == old(out)@ + bytes@,
{
    let ghost start = out@;
    let mut i: usize = 0;
    while i < bytes.len()
        invariant
            i <= bytes@.len(),
            out@ == start + bytes@.subrange(0, i as int),
        decreases bytes@.len() - i,
    {
        out.push(bytes[i]);
        i = i + 1;
        assert(out@ =~= start + bytes@.subrange(0, i as int));
    }
    assert(bytes@.subrange(0, i as int) =~= bytes@);
}

fn push_optional_volume_bytes(out: &mut Vec<u8>, v: &Option<VolumeAdjustments>)
    requires
        match v {
            Some(a) => volumes_fit(a.adjustments@),
            None => true,
        },
    ensures
        final(out)@ == old(out)@ + spec_optional_volume_bytes(
            match v {
                Some(a) => Some(a.adjustments@),
                None => None,
            },
        ),
{
    match v {
        Some(a) => push_volume_bytes(out, &a.adjustments),
        None => {
            let none = [255u8; 10];
            assert(none@ =~= Seq::new(10, |i: int| 255u8));
            push_bytes(out, &none);
        },
    }
}

fn equalizer_bytes(eq: &EqualizerConfiguration) -> (r: Vec<u8>)
    requires
        equalizer_fits(eq@),
    ensures
        r@ == spec_equalizer_bytes(eq@),
{
    let mut out: Vec<u8> = Vec::new();
    out.push((eq.preset_id % 256) as u8);
    out.push((eq.preset_id / 256) as u8);
    assert(eq@.channels[0] == eq.volume_adjustments@[0].adjustments@);
    assert(eq@.channels[1] == eq.volume_adjustments@[1].adjustments@);
    push_volume_bytes(&mut out, &eq.volume_adjustments[0].adjustments);
    push_volume_bytes(&mut out, &eq.volume_adjustments[1].adjustments);
    assert(out@ =~= spec_equalizer_bytes(eq@));
    out
}

fn hear_id_bytes(h: &CustomHearId) -> (r: Vec<u8>)
    requires
        hear_id_fits(h@),
    ensures
        r@ == spec_hear_id_bytes(h@),
{
    let mut out: Vec<u8> = Vec::new();
    assert(h@.channels[0] == h.volume_adjustments@[0].adjustments@);
    assert(h@.channels[1] == h.volume_adjustments@[1].adjustments@);
    out.push(if h.is_enabled { 1u8 } else { 0u8 });
    push_volume_bytes(&mut out, &h.volume_adjustments[0].adjustments);
    push_volume_bytes(&mut out, &h.volume_adjustments[1].adjustments);
    out.push((h.time % 0x100) as u8);
    out.push(((h.time / 0x100) % 0x100) as u8);
    out.push(((h.time / 0x10000) % 0x100) as u8);
    out.push((h.time / 0x1000000) as u8);
    out.push(h.hear_id_type);
    push_optional_volume_bytes(&mut out, &h.custom_volume_adjustments[0]);
    push_optional_volume_bytes(&mut out, &h.custom_volume_adjustments[1]);
    out.push((h.favorite_music_genre % 256) as u8);
    out.push((h.favorite_music_genre / 256) as u8);
    assert(out@ =~= spec_hear_id_bytes(h@));
    out
}

fn button_bytes(statuses: &Vec<crate::button_configuration::ButtonStatus>) -> (r: Vec<u8>)
    ensures
        r@ == statuses@.map_values(
            |st: crate::button_configuration::ButtonStatus| spec_button_byte(st),
        ),
{
    let mut out: Vec<u8> = Vec::new();
    let mut i: usize = 0;
    while i < statuses.len()
        invariant
            i <= statuses@.len(),
            out@ == statuses@.subrange(0, i as int).map_values(
                |st: crate::button_configuration::ButtonStatus| spec_button_byte(st),
            ),
        decreases statuses@.len() - i,
    {
        out.push(statuses[i].action.byte(ActionKind::TwsLowBits));
        i = i + 1;
        assert(out@ =~= statuses@.subrange(0, i as int).map_values(
            |st: crate::button_configuration::ButtonStatus| spec_button_byte(st),
        ));
    }
    assert(statuses@.subrange(0, i as int) =~= statuses@);
    out
}

impl A3968StateUpdatePacket {
    /// The body of this state update, for a packet whose parts all have their bytes.
    pub fn body(&self) -> (r: Vec<u8>)
        requires
            self.fits(),
        ensures
            r@ == self.spec_body(),
    {
        let mut out: Vec<u8> = Vec::new();
        push_bytes(&mut out, &self.tws_status.bytes());
        push_bytes(&mut out, &self.dual_battery.bytes());
        push_bytes(&mut out, &self.dual_firmware_version.left.bytes());
        push_bytes(&mut out, &self.dual_firmware_version.right.bytes());
        push_bytes(&mut out, self.serial_number.bytes.as_slice());
        let zeros = [0u8; 5];
        assert(zeros@ =~= Seq::new(5, |i: int| 0u8));
        push_bytes(&mut out, &zeros);
        out.push(self.case_battery_level.0.0);
        push_bytes(&mut out, equalizer_bytes(&self.equalizer_configuration).as_slice());
        out.push(0);
        push_bytes(&mut out, hear_id_bytes(&self.hear_id).as_slice());
        out.push(0);
        push_bytes(&mut out, button_bytes(&self.button_configuration.statuses).as_slice());
        out.push(0);
        push_bytes(&mut out, &self.sound_modes.bytes());
        assert(out@ =~= self.spec_body());
        out
    }
}

} // verus!
