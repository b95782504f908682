//! Structures shared by several device models, with their byte encodings.

use vstd::prelude::*;

use crate::settings::{Select, Setting, SettingHandlerError, SettingView, Value, ValueError};
use crate::text::str_eq;

verus! {

/// Which of the three ambient sound modes the device is in.
#[derive(Debug, Clone, Copy, PartialEq, Eq, Hash, Structural)]
pub enum AmbientSoundMode {
    NoiseCanceling,
    Transparency,
    Normal,
}

impl AmbientSoundMode {
    pub open spec fn spec_id(self) -> u8 {
        match self {
            AmbientSoundMode::NoiseCanceling => 0,
            AmbientSoundMode::Transparency => 1,
            AmbientSoundMode::Normal => 2,
        }
    }

    /// Unknown ids fall back to the first variant.
    pub open spec fn spec_from_id(id: u8) -> Self {
        if id == 1 {
            AmbientSoundMode::Transparency
        } else if id == 2 {
            AmbientSoundMode::Normal
        } else {
            AmbientSoundMode::NoiseCanceling
        }
    }

    pub fn id(&self) -> (r: u8)
        ensures
            r == self.spec_id(),
    {
        match self {
            AmbientSoundMode::NoiseCanceling => 0,
            AmbientSoundMode::Transparency => 1,
            AmbientSoundMode::Normal => 2,
        }
    }

    pub fn from_id(id: u8) -> (r: Self)
        ensures
            r == Self::spec_from_id(id),
    {
        if id == 1 {
            AmbientSoundMode::Transparency
        } else if id == 2 {
            AmbientSoundMode::Normal
        } else {
            AmbientSoundMode::NoiseCanceling
        }
    }

    /// Reading back the id of a mode gives the mode again.
    pub proof fn lemma_id_roundtrip(self)
        ensures
            Self::spec_from_id(self.spec_id()) == self,
    {
    }
}

/// Transparency flavour used while in transparency mode.
#[derive(Debug, Clone, Copy, PartialEq, Eq, Hash, Structural)]
pub enum TransparencyMode {
    FullyTransparent,
    VocalMode,
}

impl TransparencyMode {
    pub open spec fn spec_id(self) -> u8 {
        match self {
            TransparencyMode::FullyTransparent => 0,
            TransparencyMode::VocalMode => 1,
        }
    }

    pub open spec fn spec_from_id(id: u8) -> Self {
        if id == 1 {
            TransparencyMode::VocalMode
        } else {
            TransparencyMode::FullyTransparent
        }
    }

    pub fn id(&self) -> (r: u8)
        ensures
            r == self.spec_id(),
    {
        match self {
            TransparencyMode::FullyTransparent => 0,
            TransparencyMode::VocalMode => 1,
        }
    }

    pub fn from_id(id: u8) -> (r: Self)
        ensures
            r == Self::spec_from_id(id),
    {
        if id == 1 {
            TransparencyMode::VocalMode
        } else {
            TransparencyMode::FullyTransparent
        }
    }
}

/// The environment that multi-scene noise canceling is tuned for.
#[derive(Debug, Clone, Copy, PartialEq, Eq, Hash, Structural)]
pub enum NoiseCancelingMode {
    Transport,
    Outdoor,
    Indoor,
    Custom,
}

impl NoiseCancelingMode {
    pub open spec fn spec_id(self) -> u8 {
        match self {
            NoiseCancelingMode::Transport => 0,
            NoiseCancelingMode::Outdoor => 1,
            NoiseCancelingMode::Indoor => 2,
            NoiseCancelingMode::Custom => 3,
        }
    }

    pub open spec fn spec_from_id(id: u8) -> Self {
        if id == 1 {
            NoiseCancelingMode::Outdoor
        } else if id == 2 {
            NoiseCancelingMode::Indoor
        } else if id == 3 {
            NoiseCancelingMode::Custom
        } else {
            NoiseCancelingMode::Transport
        }
    }

    pub fn id(&self) -> (r: u8)
        ensures
            r == self.spec_id(),
    {
        match self {
            NoiseCancelingMode::Transport => 0,
            NoiseCancelingMode::Outdoor => 1,
            NoiseCancelingMode::Indoor => 2,
            NoiseCancelingMode::Custom => 3,
        }
    }

    pub fn from_id(id: u8) -> (r: Self)
        ensures
            r == Self::spec_from_id(id),
    {
        if id == 1 {
            NoiseCancelingMode::Outdoor
        } else if id == 2 {
            NoiseCancelingMode::Indoor
        } else if id == 3 {
            NoiseCancelingMode::Custom
        } else {
            NoiseCancelingMode::Transport
        }
    }
}

/// Manual noise canceling strength, one nibble wide on the wire.
#[derive(Debug, Clone, Copy, PartialEq, Eq, Hash, Structural)]
pub struct ManualNoiseCanceling {
    pub level: u8,
}

impl ManualNoiseCanceling {
    pub fn new(level: u8) -> (r: Self)
        ensures
            r.level == level,
    {
        ManualNoiseCanceling { level }
    }
}

/// Adaptive noise canceling level as reported by the device, one nibble wide on the wire.
#[derive(Debug, Clone, Copy, PartialEq, Eq, Hash, Structural)]
pub struct AdaptiveNoiseCanceling {
    pub level: u8,
}

impl AdaptiveNoiseCanceling {
    pub fn new(level: u8) -> (r: Self)
        ensures
            r.level == level,
    {
        AdaptiveNoiseCanceling { level }
    }
}

/// The byte that carries the manual level in its high nibble and the adaptive level in its low
/// nibble. Levels wider than a nibble are cut to their low four bits, as a `u8` shift would.
pub open spec fn spec_manual_adaptive_byte(manual: u8, adaptive: u8) -> u8 {
    ((manual % 16) * 16 + adaptive % 16) as u8
}

pub fn manual_adaptive_noise_canceling_byte(
    manual: ManualNoiseCanceling,
    adaptive: AdaptiveNoiseCanceling,
) -> (r: u8)
    ensures
        r == spec_manual_adaptive_byte(manual.level, adaptive.level),
{
    (manual.level % 16) * 16 + adaptive.level % 16
}

/// Splits the combined byte back into (manual, adaptive).
pub open spec fn spec_take_manual_adaptive(byte: u8) -> (ManualNoiseCanceling, AdaptiveNoiseCanceling) {
    (ManualNoiseCanceling { level: byte / 16 }, AdaptiveNoiseCanceling { level: byte % 16 })
}

pub fn take_manual_adaptive_noise_canceling(byte: u8) -> (r: (
    ManualNoiseCanceling,
    AdaptiveNoiseCanceling,
))
    ensures
        r == spec_take_manual_adaptive(byte),
{
    (ManualNoiseCanceling { level: byte / 16 }, AdaptiveNoiseCanceling { level: byte % 16 })
}

/// Splitting the combined byte gives back levels that fit in a nibble.
pub proof fn lemma_manual_adaptive_roundtrip(manual: u8, adaptive: u8)
    requires
        manual < 16,
        adaptive < 16,
    ensures
        spec_take_manual_adaptive(spec_manual_adaptive_byte(manual, adaptive)) == (
            ManualNoiseCanceling { level: manual },
            AdaptiveNoiseCanceling { level: adaptive },
        ),
{
}

/// Wind noise suppression switch and the device's wind detection flag.
#[derive(Debug, Clone, Copy, PartialEq, Eq, Hash, Structural)]
pub struct WindNoise {
    pub is_suppression_enabled: bool,
    pub is_detected: bool,
}

impl WindNoise {
    /// Bit 0 is suppression, bit 1 is detection.
    pub open spec fn spec_byte(self) -> u8 {
        ((if self.is_suppression_enabled { 1u8 } else { 0u8 }) + (if self.is_detected {
            2u8
        } else {
            0u8
        })) as u8
    }

    pub open spec fn spec_from_byte(byte: u8) -> Self {
        WindNoise { is_suppression_enabled: byte % 2 == 1, is_detected: (byte / 2) % 2 == 1 }
    }

    pub fn byte(&self) -> (r: u8)
        ensures
            r == self.spec_byte(),
    {
        (if self.is_suppression_enabled {
            1u8
        } else {
            0u8
        }) + (if self.is_detected {
            2u8
        } else {
            0u8
        })
    }

    pub fn take(byte: u8) -> (r: Self)
        ensures
            r == Self::spec_from_byte(byte),
    {
        WindNoise { is_suppression_enabled: byte % 2 == 1, is_detected: (byte / 2) % 2 == 1 }
    }

    /// Reading back the byte of the wind noise flags gives the flags again.
    pub proof fn lemma_byte_roundtrip(self)
        ensures
            Self::spec_from_byte(self.spec_byte()) == self,
    {
    }
}

/// What a button press does.
#[derive(Debug, Clone, Copy, PartialEq, Eq, Hash, Structural)]
pub enum ButtonAction {
    VolumeUp,
    VolumeDown,
    PreviousSong,
    NextSong,
    AmbientSoundMode,
    VoiceAssistant,
    PlayPause,
    GameMode,
}

impl ButtonAction {
    pub open spec fn spec_id(self) -> u8 {
        match self {
            ButtonAction::VolumeUp => 0,
            ButtonAction::VolumeDown => 1,
            ButtonAction::PreviousSong => 2,
            ButtonAction::NextSong => 3,
            ButtonAction::AmbientSoundMode => 4,
            ButtonAction::VoiceAssistant => 5,
            ButtonAction::PlayPause => 6,
            ButtonAction::GameMode => 9,
        }
    }

    /// The action with id `id`, if there is one.
    pub open spec fn spec_from_id(id: u8) -> Option<Self> {
        if id == 0 {
            Some(ButtonAction::VolumeUp)
        } else if id == 1 {
            Some(ButtonAction::VolumeDown)
        } else if id == 2 {
            Some(ButtonAction::PreviousSong)
        } else if id == 3 {
            Some(ButtonAction::NextSong)
        } else if id == 4 {
            Some(ButtonAction::AmbientSoundMode)
        } else if id == 5 {
            Some(ButtonAction::VoiceAssistant)
        } else if id == 6 {
            Some(ButtonAction::PlayPause)
        } else if id == 9 {
            Some(ButtonAction::GameMode)
        } else {
            None
        }
    }

    pub open spec fn spec_name(self) -> Seq<char> {
        match self {
            ButtonAction::VolumeUp => "VolumeUp"@,
            ButtonAction::VolumeDown => "VolumeDown"@,
            ButtonAction::PreviousSong => "PreviousSong"@,
            ButtonAction::NextSong => "NextSong"@,
            ButtonAction::AmbientSoundMode => "AmbientSoundMode"@,
            ButtonAction::VoiceAssistant => "VoiceAssistant"@,
            ButtonAction::PlayPause => "PlayPause"@,
            ButtonAction::GameMode => "GameMode"@,
        }
    }

    /// The names of all actions, in declaration order.
    pub open spec fn spec_all_names() -> Seq<Seq<char>> {
        seq![
            "VolumeUp"@,
            "VolumeDown"@,
            "PreviousSong"@,
            "NextSong"@,
            "AmbientSoundMode"@,
            "VoiceAssistant"@,
            "PlayPause"@,
            "GameMode"@,
        ]
    }

    /// The action named `name`, if there is one.
    pub open spec fn spec_from_name(name: Seq<char>) -> Option<Self> {
        if name == "VolumeUp"@ {
            Some(ButtonAction::VolumeUp)
        } else if name == "VolumeDown"@ {
            Some(ButtonAction::VolumeDown)
        } else if name == "PreviousSong"@ {
            Some(ButtonAction::PreviousSong)
        } else if name == "NextSong"@ {
            Some(ButtonAction::NextSong)
        } else if name == "AmbientSoundMode"@ {
            Some(ButtonAction::AmbientSoundMode)
        } else if name == "VoiceAssistant"@ {
            Some(ButtonAction::VoiceAssistant)
        } else if name == "PlayPause"@ {
            Some(ButtonAction::PlayPause)
        } else if name == "GameMode"@ {
            Some(ButtonAction::GameMode)
        } else {
            None
        }
    }

    pub fn id(&self) -> (r: u8)
        ensures
            r == self.spec_id(),
    {
        match self {
            ButtonAction::VolumeUp => 0,
            ButtonAction::VolumeDown => 1,
            ButtonAction::PreviousSong => 2,
            ButtonAction::NextSong => 3,
            ButtonAction::AmbientSoundMode => 4,
            ButtonAction::VoiceAssistant => 5,
            ButtonAction::PlayPause => 6,
            ButtonAction::GameMode => 9,
        }
    }

    pub fn from_id(id: u8) -> (r: Option<Self>)
        ensures
            r == Self::spec_from_id(id),
    {
        if id == 0 {
            Some(ButtonAction::VolumeUp)
        } else if id == 1 {
            Some(ButtonAction::VolumeDown)
        } else if id == 2 {
            Some(ButtonAction::PreviousSong)
        } else if id == 3 {
            Some(ButtonAction::NextSong)
        } else if id == 4 {
            Some(ButtonAction::AmbientSoundMode)
        } else if id == 5 {
            Some(ButtonAction::VoiceAssistant)
        } else if id == 6 {
            Some(ButtonAction::PlayPause)
        } else if id == 9 {
            Some(ButtonAction::GameMode)
        } else {
            None
        }
    }

    pub fn name(&self) -> (r: &'static str)
        ensures
            r@ == self.spec_name(),
    {
        match self {
            ButtonAction::VolumeUp => "VolumeUp",
            ButtonAction::VolumeDown => "VolumeDown",
            ButtonAction::PreviousSong => "PreviousSong",
            ButtonAction::NextSong => "NextSong",
            ButtonAction::AmbientSoundMode => "AmbientSoundMode",
            ButtonAction::VoiceAssistant => "VoiceAssistant",
            ButtonAction::PlayPause => "PlayPause",
            ButtonAction::GameMode => "GameMode",
        }
    }

    pub fn all_names() -> (r: Vec<String>)
        ensures
            r.deep_view() == Self::spec_all_names(),
    {
        let mut r: Vec<String> = Vec::new();
        r.push(crate::text::owned("VolumeUp"));
        r.push(crate::text::owned("VolumeDown"));
        r.push(crate::text::owned("PreviousSong"));
        r.push(crate::text::owned("NextSong"));
        r.push(crate::text::owned("AmbientSoundMode"));
        r.push(crate::text::owned("VoiceAssistant"));
        r.push(crate::text::owned("PlayPause"));
        r.push(crate::text::owned("GameMode"));
        assert(r.deep_view() =~= Self::spec_all_names());
        r
    }

    pub fn from_name(name: &str) -> (r: Option<Self>)
        ensures
            r == Self::spec_from_name(name@),
    {
        if str_eq(name, "VolumeUp") {
            Some(ButtonAction::VolumeUp)
        } else if str_eq(name, "VolumeDown") {
            Some(ButtonAction::VolumeDown)
        } else if str_eq(name, "PreviousSong") {
            Some(ButtonAction::PreviousSong)
        } else if str_eq(name, "NextSong") {
            Some(ButtonAction::NextSong)
        } else if str_eq(name, "AmbientSoundMode") {
            Some(ButtonAction::AmbientSoundMode)
        } else if str_eq(name, "VoiceAssistant") {
            Some(ButtonAction::VoiceAssistant)
        } else if str_eq(name, "PlayPause") {
            Some(ButtonAction::PlayPause)
        } else if str_eq(name, "GameMode") {
            Some(ButtonAction::GameMode)
        } else {
            None
        }
    }

    /// Every action is found again by its id and by its name.
    pub proof fn lemma_id_and_name_roundtrip(self)
        ensures
            Self::spec_from_id(self.spec_id()) == Some(self),
            Self::spec_from_name(self.spec_name()) == Some(self),
            Self::spec_all_names().contains(self.spec_name()),
    {
        reveal_strlit("VolumeUp");
        reveal_strlit("VolumeDown");
        reveal_strlit("PreviousSong");
        reveal_strlit("NextSong");
        reveal_strlit("AmbientSoundMode");
        reveal_strlit("VoiceAssistant");
        reveal_strlit("PlayPause");
        reveal_strlit("GameMode");
        assert("NextSong"@[0] != "VolumeUp"@[0]);
        assert("GameMode"@[0] != "VolumeUp"@[0]);
        assert("GameMode"@[0] != "NextSong"@[0]);
        let names = Self::spec_all_names();
        match self {
            ButtonAction::VolumeUp => assert(names[0] == self.spec_name()),
            ButtonAction::VolumeDown => assert(names[1] == self.spec_name()),
            ButtonAction::PreviousSong => assert(names[2] == self.spec_name()),
            ButtonAction::NextSong => assert(names[3] == self.spec_name()),
            ButtonAction::AmbientSoundMode => assert(names[4] == self.spec_name()),
            ButtonAction::VoiceAssistant => assert(names[5] == self.spec_name()),
            ButtonAction::PlayPause => assert(names[6] == self.spec_name()),
            ButtonAction::GameMode => assert(names[7] == self.spec_name()),
        }
    }
}

/// Whether both earbuds are connected to each other, and which one the host talks to.
#[derive(Debug, Clone, Copy, PartialEq, Eq, Hash, Structural)]
pub struct TwsStatus {
    pub host_device: HostDevice,
    pub is_connected: bool,
}

#[derive(Debug, Clone, Copy, PartialEq, Eq, Hash, Structural)]
pub enum HostDevice {
    Left,
    Right,
}

impl TwsStatus {
    pub open spec fn spec_bytes(self) -> Seq<u8> {
        seq![
            if self.host_device == HostDevice::Left { 0u8 } else { 1u8 },
            if self.is_connected { 1u8 } else { 0u8 },
        ]
    }

    /// Reads the two bytes: host (0 left, anything else right) and connected (non-zero).
    pub open spec fn spec_take(s: Seq<u8>) -> Option<TwsStatus> {
        if s.len() < 2 {
            None
        } else {
            Some(
                TwsStatus {
                    host_device: if s[0] == 0 { HostDevice::Left } else { HostDevice::Right },
                    is_connected: s[1] != 0,
                },
            )
        }
    }

    pub fn bytes(&self) -> (r: [u8; 2])
        ensures
            r@ == self.spec_bytes(),
    {
        let r = [
            if self.host_device == HostDevice::Left { 0u8 } else { 1u8 },
            if self.is_connected { 1u8 } else { 0u8 },
        ];
        assert(r@ =~= self.spec_bytes());
        r
    }

    pub fn take(s: &[u8]) -> (r: Option<TwsStatus>)
        ensures
            r == Self::spec_take(s@),
    {
        if s.len() < 2 {
            None
        } else {
            Some(
                TwsStatus {
                    host_device: if s[0] == 0 { HostDevice::Left } else { HostDevice::Right },
                    is_connected: s[1] != 0,
                },
            )
        }
    }
}

impl ButtonAction {
    pub open spec fn spec_optional_name(action: Option<ButtonAction>) -> Option<Seq<char>> {
        match action {
            Some(a) => Some(a.spec_name()),
            None => None,
        }
    }

    /// The optional action named by an optional string value: `None` for a missing value,
    /// an error for a name that is no action's.
    pub open spec fn spec_from_value(value: Value) -> Result<Option<ButtonAction>, ()> {
        match value {
            Value::String(s) => match Self::spec_from_name(s@) {
                Some(a) => Ok(Some(a)),
                None => Err(()),
            },
            Value::OptionalString(Some(s)) => match Self::spec_from_name(s@) {
                Some(a) => Ok(Some(a)),
                None => Err(()),
            },
            Value::OptionalString(None) => Ok(None),
            _ => Err(()),
        }
    }

    pub fn try_from_value(value: &Value) -> (r: Result<Option<ButtonAction>, SettingHandlerError>)
        ensures
            match Self::spec_from_value(*value) {
                Ok(a) => r == Ok::<Option<ButtonAction>, SettingHandlerError>(a),
                Err(_) => r is Err,
            },
    {
        match value.try_as_optional_str()? {
            Some(name) => match ButtonAction::from_name(name) {
                Some(action) => Ok(Some(action)),
                None => Err(
                    SettingHandlerError::ValueError(
                        ValueError::InvalidOption { name: crate::text::owned(name) },
                    ),
                ),
            },
            None => Ok(None),
        }
    }

    /// The optional select showing all actions with `action` chosen.
    pub fn optional_select(action: Option<ButtonAction>) -> (r: Setting)
        ensures
            r@ == (SettingView::OptionalSelect {
                options: Self::spec_all_names(),
                value: Self::spec_optional_name(action),
            }),
    {
        let value = match action {
            Some(a) => Some(crate::text::owned(a.name())),
            None => None,
        };
        Setting::OptionalSelect { setting: Select { options: Self::all_names() }, value }
    }
}

/// A battery level in the device's own steps.
#[derive(Debug, Clone, Copy, PartialEq, Eq, Hash, Structural)]
pub struct BatteryLevel(pub u8);

#[derive(Debug, Clone, Copy, PartialEq, Eq, Hash, Structural)]
pub enum IsBatteryCharging {
    No,
    Yes,
}

impl IsBatteryCharging {
    pub open spec fn spec_is_charging(self) -> bool {
        self == IsBatteryCharging::Yes
    }

    pub open spec fn spec_from_byte(byte: u8) -> Self {
        if byte == 0 {
            IsBatteryCharging::No
        } else {
            IsBatteryCharging::Yes
        }
    }

    pub fn from_byte(byte: u8) -> (r: Self)
        ensures
            r == Self::spec_from_byte(byte),
    {
        if byte == 0 {
            IsBatteryCharging::No
        } else {
            IsBatteryCharging::Yes
        }
    }

    pub fn is_charging(&self) -> (r: bool)
        ensures
            r == self.spec_is_charging(),
    {
        match self {
            IsBatteryCharging::No => false,
            IsBatteryCharging::Yes => true,
        }
    }

    /// How the flag displays itself.
    pub open spec fn spec_text(self) -> Seq<char> {
        match self {
            IsBatteryCharging::No => "No"@,
            IsBatteryCharging::Yes => "Yes"@,
        }
    }

    pub fn text(&self) -> (r: String)
        ensures
            r@ == self.spec_text(),
    {
        match self {
            IsBatteryCharging::No => crate::text::owned("No"),
            IsBatteryCharging::Yes => crate::text::owned("Yes"),
        }
    }
}

/// Level and charging state of one battery.
#[derive(Debug, Clone, Copy, PartialEq, Eq, Hash, Structural)]
pub struct SingleBattery {
    pub is_charging: IsBatteryCharging,
    pub level: BatteryLevel,
}

/// Both earbuds' batteries.
#[derive(Debug, Clone, Copy, PartialEq, Eq, Hash, Structural)]
pub struct DualBattery {
    pub left: SingleBattery,
    pub right: SingleBattery,
}

impl DualBattery {
    /// Left level, right level, left charging, right charging.
    pub open spec fn spec_bytes(self) -> Seq<u8> {
        seq![
            self.left.level.0,
            self.right.level.0,
            if self.left.is_charging.spec_is_charging() { 1u8 } else { 0u8 },
            if self.right.is_charging.spec_is_charging() { 1u8 } else { 0u8 },
        ]
    }

    pub open spec fn spec_take(s: Seq<u8>) -> Option<DualBattery> {
        if s.len() < 4 {
            None
        } else {
            Some(
                DualBattery {
                    left: SingleBattery {
                        level: BatteryLevel(s[0]),
                        is_charging: IsBatteryCharging::spec_from_byte(s[2]),
                    },
                    right: SingleBattery {
                        level: BatteryLevel(s[1]),
                        is_charging: IsBatteryCharging::spec_from_byte(s[3]),
                    },
                },
            )
        }
    }

    pub fn bytes(&self) -> (r: [u8; 4])
        ensures
            r@ == self.spec_bytes(),
    {
        let r = [
            self.left.level.0,
            self.right.level.0,
            if self.left.is_charging.is_charging() { 1u8 } else { 0u8 },
            if self.right.is_charging.is_charging() { 1u8 } else { 0u8 },
        ];
        assert(r@ =~= self.spec_bytes());
        r
    }

    pub fn take(s: &[u8]) -> (r: Option<DualBattery>)
        ensures
            r == Self::spec_take(s@),
    {
        if s.len() < 4 {
            None
        } else {
            Some(
                DualBattery {
                    left: SingleBattery {
                        level: BatteryLevel(s[0]),
                        is_charging: IsBatteryCharging::from_byte(s[2]),
                    },
                    right: SingleBattery {
                        level: BatteryLevel(s[1]),
                        is_charging: IsBatteryCharging::from_byte(s[3]),
                    },
                },
            )
        }
    }
}

/// Battery level of the charging case.
#[derive(Debug, Clone, Copy, PartialEq, Eq, Hash, Structural)]
pub struct CaseBatteryLevel(pub BatteryLevel);

/// A firmware version such as "01.65": two two-digit decimal numbers around a dot.
#[derive(Debug, Clone, Copy, PartialEq, Eq, Hash, Structural)]
pub struct FirmwareVersion {
    pub major: u8,
    pub minor: u8,
}

pub open spec fn is_digit(b: u8) -> bool {
    48 <= b <= 57
}

pub open spec fn two_digits(b: Seq<u8>) -> u8 {
    ((b[0] - 48) * 10 + (b[1] - 48)) as u8
}

impl FirmwareVersion {
    /// Whether both numbers fit in two decimal digits.
    pub open spec fn is_well_formed(self) -> bool {
        self.major < 100 && self.minor < 100
    }

    pub open spec fn spec_bytes(self) -> Seq<u8> {
        seq![
            (48 + self.major / 10) as u8,
            (48 + self.major % 10) as u8,
            46u8,
            (48 + self.minor / 10) as u8,
            (48 + self.minor % 10) as u8,
        ]
    }

    pub open spec fn spec_take(s: Seq<u8>) -> Option<FirmwareVersion> {
        if s.len() < 5 {
            None
        } else if is_digit(s[0]) && is_digit(s[1]) && s[2] == 46 && is_digit(s[3]) && is_digit(
            s[4],
        ) {
            Some(
                FirmwareVersion {
                    major: two_digits(s.subrange(0, 2)),
                    minor: two_digits(s.subrange(3, 5)),
                },
            )
        } else {
            None
        }
    }

    pub fn bytes(&self) -> (r: [u8; 5])
        requires
            self.is_well_formed(),
        ensures
            r@ == self.spec_bytes(),
    {
        let r = [
            48 + self.major / 10,
            48 + self.major % 10,
            46u8,
            48 + self.minor / 10,
            48 + self.minor % 10,
        ];
        assert(r@ =~= self.spec_bytes());
        r
    }

    pub fn take(s: &[u8]) -> (r: Option<FirmwareVersion>)
        ensures
            r == Self::spec_take(s@),
    {
        if s.len() < 5 {
            return None;
        }
        let d = |b: u8| -> (r: bool)
            ensures
                r == is_digit(b),
            { 48 <= b && b <= 57 };
        if d(s[0]) && d(s[1]) && s[2] == 46 && d(s[3]) && d(s[4]) {
            Some(
                FirmwareVersion {
                    major: (s[0] - 48) * 10 + (s[1] - 48),
                    minor: (s[3] - 48) * 10 + (s[4] - 48),
                },
            )
        } else {
            None
        }
    }

    /// The version as text, the same characters as on the wire.
    pub open spec fn spec_text(self) -> Seq<char> {
        self.spec_bytes().map_values(|b: u8| b as char)
    }

    pub fn text(&self) -> (r: String)
        requires
            self.is_well_formed(),
        ensures
            r@ == self.spec_text(),
    {
        let b = self.bytes();
        let mut s = String::new();
        let mut i: usize = 0;
        while i < 5
            invariant
                i <= 5,
                b@ == self.spec_bytes(),
                s@ == self.spec_text().subrange(0, i as int),
            decreases 5 - i,
        {
            crate::text::push_char(&mut s, b[i] as char);
            i = i + 1;
            assert(s@ =~= self.spec_text().subrange(0, i as int));
        }
        assert(s@ =~= self.spec_text());
        s
    }
}

/// Reading back the bytes of a well formed firmware version gives the version again.
pub proof fn lemma_firmware_version_roundtrip(v: FirmwareVersion)
    requires
        v.is_well_formed(),
    ensures
        FirmwareVersion::spec_take(v.spec_bytes()) == Some(v),
{
    let s = v.spec_bytes();
    assert(s.subrange(0, 2) =~= seq![s[0], s[1]]);
    assert(s.subrange(3, 5) =~= seq![s[3], s[4]]);
}

/// Firmware versions of both earbuds.
#[derive(Debug, Clone, Copy, PartialEq, Eq, Hash, Structural)]
pub struct DualFirmwareVersion {
    pub left: FirmwareVersion,
    pub right: FirmwareVersion,
}

impl DualFirmwareVersion {
    pub open spec fn spec_take(s: Seq<u8>) -> Option<DualFirmwareVersion> {
        if s.len() < 10 {
            None
        } else {
            match (
                FirmwareVersion::spec_take(s.subrange(0, 5)),
                FirmwareVersion::spec_take(s.subrange(5, 10)),
            ) {
                (Some(left), Some(right)) => Some(DualFirmwareVersion { left, right }),
                _ => None,
            }
        }
    }

    pub open spec fn spec_bytes(self) -> Seq<u8> {
        self.left.spec_bytes() + self.right.spec_bytes()
    }

    pub fn take(s: &[u8]) -> (r: Option<DualFirmwareVersion>)
        ensures
            r == Self::spec_take(s@),
    {
        if s.len() < 10 {
            return None;
        }
        let l = [s[0], s[1], s[2], s[3], s[4]];
        let r = [s[5], s[6], s[7], s[8], s[9]];
        assert(l@ =~= s@.subrange(0, 5));
        assert(r@ =~= s@.subrange(5, 10));
        match (FirmwareVersion::take(&l), FirmwareVersion::take(&r)) {
            (Some(left), Some(right)) => Some(DualFirmwareVersion { left, right }),
            _ => None,
        }
    }
}

/// The device's serial number: sixteen ASCII characters.
#[derive(Debug, Clone, PartialEq, Eq)]
pub struct SerialNumber {
    pub bytes: Vec<u8>,
}

impl SerialNumber {
    pub open spec fn spec_text(&self) -> Seq<char> {
        self.bytes@.map_values(|b: u8| b as char)
    }

    pub fn take(s: &[u8]) -> (r: Option<SerialNumber>)
        ensures
            s@.len() < 16 ==> r is None,
            s@.len() >= 16 ==> (r matches Some(n) && n.bytes@ == s@.subrange(0, 16)),
    {
        if s.len() < 16 {
            return None;
        }
        let mut bytes: Vec<u8> = Vec::new();
        let mut i: usize = 0;
        while i < 16
            invariant
                i <= 16,
                16 <= s@.len(),
                bytes@ == s@.subrange(0, i as int),
            decreases 16 - i,
        {
            bytes.push(s[i]);
            i = i + 1;
            assert(bytes@ =~= s@.subrange(0, i as int));
        }
        Some(SerialNumber { bytes })
    }

    pub fn text(&self) -> (r: String)
        ensures
            r@ == self.spec_text(),
    {
        let mut s = String::new();
        let mut i: usize = 0;
        while i < self.bytes.len()
            invariant
                i <= self.bytes@.len(),
                s@ == self.spec_text().subrange(0, i as int),
            decreases self.bytes@.len() - i,
        {
            crate::text::push_char(&mut s, self.bytes[i] as char);
            i = i + 1;
            assert(s@ =~= self.spec_text().subrange(0, i as int));
        }
        assert(s@ =~= self.spec_text());
        s
    }
}

#[derive(Debug, Clone, Copy, PartialEq, Eq, Hash, Structural)]
pub struct GamingMode {
    pub is_enabled: bool,
}

/// How often the device re-measures volume for the high volume limit.
#[derive(Debug, Clone, Copy, PartialEq, Eq, Hash, Structural)]
pub enum LimitHighVolumeRefreshRate {
    RealTime,
    TenSeconds,
    OneMinute,
}

impl LimitHighVolumeRefreshRate {
    pub open spec fn spec_name(self) -> Seq<char> {
        match self {
            LimitHighVolumeRefreshRate::RealTime => "RealTime"@,
            LimitHighVolumeRefreshRate::TenSeconds => "TenSeconds"@,
            LimitHighVolumeRefreshRate::OneMinute => "OneMinute"@,
        }
    }

    pub open spec fn spec_all_names() -> Seq<Seq<char>> {
        seq!["RealTime"@, "TenSeconds"@, "OneMinute"@]
    }

    pub open spec fn spec_from_name(name: Seq<char>) -> Option<Self> {
        if name == "RealTime"@ {
            Some(LimitHighVolumeRefreshRate::RealTime)
        } else if name == "TenSeconds"@ {
            Some(LimitHighVolumeRefreshRate::TenSeconds)
        } else if name == "OneMinute"@ {
            Some(LimitHighVolumeRefreshRate::OneMinute)
        } else {
            None
        }
    }

    pub fn name(&self) -> (r: &'static str)
        ensures
            r@ == self.spec_name(),
    {
        match self {
            LimitHighVolumeRefreshRate::RealTime => "RealTime",
            LimitHighVolumeRefreshRate::TenSeconds => "TenSeconds",
            LimitHighVolumeRefreshRate::OneMinute => "OneMinute",
        }
    }

    pub fn all_names() -> (r: Vec<String>)
        ensures
            r.deep_view() == Self::spec_all_names(),
    {
        let mut r: Vec<String> = Vec::new();
        r.push(crate::text::owned("RealTime"));
        r.push(crate::text::owned("TenSeconds"));
        r.push(crate::text::owned("OneMinute"));
        assert(r.deep_view() =~= Self::spec_all_names());
        r
    }

    pub fn from_name(name: &str) -> (r: Option<Self>)
        ensures
            r == Self::spec_from_name(name@),
    {
        if str_eq(name, "RealTime") {
            Some(LimitHighVolumeRefreshRate::RealTime)
        } else if str_eq(name, "TenSeconds") {
            Some(LimitHighVolumeRefreshRate::TenSeconds)
        } else if str_eq(name, "OneMinute") {
            Some(LimitHighVolumeRefreshRate::OneMinute)
        } else {
            None
        }
    }

    /// Every refresh rate is found again by its name.
    pub proof fn lemma_name_roundtrip(self)
        ensures
            Self::spec_from_name(self.spec_name()) == Some(self),
    {
        reveal_strlit("RealTime");
        reveal_strlit("TenSeconds");
        reveal_strlit("OneMinute");
        assert("TenSeconds"@.len() != "RealTime"@.len());
        assert("OneMinute"@.len() != "RealTime"@.len());
        assert("OneMinute"@.len() != "TenSeconds"@.len());
    }
}

/// Limits loud playback to a decibel level.
#[derive(Debug, Clone, Copy, PartialEq, Eq, Hash, Structural)]
pub struct LimitHighVolume {
    pub enabled: bool,
    pub db_limit: u8,
    pub refresh_rate: LimitHighVolumeRefreshRate,
}

/// Index of the auto power off delay in the device's list of delays.
#[derive(Debug, Clone, Copy, PartialEq, Eq, Hash, Structural)]
pub struct AutoPowerOffDurationIndex(pub u8);

#[derive(Debug, Clone, Copy, PartialEq, Eq, Hash, Structural)]
pub struct AutoPowerOff {
    pub is_enabled: bool,
    pub duration: AutoPowerOffDurationIndex,
}

/// Which ambient sound modes a button press cycles through.
#[derive(Debug, Clone, Copy, PartialEq, Eq, Hash, Structural)]
pub struct AmbientSoundModeCycle {
    pub noise_canceling_mode: bool,
    pub transparency_mode: bool,
    pub normal_mode: bool,
}

/// Separate cycles for when the earbuds are and are not connected to each other.
#[derive(Debug, Clone, Copy, PartialEq, Eq, Hash, Structural)]
pub struct AmbientSoundModeCycleTws {
    pub tws_enabled: AmbientSoundModeCycle,
    pub tws_disabled: AmbientSoundModeCycle,
}

/// The combined noise canceling byte carries the manual level in its high nibble and the
/// adaptive level in its low nibble.
pub proof fn lemma_manual_level_is_high_nibble(manual: u8, adaptive: u8)
    requires
        manual < 16,
        adaptive < 16,
    ensures
        spec_manual_adaptive_byte(manual, adaptive) as int == manual as int * 16 + adaptive as int,
        spec_manual_adaptive_byte(manual, adaptive) >> 4u8 == manual,
        spec_manual_adaptive_byte(manual, adaptive) & 15u8 == adaptive,
{
    let b = spec_manual_adaptive_byte(manual, adaptive);
    assert(b as int == manual as int * 16 + adaptive as int);
    assert(b >> 4u8 == b / 16) by (bit_vector);
    assert(b & 15u8 == b % 16) by (bit_vector);
}

/// Reading the combined byte takes the manual level from its high nibble and the adaptive
/// level from its low nibble, for every byte.
pub proof fn lemma_take_manual_adaptive_nibbles(byte: u8)
    ensures
        spec_take_manual_adaptive(byte).0.level as int * 16 + spec_take_manual_adaptive(byte).1.level as int
            == byte as int,
        spec_take_manual_adaptive(byte).0.level == byte >> 4u8,
        spec_take_manual_adaptive(byte).1.level == byte & 15u8,
{
    assert(byte >> 4u8 == byte / 16) by (bit_vector);
    assert(byte & 15u8 == byte % 16) by (bit_vector);
}

} // verus!
