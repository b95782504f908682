//! The settings that devices expose: their ids, the shapes in which they are shown, the values
//! in which changes arrive, and the errors a change can meet.

use vstd::prelude::*;

verus! {

/// Every setting a device can expose.
#[derive(Debug, Clone, Copy, PartialEq, Eq, Hash, Structural)]
pub enum SettingId {
    AmbientSoundMode,
    TransparencyMode,
    NoiseCancelingMode,
    AdaptiveNoiseCanceling,
    ManualNoiseCanceling,
    WindNoiseSuppression,
    WindNoiseDetected,
    AdaptiveNoiseCancelingSensitivityLevel,
    MultiSceneNoiseCanceling,
    LeftSinglePress,
    LeftDoublePress,
    LeftTriplePress,
    LeftLongPress,
    RightSinglePress,
    RightDoublePress,
    RightTriplePress,
    RightLongPress,
    NormalModeInCycle,
    TransparencyModeInCycle,
    NoiseCancelingModeInCycle,
    AutoPowerOff,
    CaseBatteryLevel,
    IsChargingLeft,
    IsChargingRight,
    BatteryLevelLeft,
    BatteryLevelRight,
    DualConnections,
    DualConnectionsDevices,
    PresetEqualizerProfile,
    CustomEqualizerProfile,
    VolumeAdjustments,
    ImportCustomEqualizerProfiles,
    ExportCustomEqualizerProfiles,
    ExportCustomEqualizerProfilesOutput,
    GamingMode,
    LimitHighVolume,
    LimitHighVolumeDbLimit,
    LimitHighVolumeRefreshRate,
    ResetButtonsToDefault,
    SerialNumber,
    FirmwareVersionLeft,
    FirmwareVersionRight,
    TwsStatus,
    HostDevice,
    TouchTone,
    SoundLeakCompensation,
    SurroundSound,
    AutoPlayPause,
    WearingTone,
    TouchLock,
    LowBatteryPrompt,
    WearingDetection,
    VoicePrompt,
    Ldac,
    ButtonsEnabled,
}

/// The group a setting is shown in.
#[derive(Debug, Clone, Copy, PartialEq, Eq, Hash, Structural)]
pub enum CategoryId {
    SoundModes,
    ButtonConfiguration,
    Equalizer,
    EqualizerImportExport,
    DeviceInformation,
    DualConnections,
    Miscellaneous,
    LimitHighVolume,
}

/// The options of a select setting, by their (untranslated) names.
#[derive(Debug, Clone)]
pub struct Select {
    pub options: Vec<String>,
}

/// An inclusive integer range with a step.
#[derive(Debug, Clone, Copy, PartialEq, Eq, Structural)]
pub struct Range {
    pub start: i32,
    pub end: i32,
    pub step: i32,
}

/// How an equalizer is shown: the band frequencies, how many of the value's digits are
/// fractional, and the bounds of each band.
#[derive(Debug, Clone)]
pub struct Equalizer {
    pub band_hz: Vec<u16>,
    pub fraction_digits: u8,
    pub min: i16,
    pub max: i16,
}

/// Read-only text. Text that depends on the user's language is named here and worded by the
/// application.
#[derive(Debug, Clone)]
pub enum Translation {
    Verbatim(String),
    Charging,
    NotCharging,
    Percent(i32),
    /// The question asked before custom equalizer profiles are imported.
    ImportCustomEqualizerProfilesConfirm,
}

#[derive(Debug, Clone)]
pub enum Setting {
    Toggle { value: bool },
    I32Range { setting: Range, value: i32 },
    Select { setting: Select, value: String },
    OptionalSelect { setting: Select, value: Option<String> },
    ModifiableSelect { setting: Select, value: Option<String> },
    /// A select of several options, each of which has a label to show and can be removed.
    MultiSelectWithRemove { setting: Select, labels: Vec<String>, values: Vec<String> },
    /// A select of several options.
    MultiSelect { setting: Select, values: Vec<String> },
    /// A text to import, with a question to confirm first if there is one.
    ImportString { confirmation_message: Option<Translation> },
    Equalizer { setting: Equalizer, read_only: bool, value: Vec<i16> },
    Information { value: String, translated_value: Translation },
    Action,
}

/// The mathematical content of a [`Translation`].
pub enum TranslationView {
    Verbatim(Seq<char>),
    Charging,
    NotCharging,
    Percent(i32),
    ImportCustomEqualizerProfilesConfirm,
}

/// The mathematical content of a [`Setting`].
pub enum SettingView {
    Toggle { value: bool },
    I32Range { setting: Range, value: i32 },
    Select { options: Seq<Seq<char>>, value: Seq<char> },
    OptionalSelect { options: Seq<Seq<char>>, value: Option<Seq<char>> },
    ModifiableSelect { options: Seq<Seq<char>>, value: Option<Seq<char>> },
    MultiSelectWithRemove {
        options: Seq<Seq<char>>,
        labels: Seq<Seq<char>>,
        values: Seq<Seq<char>>,
    },
    MultiSelect { options: Seq<Seq<char>>, values: Seq<Seq<char>> },
    ImportString { confirmation_message: Option<TranslationView> },
    Equalizer {
        band_hz: Seq<u16>,
        fraction_digits: u8,
        min: i16,
        max: i16,
        read_only: bool,
        value: Seq<i16>,
    },
    Information { value: Seq<char>, translated_value: TranslationView },
    Action,
}

impl View for Translation {
    type V = TranslationView;

    open spec fn view(&self) -> TranslationView {
        match self {
            Translation::Verbatim(s) => TranslationView::Verbatim(s@),
            Translation::Charging => TranslationView::Charging,
            Translation::NotCharging => TranslationView::NotCharging,
            Translation::Percent(p) => TranslationView::Percent(*p),
            Translation::ImportCustomEqualizerProfilesConfirm =>
                TranslationView::ImportCustomEqualizerProfilesConfirm,
        }
    }
}

impl View for Setting {
    type V = SettingView;

    open spec fn view(&self) -> SettingView {
        match self {
            Setting::Toggle { value } => SettingView::Toggle { value: *value },
            Setting::I32Range { setting, value } => SettingView::I32Range {
                setting: *setting,
                value: *value,
            },
            Setting::Select { setting, value } => SettingView::Select {
                options: setting.options.deep_view(),
                value: value@,
            },
            Setting::OptionalSelect { setting, value } => SettingView::OptionalSelect {
                options: setting.options.deep_view(),
                value: value.deep_view(),
            },
            Setting::ModifiableSelect { setting, value } => SettingView::ModifiableSelect {
                options: setting.options.deep_view(),
                value: value.deep_view(),
            },
            Setting::MultiSelectWithRemove { setting, labels, values } =>
                SettingView::MultiSelectWithRemove {
                    options: setting.options.deep_view(),
                    labels: labels.deep_view(),
                    values: values.deep_view(),
                },
            Setting::MultiSelect { setting, values } => SettingView::MultiSelect {
                options: setting.options.deep_view(),
                values: values.deep_view(),
            },
            Setting::ImportString { confirmation_message } => SettingView::ImportString {
                confirmation_message: match confirmation_message {
                    Some(t) => Some(t@),
                    None => None,
                },
            },
            Setting::Equalizer { setting, read_only, value } => SettingView::Equalizer {
                band_hz: setting.band_hz@,
                fraction_digits: setting.fraction_digits,
                min: setting.min,
                max: setting.max,
                read_only: *read_only,
                value: value@,
            },
            Setting::Information { value, translated_value } => SettingView::Information {
                value: value@,
                translated_value: translated_value@,
            },
            Setting::Action => SettingView::Action,
        }
    }
}

#[derive(Debug, Clone)]
pub enum ModifiableSelectCommand {
    Add(String),
    Remove(String),
}

#[derive(Debug, Clone)]
pub enum MultiSelectWithRemoveCommand {
    Remove(String),
}

/// A new value for a setting.
#[derive(Debug, Clone)]
pub enum Value {
    Bool(bool),
    I32(i32),
    String(String),
    OptionalString(Option<String>),
    StringVec(Vec<String>),
    I16Vec(Vec<i16>),
    ModifiableSelectCommand(ModifiableSelectCommand),
    MultiSelectWithRemoveCommand(MultiSelectWithRemoveCommand),
}

/// The kind of a [`Value`], named in errors.
#[derive(Debug, Clone, Copy, PartialEq, Eq, Structural)]
pub enum ValueKind {
    Bool,
    I32,
    String,
    OptionalString,
    StringVec,
    I16Vec,
    ModifiableSelectCommand,
    MultiSelectWithRemoveCommand,
}

#[derive(Debug, Clone)]
pub enum ValueError {
    /// The value has another kind than the setting takes.
    WrongType { expected: ValueKind, actual: Value },
    /// The value names no option of the setting.
    InvalidOption { name: String },
    /// The value has another number of elements than the setting takes.
    WrongLength { expected: usize, actual: usize },
}

#[derive(Debug, Clone)]
pub enum SettingHandlerError {
    ValueError(ValueError),
    /// The setting can't be changed.
    ReadOnly,
    /// The device did not report the data the setting needs.
    MissingData,
    /// A text that should be a MAC address is not one; the error of the address parser.
    InvalidMacAddress(macaddr::ParseError),
}

impl Value {
    pub open spec fn kind(&self) -> ValueKind {
        match self {
            Value::Bool(_) => ValueKind::Bool,
            Value::I32(_) => ValueKind::I32,
            Value::String(_) => ValueKind::String,
            Value::OptionalString(_) => ValueKind::OptionalString,
            Value::StringVec(_) => ValueKind::StringVec,
            Value::I16Vec(_) => ValueKind::I16Vec,
            Value::ModifiableSelectCommand(_) => ValueKind::ModifiableSelectCommand,
            Value::MultiSelectWithRemoveCommand(_) => ValueKind::MultiSelectWithRemoveCommand,
        }
    }

    /// The error of a value that is not of kind `expected`.
    pub open spec fn is_wrong_type(e: SettingHandlerError, expected: ValueKind) -> bool {
        e matches SettingHandlerError::ValueError(ValueError::WrongType { expected: x, .. })
            && x == expected
    }

    pub fn try_as_bool(&self) -> (r: Result<bool, SettingHandlerError>)
        ensures
            match self {
                Value::Bool(b) => r == Ok::<bool, SettingHandlerError>(*b),
                _ => r matches Err(e) && Self::is_wrong_type(e, ValueKind::Bool),
            },
    {
        match self {
            Value::Bool(b) => Ok(*b),
            _ => Err(
                SettingHandlerError::ValueError(
                    ValueError::WrongType { expected: ValueKind::Bool, actual: self.clone() },
                ),
            ),
        }
    }

    pub fn try_as_i32(&self) -> (r: Result<i32, SettingHandlerError>)
        ensures
            match self {
                Value::I32(v) => r == Ok::<i32, SettingHandlerError>(*v),
                _ => r matches Err(e) && Self::is_wrong_type(e, ValueKind::I32),
            },
    {
        match self {
            Value::I32(v) => Ok(*v),
            _ => Err(
                SettingHandlerError::ValueError(
                    ValueError::WrongType { expected: ValueKind::I32, actual: self.clone() },
                ),
            ),
        }
    }

    /// The text of a string value.
    pub fn try_as_str(&self) -> (r: Result<&str, SettingHandlerError>)
        ensures
            match self {
                Value::String(s) => r matches Ok(t) && t@ == s@,
                _ => r matches Err(e) && Self::is_wrong_type(e, ValueKind::String),
            },
    {
        match self {
            Value::String(s) => Ok(s.as_str()),
            _ => Err(
                SettingHandlerError::ValueError(
                    ValueError::WrongType { expected: ValueKind::String, actual: self.clone() },
                ),
            ),
        }
    }

    /// The text of an optional string value; a plain string counts as present.
    pub fn try_as_optional_str(&self) -> (r: Result<Option<&str>, SettingHandlerError>)
        ensures
            match self {
                Value::String(s) => r matches Ok(Some(t)) && t@ == s@,
                Value::OptionalString(Some(s)) => r matches Ok(Some(t)) && t@ == s@,
                Value::OptionalString(None) => r matches Ok(None),
                _ => r matches Err(e) && Self::is_wrong_type(e, ValueKind::OptionalString),
            },
    {
        match self {
            Value::String(s) => Ok(Some(s.as_str())),
            Value::OptionalString(Some(s)) => Ok(Some(s.as_str())),
            Value::OptionalString(None) => Ok(None),
            _ => Err(
                SettingHandlerError::ValueError(
                    ValueError::WrongType {
                        expected: ValueKind::OptionalString,
                        actual: self.clone(),
                    },
                ),
            ),
        }
    }
    /// The values of an `i16` list value that has exactly `len` elements.
    pub fn try_as_i16_array(&self, len: usize) -> (r: Result<&Vec<i16>, SettingHandlerError>)
        ensures
            match self {
                Value::I16Vec(v) => if v@.len() == len {
                    r matches Ok(w) && w@ == v@
                } else {
                    r matches Err(SettingHandlerError::ValueError(ValueError::WrongLength { expected, actual }))
                        && expected == len && actual == v@.len()
                },
                _ => r matches Err(e) && Self::is_wrong_type(e, ValueKind::I16Vec),
            },
    {
        match self {
            Value::I16Vec(v) => if v.len() == len {
                Ok(v)
            } else {
                Err(
                    SettingHandlerError::ValueError(
                        ValueError::WrongLength { expected: len, actual: v.len() },
                    ),
                )
            },
            _ => Err(
                SettingHandlerError::ValueError(
                    ValueError::WrongType { expected: ValueKind::I16Vec, actual: self.clone() },
                ),
            ),
        }
    }
}

} // verus!
