//! Battery information: the levels and charging states of both earbuds and the level of the
//! charging case, shown as read-only settings.

use vstd::prelude::*;

use crate::settings::{Setting, SettingHandlerError, SettingId, SettingView, Translation, TranslationView};
use crate::structures::{BatteryLevel, CaseBatteryLevel, DualBattery, IsBatteryCharging, SingleBattery};
use crate::text::{fraction_text, to_fraction_text};

verus! {

/// How a device counts the case's battery level.
#[derive(Debug, Default, Clone, Copy, PartialEq, Eq, Structural)]
pub struct CaseBatteryLevelConfiguration {
    /// The highest level, after the offset is applied.
    pub max_level: u8,
    /// Added to a reported level, so that with an offset of 1 a reported 0 counts as 1.
    pub level_offset: u8,
}

/// The settings of the case battery module.
#[derive(Debug, Clone, Copy, PartialEq, Eq, Hash, Structural)]
pub enum CaseBatteryLevelSetting {
    CaseBatteryLevel,
}

impl CaseBatteryLevelSetting {
    pub open spec fn spec_from_setting_id(id: SettingId) -> Option<Self> {
        match id {
            SettingId::CaseBatteryLevel => Some(CaseBatteryLevelSetting::CaseBatteryLevel),
            _ => None,
        }
    }

    pub fn from_setting_id(id: SettingId) -> (r: Option<Self>)
        ensures
            r == Self::spec_from_setting_id(id),
    {
        match id {
            SettingId::CaseBatteryLevel => Some(CaseBatteryLevelSetting::CaseBatteryLevel),
            _ => None,
        }
    }
}

/// Shows the case's battery level as "level/max".
pub struct CaseBatteryLevelSettingHandler {
    max_level: u8,
    level_offset: u8,
}

impl CaseBatteryLevelSettingHandler {
    pub closed spec fn spec_max_level(&self) -> u8 {
        self.max_level
    }

    pub closed spec fn spec_level_offset(&self) -> u8 {
        self.level_offset
    }

    pub fn new(configuration: &CaseBatteryLevelConfiguration) -> (r: Self)
        ensures
            r.spec_max_level() == configuration.max_level,
            r.spec_level_offset() == configuration.level_offset,
    {
        CaseBatteryLevelSettingHandler {
            max_level: configuration.max_level,
            level_offset: configuration.level_offset,
        }
    }

    pub fn settings(&self) -> (r: Vec<SettingId>)
        ensures
            r@ == seq![SettingId::CaseBatteryLevel],
    {
        let r = vec![SettingId::CaseBatteryLevel];
        assert(r@ =~= seq![SettingId::CaseBatteryLevel]);
        r
    }

    /// The level with the offset applied, over the highest level.
    pub open spec fn spec_level_text(&self, battery: CaseBatteryLevel) -> Seq<char> {
        fraction_text(
            (battery.0.0 + self.spec_level_offset()) as nat,
            self.spec_max_level() as nat,
        )
    }

    pub fn get(&self, battery: &CaseBatteryLevel, setting_id: &SettingId) -> (r: Option<Setting>)
        ensures
            match CaseBatteryLevelSetting::spec_from_setting_id(*setting_id) {
                Some(_) => r matches Some(s) && s@ == (SettingView::Information {
                    value: self.spec_level_text(*battery),
                    translated_value: TranslationView::Verbatim(self.spec_level_text(*battery)),
                }),
                None => r is None,
            },
    {
        let setting = CaseBatteryLevelSetting::from_setting_id(*setting_id)?;
        match setting {
            CaseBatteryLevelSetting::CaseBatteryLevel => {
                let level: u32 = battery.0.0 as u32 + self.level_offset as u32;
                let text = to_fraction_text(level, self.max_level as u32);
                let translated = to_fraction_text(level, self.max_level as u32);
                Some(
                    Setting::Information {
                        value: text,
                        translated_value: Translation::Verbatim(translated),
                    },
                )
            },
        }
    }

    /// The level is read only.
    pub fn set(&self, setting_id: &SettingId) -> (r: Result<(), SettingHandlerError>)
        ensures
            r matches Err(SettingHandlerError::ReadOnly),
    {
        Err(SettingHandlerError::ReadOnly)
    }
}

/// How a device counts its earbuds' battery levels.
#[derive(Debug, Default, Clone, Copy, PartialEq, Eq, Structural)]
pub struct DualBatteryConfiguration {
    /// The highest level, after the offset is applied.
    pub max_level: u8,
    /// Added to a reported level, so that with an offset of 1 a reported 0 counts as 1.
    pub level_offset: u8,
}

/// The settings of the dual battery module.
#[derive(Debug, Clone, Copy, PartialEq, Eq, Hash, Structural)]
pub enum BatterySetting {
    IsChargingLeft,
    IsChargingRight,
    BatteryLevelLeft,
    BatteryLevelRight,
}

impl BatterySetting {
    pub open spec fn spec_from_setting_id(id: SettingId) -> Option<Self> {
        match id {
            SettingId::IsChargingLeft => Some(BatterySetting::IsChargingLeft),
            SettingId::IsChargingRight => Some(BatterySetting::IsChargingRight),
            SettingId::BatteryLevelLeft => Some(BatterySetting::BatteryLevelLeft),
            SettingId::BatteryLevelRight => Some(BatterySetting::BatteryLevelRight),
            _ => None,
        }
    }

    pub fn from_setting_id(id: SettingId) -> (r: Option<Self>)
        ensures
            r == Self::spec_from_setting_id(id),
    {
        match id {
            SettingId::IsChargingLeft => Some(BatterySetting::IsChargingLeft),
            SettingId::IsChargingRight => Some(BatterySetting::IsChargingRight),
            SettingId::BatteryLevelLeft => Some(BatterySetting::BatteryLevelLeft),
            SettingId::BatteryLevelRight => Some(BatterySetting::BatteryLevelRight),
            _ => None,
        }
    }

    /// Whether the setting is about the left earbud.
    pub open spec fn spec_is_left(self) -> bool {
        self == BatterySetting::IsChargingLeft || self == BatterySetting::BatteryLevelLeft
    }
}

/// The level that marks a battery as absent: the earbud is not connected to the other one.
pub const ABSENT_BATTERY_LEVEL: u8 = 255;

/// Whether a battery is there to report on.
pub open spec fn spec_is_present(battery: SingleBattery) -> bool {
    battery.level.0 != ABSENT_BATTERY_LEVEL
}

/// Shows each earbud's charging state and level, while that earbud is present.
pub struct BatterySettingHandler {
    max_level: u8,
    level_offset: u8,
}

impl BatterySettingHandler {
    pub closed spec fn spec_max_level(&self) -> u8 {
        self.max_level
    }

    pub closed spec fn spec_level_offset(&self) -> u8 {
        self.level_offset
    }

    pub fn new(configuration: &DualBatteryConfiguration) -> (r: Self)
        ensures
            r.spec_max_level() == configuration.max_level,
            r.spec_level_offset() == configuration.level_offset,
    {
        BatterySettingHandler {
            max_level: configuration.max_level,
            level_offset: configuration.level_offset,
        }
    }

    pub open spec fn spec_settings() -> Seq<SettingId> {
        seq![
            SettingId::IsChargingLeft,
            SettingId::IsChargingRight,
            SettingId::BatteryLevelLeft,
            SettingId::BatteryLevelRight,
        ]
    }

    pub fn settings(&self) -> (r: Vec<SettingId>)
        ensures
            r@ == Self::spec_settings(),
    {
        let r = vec![
            SettingId::IsChargingLeft,
            SettingId::IsChargingRight,
            SettingId::BatteryLevelLeft,
            SettingId::BatteryLevelRight,
        ];
        assert(r@ =~= Self::spec_settings());
        r
    }

    /// The battery a setting is about.
    pub open spec fn spec_side(battery: DualBattery, setting: BatterySetting) -> SingleBattery {
        if setting.spec_is_left() {
            battery.left
        } else {
            battery.right
        }
    }

    /// What getting a level needs: a level with the offset applied that fits in a byte, and a
    /// highest level that is not zero.
    pub open spec fn spec_can_show(&self, battery: DualBattery, setting_id: SettingId) -> bool {
        match BatterySetting::spec_from_setting_id(setting_id) {
            Some(setting) => {
                let side = Self::spec_side(battery, setting);
                (setting == BatterySetting::BatteryLevelLeft || setting
                    == BatterySetting::BatteryLevelRight) && spec_is_present(side) ==> side.level.0
                    + self.spec_level_offset() <= 255 && self.spec_max_level() != 0
            },
            None => true,
        }
    }

    pub open spec fn spec_get(&self, battery: DualBattery, setting_id: SettingId) -> Option<
        SettingView,
    > {
        match BatterySetting::spec_from_setting_id(setting_id) {
            Some(setting) => {
                let side = Self::spec_side(battery, setting);
                if !spec_is_present(side) {
                    None
                } else if setting == BatterySetting::IsChargingLeft || setting
                    == BatterySetting::IsChargingRight {
                    Some(
                        SettingView::Information {
                            value: side.is_charging.spec_text(),
                            translated_value: if side.is_charging.spec_is_charging() {
                                TranslationView::Charging
                            } else {
                                TranslationView::NotCharging
                            },
                        },
                    )
                } else {
                    let level = side.level.0 + self.spec_level_offset();
                    Some(
                        SettingView::Information {
                            value: fraction_text(level as nat, self.spec_max_level() as nat),
                            translated_value: TranslationView::Percent(
                                (level * 100 / (self.spec_max_level() as int)) as i32,
                            ),
                        },
                    )
                }
            },
            None => None,
        }
    }

    fn level_information(&self, side: &SingleBattery) -> (r: Setting)
        requires
            side.level.0 + self.spec_level_offset() <= 255,
            self.spec_max_level() != 0,
        ensures
            r@ == (SettingView::Information {
                value: fraction_text(
                    (side.level.0 + self.spec_level_offset()) as nat,
                    self.spec_max_level() as nat,
                ),
                translated_value: TranslationView::Percent(
                    ((side.level.0 + self.spec_level_offset()) * 100 / (self.spec_max_level() as int)) as i32,
                ),
            }),
    {
        let level: u8 = side.level.0 + self.level_offset;
        let percent: i32 = (level as i32 * 100) / (self.max_level as i32);
        Setting::Information {
            value: to_fraction_text(level as u32, self.max_level as u32),
            translated_value: Translation::Percent(percent),
        }
    }

    fn charging_information(side: &SingleBattery) -> (r: Setting)
        ensures
            r@ == (SettingView::Information {
                value: side.is_charging.spec_text(),
                translated_value: if side.is_charging.spec_is_charging() {
                    TranslationView::Charging
                } else {
                    TranslationView::NotCharging
                },
            }),
    {
        Setting::Information {
            value: side.is_charging.text(),
            translated_value: if side.is_charging.is_charging() {
                Translation::Charging
            } else {
                Translation::NotCharging
            },
        }
    }

    /// A present earbud's charging state, or its level as "level/max" and as a percentage.
    /// Nothing is shown for an absent earbud.
    pub fn get(&self, battery: &DualBattery, setting_id: &SettingId) -> (r: Option<Setting>)
        requires
            self.spec_can_show(*battery, *setting_id),
        ensures
            match self.spec_get(*battery, *setting_id) {
                Some(v) => r matches Some(s) && s@ == v,
                None => r is None,
            },
    {
        let setting = BatterySetting::from_setting_id(*setting_id)?;
        let left_side_present = battery.left.level.0 != ABSENT_BATTERY_LEVEL;
        let right_side_present = battery.right.level.0 != ABSENT_BATTERY_LEVEL;
        match setting {
            BatterySetting::IsChargingLeft if left_side_present => Some(
                Self::charging_information(&battery.left),
            ),
            BatterySetting::IsChargingRight if right_side_present => Some(
                Self::charging_information(&battery.right),
            ),
            BatterySetting::BatteryLevelLeft if left_side_present => Some(
                self.level_information(&battery.left),
            ),
            BatterySetting::BatteryLevelRight if right_side_present => Some(
                self.level_information(&battery.right),
            ),
            _ => None,
        }
    }

    /// The battery information is read only.
    pub fn set(&self, setting_id: &SettingId) -> (r: Result<(), SettingHandlerError>)
        ensures
            r matches Err(SettingHandlerError::ReadOnly),
    {
        Err(SettingHandlerError::ReadOnly)
    }
}

/// The levels of both earbuds' batteries, as reported on their own.
#[derive(Debug, Clone, Copy, PartialEq, Eq, Hash, Structural)]
pub struct DualBatteryLevel {
    pub left: BatteryLevel,
    pub right: BatteryLevel,
}

/// Applies battery level reports to the state.
#[derive(Debug, Default, Clone, Copy)]
pub struct BatteryLevelPacketHandler {}

impl BatteryLevelPacketHandler {
    /// Takes over both levels of a report; the result tells whether either changed.
    pub fn handle_packet(&self, state: &mut DualBatteryLevel, packet: &DualBatteryLevel) -> (r: bool)
        ensures
            *final(state) == *packet,
            r == (*packet != *old(state)),
    {
        let modified = packet.left != state.left || packet.right != state.right;
        state.left = packet.left;
        state.right = packet.right;
        modified
    }
}

/// Applies charging reports of both earbuds to the state.
#[derive(Debug, Default, Clone, Copy)]
pub struct BatteryChargingPacketHandler {}

impl BatteryChargingPacketHandler {
    /// Takes over both charging flags of a report and keeps the levels; the result tells
    /// whether either flag changed.
    pub fn handle_packet(&self, state: &mut DualBattery, left: IsBatteryCharging, right: IsBatteryCharging) -> (r: bool)
        ensures
            final(state).left.is_charging == left,
            final(state).right.is_charging == right,
            final(state).left.level == old(state).left.level,
            final(state).right.level == old(state).right.level,
            r == (left != old(state).left.is_charging || right != old(state).right.is_charging),
    {
        let modified = left != state.left.is_charging || right != state.right.is_charging;
        state.left.is_charging = left;
        state.right.is_charging = right;
        modified
    }
}

} // verus!
