//! Limiting loud playback: on or off, the decibel limit in steps of five from 75 to 100, and
//! how often the volume is measured.

use vstd::prelude::*;

use crate::settings::{
    Range, Select, Setting, SettingHandlerError, SettingId, SettingView, Value, ValueError,
    ValueKind,
};
use crate::structures::{LimitHighVolume, LimitHighVolumeRefreshRate};

verus! {

/// The settings of the high volume limit module.
#[derive(Debug, Clone, Copy, PartialEq, Eq, Hash, Structural)]
pub enum LimitHighVolumeSetting {
    LimitHighVolume,
    LimitHighVolumeDbLimit,
    LimitHighVolumeRefreshRate,
}

impl LimitHighVolumeSetting {
    pub open spec fn spec_from_setting_id(id: SettingId) -> Option<Self> {
        match id {
            SettingId::LimitHighVolume => Some(LimitHighVolumeSetting::LimitHighVolume),
            SettingId::LimitHighVolumeDbLimit => Some(LimitHighVolumeSetting::LimitHighVolumeDbLimit),
            SettingId::LimitHighVolumeRefreshRate => Some(
                LimitHighVolumeSetting::LimitHighVolumeRefreshRate,
            ),
            _ => None,
        }
    }

    pub fn from_setting_id(id: SettingId) -> (r: Option<Self>)
        ensures
            r == Self::spec_from_setting_id(id),
    {
        match id {
            SettingId::LimitHighVolume => Some(LimitHighVolumeSetting::LimitHighVolume),
            SettingId::LimitHighVolumeDbLimit => Some(LimitHighVolumeSetting::LimitHighVolumeDbLimit),
            SettingId::LimitHighVolumeRefreshRate => Some(
                LimitHighVolumeSetting::LimitHighVolumeRefreshRate,
            ),
            _ => None,
        }
    }
}

pub const MIN_DB_LIMIT: i32 = 75;

pub const MAX_DB_LIMIT: i32 = 100;

pub const DB_LIMIT_STEP: i32 = 5;

/// The remainder of `v` divided by five, with the sign of `v`.
pub open spec fn truncated_remainder(v: int) -> int {
    if v >= 0 {
        v % 5
    } else {
        -((-v) % 5)
    }
}

/// The limit a requested value is stored as: rounded toward zero to a multiple of five, then
/// brought into 75 to 100.
pub open spec fn spec_db_limit(requested: i32) -> u8 {
    let rounded = requested - truncated_remainder(requested as int);
    if rounded < 75 {
        75
    } else if rounded > 100 {
        100
    } else {
        rounded as u8
    }
}

/// Rounds a requested limit toward zero to a multiple of five and brings it into 75 to 100.
pub fn db_limit(requested: i32) -> (r: u8)
    ensures
        r == spec_db_limit(requested),
        75 <= r <= 100,
        r % 5 == 0,
{
    if requested < 0 {
        return 75;
    }
    let rounded: i32 = requested - requested % 5;
    if rounded < MIN_DB_LIMIT {
        75
    } else if rounded > MAX_DB_LIMIT {
        100
    } else {
        rounded as u8
    }
}

/// Shows and changes the high volume limit.
pub struct LimitHighVolumeSettingHandler {}

impl LimitHighVolumeSettingHandler {
    pub fn new() -> Self {
        LimitHighVolumeSettingHandler {}
    }

    pub open spec fn spec_settings() -> Seq<SettingId> {
        seq![
            SettingId::LimitHighVolume,
            SettingId::LimitHighVolumeDbLimit,
            SettingId::LimitHighVolumeRefreshRate,
        ]
    }

    pub fn settings(&self) -> (r: Vec<SettingId>)
        ensures
            r@ == Self::spec_settings(),
    {
        let r = vec![
            SettingId::LimitHighVolume,
            SettingId::LimitHighVolumeDbLimit,
            SettingId::LimitHighVolumeRefreshRate,
        ];
        assert(r@ =~= Self::spec_settings());
        r
    }

    pub open spec fn spec_get(limit: LimitHighVolume, setting_id: SettingId) -> Option<SettingView> {
        match LimitHighVolumeSetting::spec_from_setting_id(setting_id) {
            Some(LimitHighVolumeSetting::LimitHighVolume) => Some(
                SettingView::Toggle { value: limit.enabled },
            ),
            Some(LimitHighVolumeSetting::LimitHighVolumeDbLimit) => Some(
                SettingView::I32Range {
                    setting: Range { start: 75, end: 100, step: 5 },
                    value: limit.db_limit as i32,
                },
            ),
            Some(LimitHighVolumeSetting::LimitHighVolumeRefreshRate) => Some(
                SettingView::Select {
                    options: LimitHighVolumeRefreshRate::spec_all_names(),
                    value: limit.refresh_rate.spec_name(),
                },
            ),
            None => None,
        }
    }

    pub fn get(&self, limit: &LimitHighVolume, setting_id: &SettingId) -> (r: Option<Setting>)
        ensures
            match Self::spec_get(*limit, *setting_id) {
                Some(v) => r matches Some(s) && s@ == v,
                None => r is None,
            },
    {
        let setting = LimitHighVolumeSetting::from_setting_id(*setting_id)?;
        Some(
            match setting {
                LimitHighVolumeSetting::LimitHighVolume => Setting::Toggle { value: limit.enabled },
                LimitHighVolumeSetting::LimitHighVolumeDbLimit => Setting::I32Range {
                    setting: Range { start: MIN_DB_LIMIT, end: MAX_DB_LIMIT, step: DB_LIMIT_STEP },
                    value: limit.db_limit as i32,
                },
                LimitHighVolumeSetting::LimitHighVolumeRefreshRate => Setting::Select {
                    setting: Select { options: LimitHighVolumeRefreshRate::all_names() },
                    value: crate::text::owned(limit.refresh_rate.name()),
                },
            },
        )
    }

    /// The state after a change, or `None` when the value is refused.
    pub open spec fn spec_set(limit: LimitHighVolume, setting: LimitHighVolumeSetting, value: Value) -> Option<
        LimitHighVolume,
    > {
        match setting {
            LimitHighVolumeSetting::LimitHighVolume => match value {
                Value::Bool(b) => Some(LimitHighVolume { enabled: b, ..limit }),
                _ => None,
            },
            LimitHighVolumeSetting::LimitHighVolumeDbLimit => match value {
                Value::I32(v) => Some(LimitHighVolume { db_limit: spec_db_limit(v), ..limit }),
                _ => None,
            },
            LimitHighVolumeSetting::LimitHighVolumeRefreshRate => match value {
                Value::String(s) => match LimitHighVolumeRefreshRate::spec_from_name(s@) {
                    Some(rate) => Some(LimitHighVolume { refresh_rate: rate, ..limit }),
                    None => None,
                },
                _ => None,
            },
        }
    }

    /// Turns the limit on or off with a `bool`, sets the decibel limit with an `i32` (rounded
    /// and brought into range), or picks the refresh rate by its name.
    pub fn set(&self, limit: &mut LimitHighVolume, setting_id: &SettingId, value: Value) -> (r: Result<
        (),
        SettingHandlerError,
    >)
        requires
            LimitHighVolumeSetting::spec_from_setting_id(*setting_id) is Some,
        ensures
            match Self::spec_set(
                *old(limit),
                LimitHighVolumeSetting::spec_from_setting_id(*setting_id)->0,
                value,
            ) {
                Some(l) => r is Ok && *final(limit) == l,
                None => r is Err && *final(limit) == *old(limit),
            },
    {
        let setting = LimitHighVolumeSetting::from_setting_id(*setting_id).unwrap();
        match setting {
            LimitHighVolumeSetting::LimitHighVolume => {
                limit.enabled = value.try_as_bool()?;
            },
            LimitHighVolumeSetting::LimitHighVolumeDbLimit => {
                let requested = value.try_as_i32()?;
                limit.db_limit = db_limit(requested);
            },
            LimitHighVolumeSetting::LimitHighVolumeRefreshRate => {
                let name = value.try_as_str()?;
                match LimitHighVolumeRefreshRate::from_name(name) {
                    Some(rate) => {
                        limit.refresh_rate = rate;
                    },
                    None => {
                        return Err(
                            SettingHandlerError::ValueError(
                                ValueError::InvalidOption { name: crate::text::owned(name) },
                            ),
                        );
                    },
                }
            },
        }
        Ok(())
    }
}

/// A decibel limit that the setting offers is stored as it is.
pub proof fn lemma_offered_db_limit_is_kept(limit: i32)
    requires
        75 <= limit <= 100,
        limit % 5 == 0,
    ensures
        spec_db_limit(limit) == limit,
{
}

/// What moving the limit to a target takes.
#[derive(Debug, Clone, Copy, PartialEq, Eq)]
pub struct LimitHighVolumePlan {
    /// The on/off value and decibel limit to send, if either differs.
    pub set_limit: Option<(bool, u8)>,
    /// The refresh rate to send, if it differs.
    pub set_refresh_rate: Option<LimitHighVolumeRefreshRate>,
}

/// Moves the high volume limit to a target. `P` is the handle through which the caller sends
/// packets.
pub struct LimitHighVolumeStateModifier<P> {
    packet_io: P,
}

impl<P> LimitHighVolumeStateModifier<P> {
    pub closed spec fn spec_packet_io(&self) -> P {
        self.packet_io
    }

    pub fn new(packet_io: P) -> (r: Self)
        ensures
            r.spec_packet_io() == packet_io,
    {
        LimitHighVolumeStateModifier { packet_io }
    }

    pub fn packet_io(&self) -> (r: &P)
        ensures
            *r == self.spec_packet_io(),
    {
        &self.packet_io
    }

    /// The limit once the device has acknowledged a new on/off value and decibel limit: those
    /// two taken over, the refresh rate kept.
    pub fn acknowledge_limit(&self, current: &LimitHighVolume, enabled: bool, db_limit: u8) -> (r:
        LimitHighVolume)
        ensures
            r == (LimitHighVolume { enabled, db_limit, refresh_rate: current.refresh_rate }),
    {
        LimitHighVolume { enabled, db_limit, refresh_rate: current.refresh_rate }
    }

    /// The limit once the device has acknowledged a new refresh rate: that rate taken over, the
    /// rest kept.
    pub fn acknowledge_refresh_rate(
        &self,
        current: &LimitHighVolume,
        refresh_rate: LimitHighVolumeRefreshRate,
    ) -> (r: LimitHighVolume)
        ensures
            r == (LimitHighVolume { refresh_rate, enabled: current.enabled, db_limit: current.db_limit }),
    {
        LimitHighVolume { refresh_rate, enabled: current.enabled, db_limit: current.db_limit }
    }

    /// The on/off value and limit together when either differs, then the refresh rate when it
    /// differs; after each is acknowledged the state takes over those fields of the target.
    pub fn plan(&self, current: &LimitHighVolume, target: &LimitHighVolume) -> (r: LimitHighVolumePlan)
        ensures
            r.set_limit == (if current.enabled != target.enabled || current.db_limit
                != target.db_limit {
                Some((target.enabled, target.db_limit))
            } else {
                None
            }),
            r.set_refresh_rate == (if current.refresh_rate != target.refresh_rate {
                Some(target.refresh_rate)
            } else {
                None
            }),
    {
        let set_limit = if current.enabled != target.enabled || current.db_limit != target.db_limit {
            Some((target.enabled, target.db_limit))
        } else {
            None
        };
        let set_refresh_rate = if current.refresh_rate != target.refresh_rate {
            Some(target.refresh_rate)
        } else {
            None
        };
        LimitHighVolumePlan { set_limit, set_refresh_rate }
    }
}

} // verus!
