//! Which ambient sound modes a button press cycles through, kept separately for when the earbuds
//! are connected to each other and when they are not.

use vstd::prelude::*;

use crate::reset_buttons::ResetButtonConfigurationPending;
use crate::settings::{Setting, SettingHandlerError, SettingId, SettingView, Value, ValueKind};
use crate::structures::{AmbientSoundModeCycle, AmbientSoundModeCycleTws, TwsStatus};

verus! {

/// The settings of the sound mode cycle.
#[derive(Debug, Clone, Copy, PartialEq, Eq, Hash, Structural)]
pub enum SoundModeCycleSetting {
    NormalModeInCycle,
    TransparencyModeInCycle,
    NoiseCancelingModeInCycle,
}

impl SoundModeCycleSetting {
    pub open spec fn spec_from_setting_id(id: SettingId) -> Option<Self> {
        match id {
            SettingId::NormalModeInCycle => Some(SoundModeCycleSetting::NormalModeInCycle),
            SettingId::TransparencyModeInCycle => Some(
                SoundModeCycleSetting::TransparencyModeInCycle,
            ),
            SettingId::NoiseCancelingModeInCycle => Some(
                SoundModeCycleSetting::NoiseCancelingModeInCycle,
            ),
            _ => None,
        }
    }

    pub open spec fn spec_setting_id(self) -> SettingId {
        match self {
            SoundModeCycleSetting::NormalModeInCycle => SettingId::NormalModeInCycle,
            SoundModeCycleSetting::TransparencyModeInCycle => SettingId::TransparencyModeInCycle,
            SoundModeCycleSetting::NoiseCancelingModeInCycle => SettingId::NoiseCancelingModeInCycle,
        }
    }

    pub fn from_setting_id(id: SettingId) -> (r: Option<Self>)
        ensures
            r == Self::spec_from_setting_id(id),
    {
        match id {
            SettingId::NormalModeInCycle => Some(SoundModeCycleSetting::NormalModeInCycle),
            SettingId::TransparencyModeInCycle => Some(
                SoundModeCycleSetting::TransparencyModeInCycle,
            ),
            SettingId::NoiseCancelingModeInCycle => Some(
                SoundModeCycleSetting::NoiseCancelingModeInCycle,
            ),
            _ => None,
        }
    }

    pub fn setting_id(&self) -> (r: SettingId)
        ensures
            r == self.spec_setting_id(),
    {
        match self {
            SoundModeCycleSetting::NormalModeInCycle => SettingId::NormalModeInCycle,
            SoundModeCycleSetting::TransparencyModeInCycle => SettingId::TransparencyModeInCycle,
            SoundModeCycleSetting::NoiseCancelingModeInCycle => SettingId::NoiseCancelingModeInCycle,
        }
    }

    /// Whether `cycle` includes the mode of this setting.
    pub open spec fn spec_read(self, cycle: AmbientSoundModeCycle) -> bool {
        match self {
            SoundModeCycleSetting::NormalModeInCycle => cycle.normal_mode,
            SoundModeCycleSetting::TransparencyModeInCycle => cycle.transparency_mode,
            SoundModeCycleSetting::NoiseCancelingModeInCycle => cycle.noise_canceling_mode,
        }
    }

    /// `cycle` with the mode of this setting included or not.
    pub open spec fn spec_write(self, cycle: AmbientSoundModeCycle, value: bool) -> AmbientSoundModeCycle {
        match self {
            SoundModeCycleSetting::NormalModeInCycle => AmbientSoundModeCycle {
                normal_mode: value,
                ..cycle
            },
            SoundModeCycleSetting::TransparencyModeInCycle => AmbientSoundModeCycle {
                transparency_mode: value,
                ..cycle
            },
            SoundModeCycleSetting::NoiseCancelingModeInCycle => AmbientSoundModeCycle {
                noise_canceling_mode: value,
                ..cycle
            },
        }
    }
}

/// The cycle in effect for the current connection state of the earbuds.
pub open spec fn spec_active_cycle(is_tws_connected: bool, tws_cycle: AmbientSoundModeCycleTws) -> AmbientSoundModeCycle {
    if is_tws_connected {
        tws_cycle.tws_enabled
    } else {
        tws_cycle.tws_disabled
    }
}

/// `tws_cycle` with the cycle in effect replaced by `cycle`.
pub open spec fn spec_with_active_cycle(
    is_tws_connected: bool,
    tws_cycle: AmbientSoundModeCycleTws,
    cycle: AmbientSoundModeCycle,
) -> AmbientSoundModeCycleTws {
    if is_tws_connected {
        AmbientSoundModeCycleTws { tws_enabled: cycle, ..tws_cycle }
    } else {
        AmbientSoundModeCycleTws { tws_disabled: cycle, ..tws_cycle }
    }
}

pub open spec fn spec_get_inner(
    is_tws_connected: bool,
    tws_cycle: AmbientSoundModeCycleTws,
    setting_id: SettingId,
) -> Option<SettingView> {
    match SoundModeCycleSetting::spec_from_setting_id(setting_id) {
        Some(setting) => Some(
            SettingView::Toggle {
                value: setting.spec_read(spec_active_cycle(is_tws_connected, tws_cycle)),
            },
        ),
        None => None,
    }
}

/// The toggle of a mode in the cycle in effect; `None` for settings of other modules.
pub fn get_inner(
    is_tws_connected: bool,
    tws_cycle: &AmbientSoundModeCycleTws,
    setting_id: &SettingId,
) -> (r: Option<Setting>)
    ensures
        match spec_get_inner(is_tws_connected, *tws_cycle, *setting_id) {
            Some(v) => r matches Some(s) && s@ == v,
            None => r is None,
        },
{
    let setting = SoundModeCycleSetting::from_setting_id(*setting_id)?;
    let cycle = if is_tws_connected {
        tws_cycle.tws_enabled
    } else {
        tws_cycle.tws_disabled
    };
    Some(
        match setting {
            SoundModeCycleSetting::NormalModeInCycle => Setting::Toggle { value: cycle.normal_mode },
            SoundModeCycleSetting::TransparencyModeInCycle => Setting::Toggle {
                value: cycle.transparency_mode,
            },
            SoundModeCycleSetting::NoiseCancelingModeInCycle => Setting::Toggle {
                value: cycle.noise_canceling_mode,
            },
        },
    )
}

/// Includes or leaves out a mode in the cycle in effect. A value that is not a `bool` is
/// refused and changes nothing.
pub fn set_inner(
    is_tws_connected: bool,
    tws_cycle: &mut AmbientSoundModeCycleTws,
    setting_id: &SettingId,
    value: Value,
) -> (r: Result<(), SettingHandlerError>)
    requires
        SoundModeCycleSetting::spec_from_setting_id(*setting_id) is Some,
    ensures
        match value {
            Value::Bool(b) => r is Ok && *final(tws_cycle) == spec_with_active_cycle(
                is_tws_connected,
                *old(tws_cycle),
                SoundModeCycleSetting::spec_from_setting_id(*setting_id)->0.spec_write(
                    spec_active_cycle(is_tws_connected, *old(tws_cycle)),
                    b,
                ),
            ),
            _ => (r matches Err(e) && Value::is_wrong_type(e, ValueKind::Bool)) && *final(tws_cycle) == *old(tws_cycle),
        },
{
    let setting = SoundModeCycleSetting::from_setting_id(*setting_id).unwrap();
    let b = value.try_as_bool()?;
    let mut cycle = if is_tws_connected {
        tws_cycle.tws_enabled
    } else {
        tws_cycle.tws_disabled
    };
    match setting {
        SoundModeCycleSetting::NormalModeInCycle => {
            cycle.normal_mode = b;
        },
        SoundModeCycleSetting::TransparencyModeInCycle => {
            cycle.transparency_mode = b;
        },
        SoundModeCycleSetting::NoiseCancelingModeInCycle => {
            cycle.noise_canceling_mode = b;
        },
    }
    if is_tws_connected {
        tws_cycle.tws_enabled = cycle;
    } else {
        tws_cycle.tws_disabled = cycle;
    }
    Ok(())
}

/// Setting a mode's toggle and reading it back gives the value set, and the other toggles and
/// the cycle not in effect keep their values.
pub proof fn lemma_cycle_set_then_get(
    is_tws_connected: bool,
    tws_cycle: AmbientSoundModeCycleTws,
    setting: SoundModeCycleSetting,
    other: SoundModeCycleSetting,
    value: bool,
)
    ensures
        ({
            let after = spec_with_active_cycle(
                is_tws_connected,
                tws_cycle,
                setting.spec_write(spec_active_cycle(is_tws_connected, tws_cycle), value),
            );
            &&& spec_get_inner(is_tws_connected, after, setting.spec_setting_id()) == Some(
                SettingView::Toggle { value },
            )
            &&& other != setting ==> spec_get_inner(is_tws_connected, after, other.spec_setting_id())
                == spec_get_inner(is_tws_connected, tws_cycle, other.spec_setting_id())
            &&& spec_active_cycle(!is_tws_connected, after) == spec_active_cycle(
                !is_tws_connected,
                tws_cycle,
            )
        }),
{
}

/// Shows and changes the sound mode cycle.
pub struct AmbientSoundModeCycleTwsSettingHandler {}

impl AmbientSoundModeCycleTwsSettingHandler {
    pub fn new() -> Self {
        AmbientSoundModeCycleTwsSettingHandler {}
    }

    pub open spec fn spec_settings() -> Seq<SettingId> {
        seq![
            SettingId::NormalModeInCycle,
            SettingId::TransparencyModeInCycle,
            SettingId::NoiseCancelingModeInCycle,
        ]
    }

    pub fn settings(&self) -> (r: Vec<SettingId>)
        ensures
            r@ == Self::spec_settings(),
    {
        let r = vec![
            SettingId::NormalModeInCycle,
            SettingId::TransparencyModeInCycle,
            SettingId::NoiseCancelingModeInCycle,
        ];
        assert(r@ =~= Self::spec_settings());
        r
    }

    pub fn get(
        &self,
        tws_status: &TwsStatus,
        tws_cycle: &AmbientSoundModeCycleTws,
        setting_id: &SettingId,
    ) -> (r: Option<Setting>)
        ensures
            match spec_get_inner(tws_status.is_connected, *tws_cycle, *setting_id) {
                Some(v) => r matches Some(s) && s@ == v,
                None => r is None,
            },
    {
        get_inner(tws_status.is_connected, tws_cycle, setting_id)
    }

    pub fn set(
        &self,
        tws_status: &TwsStatus,
        tws_cycle: &mut AmbientSoundModeCycleTws,
        setting_id: &SettingId,
        value: Value,
    ) -> (r: Result<(), SettingHandlerError>)
        requires
            SoundModeCycleSetting::spec_from_setting_id(*setting_id) is Some,
        ensures
            match value {
                Value::Bool(b) => r is Ok && *final(tws_cycle) == spec_with_active_cycle(
                    tws_status.is_connected,
                    *old(tws_cycle),
                    SoundModeCycleSetting::spec_from_setting_id(*setting_id)->0.spec_write(
                        spec_active_cycle(tws_status.is_connected, *old(tws_cycle)),
                        b,
                    ),
                ),
                _ => (r matches Err(e) && Value::is_wrong_type(e, ValueKind::Bool)) && *final(tws_cycle) == *old(tws_cycle),
            },
    {
        set_inner(tws_status.is_connected, tws_cycle, setting_id, value)
    }
}

/// Moves the device's sound mode cycle to a target. `P` is the handle through which the caller
/// sends packets.
pub struct AmbientSoundModeCycleTwsStateModifier<P> {
    packet_io: P,
}

impl<P> AmbientSoundModeCycleTwsStateModifier<P> {
    pub closed spec fn spec_packet_io(&self) -> P {
        self.packet_io
    }

    pub fn new(packet_io: P) -> (r: Self)
        ensures
            r.spec_packet_io() == packet_io,
    {
        AmbientSoundModeCycleTwsStateModifier { packet_io }
    }

    pub fn packet_io(&self) -> (r: &P)
        ensures
            *r == self.spec_packet_io(),
    {
        &self.packet_io
    }

    /// The cycle once the device has acknowledged the cycle of [`Self::plan`], if one was sent:
    /// the cycle sent, else the current one.
    pub fn acknowledge(
        &self,
        current: &AmbientSoundModeCycleTws,
        sent: &Option<AmbientSoundModeCycleTws>,
    ) -> (r: AmbientSoundModeCycleTws)
        ensures
            r == match *sent {
                Some(c) => c,
                None => *current,
            },
    {
        match sent {
            Some(c) => *c,
            None => *current,
        }
    }

    /// The cycle to send, if any; once the device has acknowledged it, the state's cycle
    /// becomes it. While a reset of the buttons to their defaults is pending nothing is sent,
    /// so that the reset is not undone.
    pub fn plan(
        &self,
        current: &AmbientSoundModeCycleTws,
        target: &AmbientSoundModeCycleTws,
        reset_pending: &ResetButtonConfigurationPending,
    ) -> (r: Option<AmbientSoundModeCycleTws>)
        ensures
            r == (if reset_pending.0 || *current == *target {
                None
            } else {
                Some(*target)
            }),
    {
        if reset_pending.0 {
            return None;
        }
        if *current == *target {
            return None;
        }
        Some(*target)
    }
}

/// Unless a reset of the buttons is pending, once the cycle that the plan sends is
/// acknowledged the cycle is the target.
pub proof fn lemma_acknowledged_cycle_is_target(
    current: AmbientSoundModeCycleTws,
    target: AmbientSoundModeCycleTws,
    reset_pending: ResetButtonConfigurationPending,
)
    requires
        !reset_pending.0,
    ensures
        ({
            let sent = if reset_pending.0 || current == target {
                None
            } else {
                Some(target)
            };
            let after = match sent {
                Some(c) => c,
                None => current,
            };
            after == target
        }),
{
}

/// The mode that each setting of the cycle shows and changes: normal mode, transparency mode
/// or noise canceling mode, in the cycle for the current connection state of the earbuds.
pub open spec fn spec_mode_of_setting(
    cycle: AmbientSoundModeCycle,
    setting_id: SettingId,
) -> Option<bool> {
    match setting_id {
        SettingId::NormalModeInCycle => Some(cycle.normal_mode),
        SettingId::TransparencyModeInCycle => Some(cycle.transparency_mode),
        SettingId::NoiseCancelingModeInCycle => Some(cycle.noise_canceling_mode),
        _ => None,
    }
}

/// Each toggle of the cycle shows whether its own mode is in the cycle for the current
/// connection state, and setting it changes that mode alone: the other two modes and the
/// cycle for the other connection state keep their values.
pub proof fn lemma_each_toggle_is_its_own_mode(
    is_tws_connected: bool,
    tws_cycle: AmbientSoundModeCycleTws,
    setting_id: SettingId,
    value: bool,
)
    ensures
        ({
            let active = if is_tws_connected {
                tws_cycle.tws_enabled
            } else {
                tws_cycle.tws_disabled
            };
            match spec_mode_of_setting(active, setting_id) {
                Some(m) => spec_get_inner(is_tws_connected, tws_cycle, setting_id) == Some(
                    SettingView::Toggle { value: m },
                ),
                None => spec_get_inner(is_tws_connected, tws_cycle, setting_id) is None,
            }
        }),
        SoundModeCycleSetting::spec_from_setting_id(setting_id) is Some ==> ({
            let setting = SoundModeCycleSetting::spec_from_setting_id(setting_id)->0;
            let after = spec_with_active_cycle(
                is_tws_connected,
                tws_cycle,
                setting.spec_write(spec_active_cycle(is_tws_connected, tws_cycle), value),
            );
            let (active, before, other, other_before) = if is_tws_connected {
                (after.tws_enabled, tws_cycle.tws_enabled, after.tws_disabled, tws_cycle.tws_disabled)
            } else {
                (after.tws_disabled, tws_cycle.tws_disabled, after.tws_enabled, tws_cycle.tws_enabled)
            };
            &&& other == other_before
            &&& forall|id: SettingId| #[trigger] spec_mode_of_setting(active, id) == if id == setting_id {
                Some(value)
            } else {
                spec_mode_of_setting(before, id)
            }
        }),
{
}

} // verus!
