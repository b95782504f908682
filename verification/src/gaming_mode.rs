//! Gaming mode: a low latency mode shown as a toggle and reported by the device.

use vstd::prelude::*;

use crate::packet::{Command, Direction, Packet};
use crate::settings::{Setting, SettingHandlerError, SettingId, SettingView, Value, ValueKind};
use crate::structures::GamingMode;

verus! {

/// The settings of the gaming mode module.
#[derive(Debug, Clone, Copy, PartialEq, Eq, Hash, Structural)]
pub enum GamingModeSetting {
    GamingMode,
}

impl GamingModeSetting {
    pub open spec fn spec_from_setting_id(id: SettingId) -> Option<Self> {
        match id {
            SettingId::GamingMode => Some(GamingModeSetting::GamingMode),
            _ => None,
        }
    }

    pub fn from_setting_id(id: SettingId) -> (r: Option<Self>)
        ensures
            r == Self::spec_from_setting_id(id),
    {
        match id {
            SettingId::GamingMode => Some(GamingModeSetting::GamingMode),
            _ => None,
        }
    }
}

/// Shows gaming mode as a toggle.
#[derive(Debug, Default, Clone, Copy)]
pub struct GamingModeSettingHandler {}

impl GamingModeSettingHandler {
    pub fn settings(&self) -> (r: Vec<SettingId>)
        ensures
            r@ == seq![SettingId::GamingMode],
    {
        let r = vec![SettingId::GamingMode];
        assert(r@ =~= seq![SettingId::GamingMode]);
        r
    }

    pub fn get(&self, gaming_mode: &GamingMode, setting_id: &SettingId) -> (r: Option<Setting>)
        ensures
            match GamingModeSetting::spec_from_setting_id(*setting_id) {
                Some(_) => r matches Some(s) && s@ == SettingView::Toggle {
                    value: gaming_mode.is_enabled,
                },
                None => r is None,
            },
    {
        let setting = GamingModeSetting::from_setting_id(*setting_id)?;
        match setting {
            GamingModeSetting::GamingMode => Some(Setting::Toggle { value: gaming_mode.is_enabled }),
        }
    }

    pub fn set(&self, gaming_mode: &mut GamingMode, setting_id: &SettingId, value: Value) -> (r:
        Result<(), SettingHandlerError>)
        requires
            GamingModeSetting::spec_from_setting_id(*setting_id) is Some,
        ensures
            match value {
                Value::Bool(b) => r is Ok && final(gaming_mode).is_enabled == b,
                _ => (r matches Err(e) && Value::is_wrong_type(e, ValueKind::Bool)) && *final(gaming_mode) == *old(gaming_mode),
            },
    {
        let setting = GamingModeSetting::from_setting_id(*setting_id).unwrap();
        match setting {
            GamingModeSetting::GamingMode => {
                let is_enabled = value.try_as_bool()?;
                *gaming_mode = GamingMode { is_enabled };
            },
        }
        Ok(())
    }
}

/// Applies the device's gaming mode reports to the state.
#[derive(Debug, Default, Clone, Copy)]
pub struct GamingModePacketHandler {}

impl GamingModePacketHandler {
    /// Takes over the reported gaming mode; the result tells whether it changed.
    pub fn handle_packet(&self, gaming_mode: &mut GamingMode, update: GamingMode) -> (r: bool)
        ensures
            *final(gaming_mode) == update,
            r == (update != *old(gaming_mode)),
    {
        let modified = update != *gaming_mode;
        *gaming_mode = update;
        modified
    }
}

/// Moves gaming mode to its target. `P` is the handle through which the caller sends packets.
pub struct GamingModeStateModifier<P> {
    packet_io: P,
    command: Command,
}

impl<P> GamingModeStateModifier<P> {
    /// The command of the packet that sets gaming mode.
    pub closed spec fn spec_command(&self) -> Command {
        self.command
    }

    pub closed spec fn spec_packet_io(&self) -> P {
        self.packet_io
    }

    pub fn new(packet_io: P, command: Command) -> (r: Self)
        ensures
            r.spec_command() == command,
            r.spec_packet_io() == packet_io,
    {
        GamingModeStateModifier { packet_io, command }
    }

    pub fn packet_io(&self) -> (r: &P)
        ensures
            *r == self.spec_packet_io(),
    {
        &self.packet_io
    }

    /// Gaming mode once the device has acknowledged the packet of [`Self::plan`]: the
    /// target's, which equals the current one when nothing was sent.
    pub fn acknowledge(&self, current: &GamingMode, target: &GamingMode) -> (r: GamingMode)
        ensures
            r == *target,
            current.is_enabled == target.is_enabled ==> r == *current,
    {
        GamingMode { is_enabled: target.is_enabled }
    }

    /// The packet that sets gaming mode, when the target differs from the current state; its
    /// body is the flag as one byte. Once the device has acknowledged it, the state's gaming
    /// mode becomes the target's.
    pub fn plan(&self, current: &GamingMode, target: &GamingMode) -> (r: Option<Packet>)
        ensures
            if current.is_enabled == target.is_enabled {
                r is None
            } else {
                r matches Some(p) && p.direction == Direction::Outbound && p.command
                    == self.spec_command() && p.body@ == seq![if target.is_enabled { 1u8 } else { 0u8 }]
            },
    {
        if current.is_enabled == target.is_enabled {
            None
        } else {
            let body = vec![if target.is_enabled { 1u8 } else { 0u8 }];
            Some(Packet { direction: Direction::Outbound, command: self.command, body })
        }
    }
}

} // verus!
