//! On/off features that a device stores as one flag each, such as voice prompts or LDAC.

use vstd::prelude::*;

use crate::packet::{Command, Direction, Packet};
use crate::settings::{CategoryId, Setting, SettingHandlerError, SettingId, SettingView, Value, ValueKind};

verus! {

/// How a flag is shown and carried.
#[derive(Debug, Clone, Copy)]
pub struct FlagConfiguration {
    pub category_id: CategoryId,
    pub setting_id: SettingId,
    /// The command of the packet that sets the flag.
    pub set_command: Command,
    /// The command of the packets in which the device reports the flag, if it does.
    pub update_command: Option<Command>,
    /// Whether the setting shows the opposite of the flag, as for a flag that disables all
    /// buttons shown as a setting that enables them.
    pub is_inverted: bool,
}

impl FlagConfiguration {
    /// Voice prompts.
    pub fn voice_prompt() -> (r: Self)
        ensures
            r.setting_id == SettingId::VoicePrompt,
            r.set_command.0@ == seq![0x01u8, 0x90u8],
            r.update_command matches Some(c) && c.0@ == seq![0x01u8, 0x10u8],
            !r.is_inverted,
    {
        let update = Command([0x01, 0x10]);
        assert(update.0@ =~= seq![0x01u8, 0x10u8]);
        let r = FlagConfiguration {
            category_id: CategoryId::Miscellaneous,
            setting_id: SettingId::VoicePrompt,
            set_command: Command([0x01, 0x90]),
            update_command: Some(update),
            is_inverted: false,
        };
        assert(r.set_command.0@ =~= seq![0x01u8, 0x90u8]);
        r
    }

    /// LDAC audio.
    pub fn ldac() -> (r: Self)
        ensures
            r.setting_id == SettingId::Ldac,
            r.set_command.0@ == seq![0x01u8, 0xFFu8],
            r.update_command matches Some(c) && c.0@ == seq![0x01u8, 0x7Fu8],
            !r.is_inverted,
    {
        let update = Command([0x01, 0x7F]);
        assert(update.0@ =~= seq![0x01u8, 0x7Fu8]);
        let r = FlagConfiguration {
            category_id: CategoryId::Miscellaneous,
            setting_id: SettingId::Ldac,
            set_command: Command([0x01, 0xFF]),
            update_command: Some(update),
            is_inverted: false,
        };
        assert(r.set_command.0@ =~= seq![0x01u8, 0xFFu8]);
        r
    }

    /// The flag that disables all buttons, shown as a setting that enables them.
    pub fn disable_all_buttons() -> (r: Self)
        ensures
            r.category_id == CategoryId::ButtonConfiguration,
            r.setting_id == SettingId::ButtonsEnabled,
            r.set_command.0@ == seq![0x10u8, 0x94u8],
            r.update_command is None,
            r.is_inverted,
    {
        let r = FlagConfiguration {
            category_id: CategoryId::ButtonConfiguration,
            setting_id: SettingId::ButtonsEnabled,
            set_command: Command([0x10, 0x94]),
            update_command: None,
            is_inverted: true,
        };
        assert(r.set_command.0@ =~= seq![0x10u8, 0x94u8]);
        r
    }
}

/// Shows a flag as a toggle. A state without the flag shows nothing and refuses changes.
pub struct FlagSettingHandler {
    setting_id: SettingId,
    is_inverted: bool,
}

impl FlagSettingHandler {
    pub closed spec fn spec_setting_id(&self) -> SettingId {
        self.setting_id
    }

    pub closed spec fn spec_is_inverted(&self) -> bool {
        self.is_inverted
    }

    pub fn new(setting_id: SettingId, is_inverted: bool) -> (r: Self)
        ensures
            r.spec_setting_id() == setting_id,
            r.spec_is_inverted() == is_inverted,
    {
        FlagSettingHandler { setting_id, is_inverted }
    }

    pub open spec fn spec_invert_if_needed(&self, value: bool) -> bool {
        if self.spec_is_inverted() {
            !value
        } else {
            value
        }
    }

    /// The value shown for a flag, or the flag for a value shown.
    pub fn invert_if_needed(&self, value: bool) -> (r: bool)
        ensures
            r == self.spec_invert_if_needed(value),
    {
        if self.is_inverted {
            !value
        } else {
            value
        }
    }

    pub fn settings(&self) -> (r: Vec<SettingId>)
        ensures
            r@ == seq![self.spec_setting_id()],
    {
        let r = vec![self.setting_id];
        assert(r@ =~= seq![self.spec_setting_id()]);
        r
    }

    pub fn get(&self, flag: &Option<bool>, setting_id: &SettingId) -> (r: Option<Setting>)
        ensures
            match *flag {
                Some(f) => r matches Some(s) && s@ == SettingView::Toggle {
                    value: self.spec_invert_if_needed(f),
                },
                None => r is None,
            },
    {
        match flag {
            Some(f) => Some(Setting::Toggle { value: self.invert_if_needed(*f) }),
            None => None,
        }
    }

    pub fn set(&self, flag: &mut Option<bool>, setting_id: &SettingId, value: Value) -> (r: Result<
        (),
        SettingHandlerError,
    >)
        ensures
            match *old(flag) {
                Some(_) => match value {
                    Value::Bool(b) => r is Ok && *final(flag) == Some(self.spec_invert_if_needed(b)),
                    _ => (r matches Err(e) && Value::is_wrong_type(e, ValueKind::Bool)) && *final(flag)
                        == *old(flag),
                },
                None => r matches Err(SettingHandlerError::MissingData) && *final(flag) is None,
            },
    {
        match flag {
            Some(_) => {
                let b = value.try_as_bool()?;
                *flag = Some(self.invert_if_needed(b));
                Ok(())
            },
            None => Err(SettingHandlerError::MissingData),
        }
    }
}

/// Showing a value and setting it back leaves the flag as it was, inverted or not.
pub proof fn lemma_flag_shown_value_sets_flag(handler: FlagSettingHandler, flag: bool)
    ensures
        handler.spec_invert_if_needed(handler.spec_invert_if_needed(flag)) == flag,
{
}

/// Applies the device's reports of a flag to the state.
#[derive(Debug, Default, Clone, Copy)]
pub struct FlagPacketHandler {}

impl FlagPacketHandler {
    /// Takes over a reported flag value, when the state has the flag at all. The result tells
    /// whether the flag changed.
    pub fn handle_packet(&self, flag: &mut Option<bool>, update: bool) -> (r: bool)
        ensures
            match *old(flag) {
                Some(f) => *final(flag) == Some(update) && r == (f != update),
                None => *final(flag) is None && !r,
            },
    {
        match flag {
            Some(f) => {
                let modified = *f != update;
                *flag = Some(update);
                modified
            },
            None => false,
        }
    }
}

/// Moves a flag to its target. `P` is the handle through which the caller sends packets.
pub struct FlagStateModifier<P> {
    packet_io: P,
    command: Command,
}

impl<P> FlagStateModifier<P> {
    pub closed spec fn spec_command(&self) -> Command {
        self.command
    }

    pub fn new(packet_io: P, command: Command) -> (r: Self)
        ensures
            r.spec_command() == command,
            r.spec_packet_io() == packet_io,
    {
        FlagStateModifier { packet_io, command }
    }

    pub closed spec fn spec_packet_io(&self) -> P {
        self.packet_io
    }

    pub fn packet_io(&self) -> (r: &P)
        ensures
            *r == self.spec_packet_io(),
    {
        &self.packet_io
    }

    /// The flag once the device has acknowledged the packet of [`Self::plan`]: the target's
    /// when it has one, else the current one, as nothing was sent.
    pub fn acknowledge(&self, current: &Option<bool>, target: &Option<bool>) -> (r: Option<bool>)
        ensures
            r == (if target is Some {
                *target
            } else {
                *current
            }),
    {
        match target {
            Some(t) => Some(*t),
            None => *current,
        }
    }

    /// The packet that sets the flag, when the target has the flag and the current state has
    /// another value or none; its body is the flag as one byte. Once the device has
    /// acknowledged it, the state's flag becomes the target's.
    pub fn plan(&self, current: &Option<bool>, target: &Option<bool>) -> (r: Option<Packet>)
        ensures
            match *target {
                Some(t) => if *current == Some(t) {
                    r is None
                } else {
                    r matches Some(p) && p.direction == Direction::Outbound && p.command
                        == self.spec_command() && p.body@ == seq![if t { 1u8 } else { 0u8 }]
                },
                None => r is None,
            },
    {
        match target {
            Some(t) => {
                let same = match current {
                    Some(c) => *c == *t,
                    None => false,
                };
                if same {
                    None
                } else {
                    let body = vec![if *t { 1u8 } else { 0u8 }];
                    Some(Packet { direction: Direction::Outbound, command: self.command, body })
                }
            },
            None => None,
        }
    }
}

} // verus!
