//! The modules of a device: the setting handlers of each category, the packet handler of each
//! inbound command, and the state modifiers that move the device to a target state, in order.

use std::collections::HashMap;

use vstd::prelude::*;

use crate::a3959;
use crate::a3968;
use crate::auto_power_off::{AutoPowerOffDuration, AutoPowerOffSettingHandler};
use crate::battery::{
    BatteryChargingPacketHandler, BatteryLevelPacketHandler, BatterySettingHandler, CaseBatteryLevelConfiguration,
    CaseBatteryLevelSettingHandler, DualBatteryConfiguration,
};
use crate::button_configuration;
use crate::button_configuration::ButtonConfigurationSettings;
use crate::device_info::{
    SerialNumberAndDualFirmwareVersionPacketHandler, SerialNumberAndFirmwareVersionSettingHandler,
    TwsStatusSettingHandler,
};
use crate::dual_connections::{
    DualConnectionsDevicePacketHandler, DualConnectionsSettingHandler, DualConnectionsStateModifier,
};
use crate::equalizer::{
    EqualizerModuleSettings, EqualizerSettingHandler, EqualizerStateModifier,
    EqualizerStateModifierOptions, EqualizerWithBasicHearIdStateModifier,
    EqualizerWithCustomHearIdStateModifier,
};
use crate::flag::{FlagConfiguration, FlagPacketHandler, FlagSettingHandler, FlagStateModifier};
use crate::import_export::ImportExportSettingHandler;
use crate::gaming_mode::{GamingModePacketHandler, GamingModeSettingHandler, GamingModeStateModifier};
use crate::limit_high_volume::{LimitHighVolumeSettingHandler, LimitHighVolumeStateModifier};
use crate::packet::{Command, Packet};
use crate::reset_buttons::{ResetButtonConfigurationSettingHandler, ResetButtonConfigurationStateModifier};
use crate::settings::{CategoryId, SettingId};
use crate::sound_mode_cycle::{
    AmbientSoundModeCycleTwsSettingHandler, AmbientSoundModeCycleTwsStateModifier,
};

verus! {

/// A setting handler of one of the modules.
pub enum SettingHandler {
    A3959ButtonConfiguration(a3959::ButtonConfigurationSettingHandler),
    AmbientSoundModeCycleTws(AmbientSoundModeCycleTwsSettingHandler),
    AutoPowerOff(AutoPowerOffSettingHandler),
    ButtonConfiguration(button_configuration::ButtonConfigurationSettingHandler),
    CaseBatteryLevel(CaseBatteryLevelSettingHandler),
    DualBattery(BatterySettingHandler),
    DualConnections(DualConnectionsSettingHandler),
    Equalizer(EqualizerSettingHandler),
    Flag(FlagSettingHandler),
    GamingMode(GamingModeSettingHandler),
    ImportExport(ImportExportSettingHandler),
    LimitHighVolume(LimitHighVolumeSettingHandler),
    ResetButtonConfiguration(ResetButtonConfigurationSettingHandler),
    SerialNumberAndDualFirmwareVersion(SerialNumberAndFirmwareVersionSettingHandler),
    TwsStatus(TwsStatusSettingHandler),
}

impl SettingHandler {
    /// The settings the handler shows, in order.
    pub open spec fn spec_settings(&self) -> Seq<SettingId> {
        match self {
            SettingHandler::A3959ButtonConfiguration(_) => a3959::ButtonConfigurationSettingHandler::spec_settings(),
            SettingHandler::AmbientSoundModeCycleTws(_) => AmbientSoundModeCycleTwsSettingHandler::spec_settings(),
            SettingHandler::AutoPowerOff(_) => seq![SettingId::AutoPowerOff],
            SettingHandler::ButtonConfiguration(h) => h.spec_configuration().order@.map_values(
                |b: button_configuration::Button| b.spec_setting_id(),
            ),
            SettingHandler::CaseBatteryLevel(_) => seq![SettingId::CaseBatteryLevel],
            SettingHandler::DualBattery(_) => BatterySettingHandler::spec_settings(),
            SettingHandler::DualConnections(_) => seq![
                SettingId::DualConnections,
                SettingId::DualConnectionsDevices,
            ],
            SettingHandler::Equalizer(_) => seq![
                SettingId::PresetEqualizerProfile,
                SettingId::CustomEqualizerProfile,
                SettingId::VolumeAdjustments,
            ],
            SettingHandler::Flag(h) => seq![h.spec_setting_id()],
            SettingHandler::GamingMode(_) => seq![SettingId::GamingMode],
            SettingHandler::ImportExport(_) => seq![
                SettingId::ImportCustomEqualizerProfiles,
                SettingId::ExportCustomEqualizerProfiles,
                SettingId::ExportCustomEqualizerProfilesOutput,
            ],
            SettingHandler::LimitHighVolume(_) => LimitHighVolumeSettingHandler::spec_settings(),
            SettingHandler::ResetButtonConfiguration(_) => seq![SettingId::ResetButtonsToDefault],
            SettingHandler::SerialNumberAndDualFirmwareVersion(_) => seq![
                SettingId::SerialNumber,
                SettingId::FirmwareVersionLeft,
                SettingId::FirmwareVersionRight,
            ],
            SettingHandler::TwsStatus(_) => seq![SettingId::TwsStatus, SettingId::HostDevice],
        }
    }

    pub fn settings(&self) -> (r: Vec<SettingId>)
        ensures
            r@ == self.spec_settings(),
    {
        match self {
            SettingHandler::A3959ButtonConfiguration(h) => h.settings(),
            SettingHandler::AmbientSoundModeCycleTws(h) => h.settings(),
            SettingHandler::AutoPowerOff(h) => h.settings(),
            SettingHandler::ButtonConfiguration(h) => h.settings(),
            SettingHandler::CaseBatteryLevel(h) => h.settings(),
            SettingHandler::DualBattery(h) => h.settings(),
            SettingHandler::DualConnections(h) => h.settings(),
            SettingHandler::Equalizer(h) => h.settings(),
            SettingHandler::Flag(h) => h.settings(),
            SettingHandler::GamingMode(h) => h.settings(),
            SettingHandler::ImportExport(h) => h.settings(),
            SettingHandler::LimitHighVolume(h) => h.settings(),
            SettingHandler::ResetButtonConfiguration(h) => h.settings(),
            SettingHandler::SerialNumberAndDualFirmwareVersion(h) => h.settings(),
            SettingHandler::TwsStatus(h) => h.settings(),
        }
    }
}

/// A packet handler of one of the modules.
pub enum PacketHandler {
    A3959SoundModes(a3959::SoundModesPacketHandler),
    A3968StateUpdate(a3968::StateUpdatePacketHandler),
    BatteryCharging(BatteryChargingPacketHandler),
    BatteryLevel(BatteryLevelPacketHandler),
    DualConnectionsDevice(DualConnectionsDevicePacketHandler),
    Flag(FlagPacketHandler),
    GamingMode(GamingModePacketHandler),
    SerialNumberAndDualFirmwareVersion(SerialNumberAndDualFirmwareVersionPacketHandler),
}

/// A state modifier of one of the modules. `P` is the handle through which packets are sent.
pub enum StateModifier<P> {
    A3959ButtonConfiguration(a3959::ButtonConfigurationStateModifier<P>),
    A3959SoundModes(a3959::SoundModesStateModifier<P>),
    AmbientSoundModeCycleTws(AmbientSoundModeCycleTwsStateModifier<P>),
    ButtonConfiguration(button_configuration::ButtonConfigurationStateModifier<P>),
    DualConnections(DualConnectionsStateModifier<P>),
    Equalizer(EqualizerStateModifier<P>),
    EqualizerWithBasicHearId(EqualizerWithBasicHearIdStateModifier<P>),
    EqualizerWithCustomHearId(EqualizerWithCustomHearIdStateModifier<P>),
    Flag(FlagStateModifier<P>),
    GamingMode(GamingModeStateModifier<P>),
    LimitHighVolume(LimitHighVolumeStateModifier<P>),
    /// The packet is the request whose answer refreshes the button configuration.
    ResetButtonConfiguration(ResetButtonConfigurationStateModifier<P, Packet>),
}

/// Whether two commands are the same.
pub open spec fn same_command(a: Command, b: Command) -> bool {
    a.0@ == b.0@
}

/// The key of a command among the packet handlers: its two bytes as one number.
pub open spec fn command_key(c: Command) -> u16 {
    (c.0[0] as int * 256 + c.0[1] as int) as u16
}

fn key_of(c: Command) -> (r: u16)
    ensures
        r == command_key(c),
{
    c.0[0] as u16 * 256 + c.0[1] as u16
}

/// Two commands have the same key exactly when they are the same.
pub proof fn lemma_command_key(a: Command, b: Command)
    ensures
        command_key(a) == command_key(b) <==> same_command(a, b),
{
    if same_command(a, b) {
        assert(a.0[0] == a.0@[0] && a.0[1] == a.0@[1]);
        assert(b.0[0] == b.0@[0] && b.0[1] == b.0@[1]);
    }
    if command_key(a) == command_key(b) {
        assert(a.0@ =~= b.0@);
    }
}

impl<P> Default for ModuleCollection<P> {
    /// A collection without modules.
    fn default() -> (r: Self)
        ensures
            r.spec_setting_handlers().len() == 0,
            r.spec_packet_handlers() == Map::<u16, PacketHandler>::empty(),
            r.spec_state_modifiers().len() == 0,
    {
        ModuleCollection::new()
    }
}

/// The settings of a device's modules and how it handles packets and changes.
pub struct ModuleCollection<P> {
    setting_handlers: Vec<(CategoryId, SettingHandler)>,
    packet_handlers: HashMap<u16, PacketHandler>,
    state_modifiers: Vec<StateModifier<P>>,
}

impl<P> ModuleCollection<P> {
    /// The setting handlers with their categories, in the order they were added.
    pub closed spec fn spec_setting_handlers(&self) -> Seq<(CategoryId, SettingHandler)> {
        self.setting_handlers@
    }

    /// The packet handlers, by the key of their command.
    pub closed spec fn spec_packet_handlers(&self) -> Map<u16, PacketHandler> {
        self.packet_handlers@
    }

    /// The state modifiers, in the order they run.
    pub closed spec fn spec_state_modifiers(&self) -> Seq<StateModifier<P>> {
        self.state_modifiers@
    }

    /// The packet handler for `command`, if any.
    pub open spec fn spec_packet_handler(&self, command: Command) -> Option<PacketHandler> {
        if self.spec_packet_handlers().contains_key(command_key(command)) {
            Some(self.spec_packet_handlers()[command_key(command)])
        } else {
            None
        }
    }

    pub fn new() -> (r: Self)
        ensures
            r.spec_setting_handlers().len() == 0,
            r.spec_packet_handlers() == Map::<u16, PacketHandler>::empty(),
            r.spec_state_modifiers().len() == 0,
    {
        ModuleCollection {
            setting_handlers: Vec::new(),
            packet_handlers: HashMap::new(),
            state_modifiers: Vec::new(),
        }
    }

    pub fn setting_handlers(&self) -> (r: &Vec<(CategoryId, SettingHandler)>)
        ensures
            r@ == self.spec_setting_handlers(),
    {
        &self.setting_handlers
    }

    pub fn state_modifiers(&self) -> (r: &Vec<StateModifier<P>>)
        ensures
            r@ == self.spec_state_modifiers(),
    {
        &self.state_modifiers
    }

    /// Adds a setting handler to a category.
    pub fn add_setting_handler(&mut self, category_id: CategoryId, handler: SettingHandler)
        ensures
            final(self).spec_setting_handlers() == old(self).spec_setting_handlers().push(
                (category_id, handler),
            ),
            final(self).spec_packet_handlers() == old(self).spec_packet_handlers(),
            final(self).spec_state_modifiers() == old(self).spec_state_modifiers(),
    {
        self.setting_handlers.push((category_id, handler));
    }

    /// Makes `handler` the packet handler for `command`, in place of any earlier one.
    pub fn set_packet_handler(&mut self, command: Command, handler: PacketHandler)
        ensures
            final(self).spec_packet_handlers() == old(self).spec_packet_handlers().insert(
                command_key(command),
                handler,
            ),
            final(self).spec_packet_handler(command) == Some(handler),
            forall|other: Command|
                !same_command(other, command) ==> #[trigger] final(self).spec_packet_handler(other)
                    == old(self).spec_packet_handler(other),
            final(self).spec_setting_handlers() == old(self).spec_setting_handlers(),
            final(self).spec_state_modifiers() == old(self).spec_state_modifiers(),
    {
        broadcast use vstd::std_specs::hash::group_hash_axioms;

        self.packet_handlers.insert(key_of(command), handler);
        assert forall|other: Command| !same_command(other, command) implies #[trigger] self.spec_packet_handler(
            other,
        ) == old(self).spec_packet_handler(other) by {
            lemma_command_key(other, command);
        }
    }

    /// The packet handler for `command`, if any.
    pub fn packet_handler(&self, command: Command) -> (r: Option<&PacketHandler>)
        ensures
            match self.spec_packet_handler(command) {
                Some(h) => r == Some(&h),
                None => r is None,
            },
    {
        broadcast use vstd::std_specs::hash::group_hash_axioms;

        let key = key_of(command);
        self.packet_handlers.get(&key)
    }

    /// Runs after the state modifiers added before it.
    pub fn add_state_modifier(&mut self, modifier: StateModifier<P>)
        ensures
            final(self).spec_state_modifiers() == old(self).spec_state_modifiers().push(modifier),
            final(self).spec_setting_handlers() == old(self).spec_setting_handlers(),
            final(self).spec_packet_handlers() == old(self).spec_packet_handlers(),
    {
        self.state_modifiers.push(modifier);
    }

    /// The settings of a category, in the order their handlers were added.
    pub open spec fn spec_settings_in_category(&self, category_id: CategoryId) -> Seq<SettingId>
        decreases self.spec_setting_handlers().len(),
    {
        settings_in_category(self.spec_setting_handlers(), category_id)
    }

    pub fn settings_in_category(&self, category_id: CategoryId) -> (r: Vec<SettingId>)
        ensures
            r@ == settings_in_category(self.spec_setting_handlers(), category_id),
    {
        let mut r: Vec<SettingId> = Vec::new();
        let mut i: usize = 0;
        while i < self.setting_handlers.len()
            invariant
                i <= self.setting_handlers@.len(),
                r@ == settings_in_category(self.setting_handlers@.subrange(0, i as int), category_id),
            decreases self.setting_handlers@.len() - i,
        {
            let ghost prefix = self.setting_handlers@.subrange(0, i as int);
            let ghost next = self.setting_handlers@.subrange(0, i + 1);
            assert(next.drop_last() =~= prefix);
            if self.setting_handlers[i].0 == category_id {
                let more = self.setting_handlers[i].1.settings();
                let mut j: usize = 0;
                let ghost start = r@;
                while j < more.len()
                    invariant
                        j <= more@.len(),
                        r@ == start + more@.subrange(0, j as int),
                    decreases more@.len() - j,
                {
                    r.push(more[j]);
                    j = j + 1;
                    assert(r@ =~= start + more@.subrange(0, j as int));
                }
                assert(more@.subrange(0, j as int) =~= more@);
            }
            i = i + 1;
        }
        assert(self.setting_handlers@.subrange(0, i as int) =~= self.setting_handlers@);
        r
    }

    /// Index of the first handler that shows `setting_id`.
    pub fn handler_index(&self, setting_id: SettingId) -> (r: Option<usize>)
        ensures
            match r {
                Some(i) => i < self.spec_setting_handlers().len()
                    && self.spec_setting_handlers()[i as int].1.spec_settings().contains(setting_id)
                    && forall|k: int|
                    0 <= k < i ==> !(#[trigger] self.spec_setting_handlers()[k]).1.spec_settings().contains(
                        setting_id,
                    ),
                None => forall|k: int|
                    0 <= k < self.spec_setting_handlers().len() ==> !(
                    #[trigger] self.spec_setting_handlers()[k]).1.spec_settings().contains(setting_id),
            },
    {
        let mut i: usize = 0;
        while i < self.setting_handlers.len()
            invariant
                i <= self.setting_handlers@.len(),
                forall|k: int|
                    0 <= k < i ==> !(#[trigger] self.setting_handlers@[k]).1.spec_settings().contains(
                        setting_id,
                    ),
            decreases self.setting_handlers@.len() - i,
        {
            let ids = self.setting_handlers[i].1.settings();
            let mut j: usize = 0;
            while j < ids.len()
                invariant
                    i < self.setting_handlers@.len(),
                    ids@ == self.setting_handlers@[i as int].1.spec_settings(),
                    forall|k: int|
                        0 <= k < i ==> !(#[trigger] self.setting_handlers@[k]).1.spec_settings().contains(
                            setting_id,
                        ),
                    j <= ids@.len(),
                    forall|k: int| 0 <= k < j ==> ids@[k] != setting_id,
                decreases ids@.len() - j,
            {
                if ids[j] == setting_id {
                    assert(ids@[j as int] == setting_id);
                    return Some(i);
                }
                j = j + 1;
            }
            i = i + 1;
        }
        None
    }
}

/// The settings of the handlers of a category, in order.
pub open spec fn settings_in_category(handlers: Seq<(CategoryId, SettingHandler)>, category_id: CategoryId) -> Seq<SettingId>
    decreases handlers.len(),
{
    if handlers.len() == 0 {
        seq![]
    } else {
        let rest = settings_in_category(handlers.drop_last(), category_id);
        if handlers.last().0 == category_id {
            rest + handlers.last().1.spec_settings()
        } else {
            rest
        }
    }
}

impl<P> ModuleCollection<P> {
    /// The A3959's button presses: their settings, and the modifier that sets them.
    pub fn add_a3959_button_configuration(&mut self, packet_io: P)
        ensures
            final(self).spec_setting_handlers() == old(self).spec_setting_handlers().push(
                (
                    CategoryId::ButtonConfiguration,
                    SettingHandler::A3959ButtonConfiguration(
                        a3959::ButtonConfigurationSettingHandler {},
                    ),
                ),
            ),
            final(self).spec_state_modifiers().len() == old(self).spec_state_modifiers().len() + 1,
            final(self).spec_state_modifiers().last() matches StateModifier::A3959ButtonConfiguration(m)
                && m.spec_packet_io() == packet_io,
            final(self).spec_state_modifiers().drop_last() == old(self).spec_state_modifiers(),
            final(self).spec_packet_handlers() == old(self).spec_packet_handlers(),
    {
        self.add_setting_handler(
            CategoryId::ButtonConfiguration,
            SettingHandler::A3959ButtonConfiguration(a3959::ButtonConfigurationSettingHandler::new()),
        );
        self.add_state_modifier(
            StateModifier::A3959ButtonConfiguration(
                a3959::ButtonConfigurationStateModifier::new(packet_io),
            ),
        );
    }

    /// The A3959's sound modes: the handler of its sound modes packets and the modifier that
    /// changes them.
    pub fn add_a3959_sound_modes(&mut self, packet_io: P)
        ensures
            final(self).spec_packet_handler(a3959::A3959SoundModes::spec_command()) == Some(
                PacketHandler::A3959SoundModes(a3959::SoundModesPacketHandler {}),
            ),
            final(self).spec_state_modifiers().len() == old(self).spec_state_modifiers().len() + 1,
            final(self).spec_state_modifiers().last() matches StateModifier::A3959SoundModes(m)
                && m.spec_packet_io() == packet_io,
            final(self).spec_state_modifiers().drop_last() == old(self).spec_state_modifiers(),
            final(self).spec_setting_handlers() == old(self).spec_setting_handlers(),
    {
        self.set_packet_handler(
            a3959::SoundModesPacketHandler::command(),
            PacketHandler::A3959SoundModes(a3959::SoundModesPacketHandler {}),
        );
        self.add_state_modifier(
            StateModifier::A3959SoundModes(a3959::SoundModesStateModifier::new(packet_io)),
        );
    }

    /// The A3968's state update packets.
    pub fn add_state_update(&mut self)
        ensures
            final(self).spec_packet_handler(a3968::A3968StateUpdatePacket::spec_command()) == Some(
                PacketHandler::A3968StateUpdate(a3968::StateUpdatePacketHandler {}),
            ),
            final(self).spec_setting_handlers() == old(self).spec_setting_handlers(),
            final(self).spec_state_modifiers() == old(self).spec_state_modifiers(),
    {
        self.set_packet_handler(
            a3968::A3968StateUpdatePacket::command(),
            PacketHandler::A3968StateUpdate(a3968::StateUpdatePacketHandler {}),
        );
    }

    /// The sound mode cycle of earbuds that keep one per connection state.
    pub fn add_ambient_sound_mode_cycle_tws(&mut self, packet_io: P)
        ensures
            final(self).spec_setting_handlers() == old(self).spec_setting_handlers().push(
                (
                    CategoryId::ButtonConfiguration,
                    SettingHandler::AmbientSoundModeCycleTws(AmbientSoundModeCycleTwsSettingHandler {}),
                ),
            ),
            final(self).spec_state_modifiers().len() == old(self).spec_state_modifiers().len() + 1,
            final(self).spec_state_modifiers().last() matches StateModifier::AmbientSoundModeCycleTws(m)
                && m.spec_packet_io() == packet_io,
            final(self).spec_state_modifiers().drop_last() == old(self).spec_state_modifiers(),
            final(self).spec_packet_handlers() == old(self).spec_packet_handlers(),
    {
        self.add_setting_handler(
            CategoryId::ButtonConfiguration,
            SettingHandler::AmbientSoundModeCycleTws(AmbientSoundModeCycleTwsSettingHandler::new()),
        );
        self.add_state_modifier(
            StateModifier::AmbientSoundModeCycleTws(
                AmbientSoundModeCycleTwsStateModifier::new(packet_io),
            ),
        );
    }

    /// The auto power off select, among the given delays.
    pub fn add_auto_power_off(&mut self, packet_io: P, durations: Vec<AutoPowerOffDuration>)
        ensures
            final(self).spec_setting_handlers().len() == old(self).spec_setting_handlers().len() + 1,
            final(self).spec_setting_handlers().drop_last() == old(self).spec_setting_handlers(),
            final(self).spec_setting_handlers().last().0 == CategoryId::Miscellaneous,
            final(self).spec_setting_handlers().last().1 matches SettingHandler::AutoPowerOff(h)
                && h.spec_durations() == durations@,
            final(self).spec_packet_handlers() == old(self).spec_packet_handlers(),
            final(self).spec_state_modifiers() == old(self).spec_state_modifiers(),
    {
        self.add_setting_handler(
            CategoryId::Miscellaneous,
            SettingHandler::AutoPowerOff(AutoPowerOffSettingHandler::new(durations)),
        );
    }

    /// The button presses of a device laid out as `settings` says.
    pub fn add_button_configuration(&mut self, packet_io: P, settings: ButtonConfigurationSettings)
        requires
            settings.is_well_formed(),
        ensures
            final(self).spec_setting_handlers().len() == old(self).spec_setting_handlers().len() + 1,
            final(self).spec_setting_handlers().drop_last() == old(self).spec_setting_handlers(),
            final(self).spec_setting_handlers().last().0 == CategoryId::ButtonConfiguration,
            final(self).spec_setting_handlers().last().1 matches SettingHandler::ButtonConfiguration(h)
                && h.spec_configuration() == settings,
            final(self).spec_state_modifiers().len() == old(self).spec_state_modifiers().len() + 1,
            final(self).spec_state_modifiers().last() matches StateModifier::ButtonConfiguration(m)
                && m.spec_packet_io() == packet_io,
            final(self).spec_state_modifiers().drop_last() == old(self).spec_state_modifiers(),
            final(self).spec_packet_handlers() == old(self).spec_packet_handlers(),
    {
        let modifier = button_configuration::ButtonConfigurationStateModifier::new(packet_io, &settings);
        self.add_setting_handler(
            CategoryId::ButtonConfiguration,
            SettingHandler::ButtonConfiguration(
                button_configuration::ButtonConfigurationSettingHandler::new(settings),
            ),
        );
        self.add_state_modifier(StateModifier::ButtonConfiguration(modifier));
    }

    /// The case's battery level.
    pub fn add_case_battery_level(&mut self, configuration: CaseBatteryLevelConfiguration)
        ensures
            final(self).spec_setting_handlers().len() == old(self).spec_setting_handlers().len() + 1,
            final(self).spec_setting_handlers().drop_last() == old(self).spec_setting_handlers(),
            final(self).spec_setting_handlers().last().0 == CategoryId::DeviceInformation,
            final(self).spec_setting_handlers().last().1 matches SettingHandler::CaseBatteryLevel(h)
                && h.spec_max_level() == configuration.max_level && h.spec_level_offset()
                == configuration.level_offset,
            final(self).spec_packet_handlers() == old(self).spec_packet_handlers(),
            final(self).spec_state_modifiers() == old(self).spec_state_modifiers(),
    {
        self.add_setting_handler(
            CategoryId::DeviceInformation,
            SettingHandler::CaseBatteryLevel(CaseBatteryLevelSettingHandler::new(&configuration)),
        );
    }

    /// Both earbuds' batteries, the handler of the battery level reports that come with
    /// `battery_level_command` and the handler of the charging reports that come with
    /// `battery_charging_command`.
    pub fn add_dual_battery(
        &mut self,
        configuration: DualBatteryConfiguration,
        battery_level_command: Command,
        battery_charging_command: Command,
    )
        ensures
            final(self).spec_setting_handlers().len() == old(self).spec_setting_handlers().len() + 1,
            final(self).spec_setting_handlers().drop_last() == old(self).spec_setting_handlers(),
            final(self).spec_setting_handlers().last().0 == CategoryId::DeviceInformation,
            final(self).spec_setting_handlers().last().1 matches SettingHandler::DualBattery(h)
                && h.spec_max_level() == configuration.max_level && h.spec_level_offset()
                == configuration.level_offset,
            final(self).spec_packet_handler(battery_charging_command) == Some(
                PacketHandler::BatteryCharging(BatteryChargingPacketHandler {}),
            ),
            !same_command(battery_level_command, battery_charging_command) ==> final(self).spec_packet_handler(
                battery_level_command,
            ) == Some(PacketHandler::BatteryLevel(BatteryLevelPacketHandler {})),
            forall|other: Command|
                !same_command(other, battery_level_command) && !same_command(other, battery_charging_command)
                    ==> #[trigger] final(self).spec_packet_handler(other) == old(self).spec_packet_handler(other),
            final(self).spec_state_modifiers() == old(self).spec_state_modifiers(),
    {
        self.add_setting_handler(
            CategoryId::DeviceInformation,
            SettingHandler::DualBattery(BatterySettingHandler::new(&configuration)),
        );
        self.set_packet_handler(
            battery_level_command,
            PacketHandler::BatteryLevel(BatteryLevelPacketHandler {}),
        );
        self.set_packet_handler(
            battery_charging_command,
            PacketHandler::BatteryCharging(BatteryChargingPacketHandler {}),
        );
    }

    /// Dual connections: their settings, the handler of the host list packets that come with
    /// `device_packet_command`, and the modifier that connects and disconnects hosts.
    pub fn add_dual_connections(&mut self, packet_io: P, device_packet_command: Command)
        ensures
            final(self).spec_setting_handlers() == old(self).spec_setting_handlers().push(
                (
                    CategoryId::DualConnections,
                    SettingHandler::DualConnections(DualConnectionsSettingHandler {}),
                ),
            ),
            final(self).spec_packet_handler(device_packet_command) == Some(
                PacketHandler::DualConnectionsDevice(DualConnectionsDevicePacketHandler {}),
            ),
            final(self).spec_state_modifiers().len() == old(self).spec_state_modifiers().len() + 1,
            final(self).spec_state_modifiers().last() matches StateModifier::DualConnections(m)
                && m.spec_packet_io() == packet_io,
            final(self).spec_state_modifiers().drop_last() == old(self).spec_state_modifiers(),
    {
        self.set_packet_handler(
            device_packet_command,
            PacketHandler::DualConnectionsDevice(DualConnectionsDevicePacketHandler {}),
        );
        self.add_setting_handler(
            CategoryId::DualConnections,
            SettingHandler::DualConnections(DualConnectionsSettingHandler::new()),
        );
        self.add_state_modifier(
            StateModifier::DualConnections(DualConnectionsStateModifier::new(packet_io)),
        );
    }

    /// The equalizer with the given state modifier, and the import and export of its custom
    /// profiles; with `uses_tws_status` the equalizer is hidden and left as it is while the
    /// earbuds are not connected to each other.
    pub fn add_equalizer_with_custom_state_modifier(
        &mut self,
        module_settings: EqualizerModuleSettings,
        uses_tws_status: bool,
        state_modifier: StateModifier<P>,
    )
        ensures
            final(self).spec_setting_handlers().len() == old(self).spec_setting_handlers().len() + 2,
            final(self).spec_setting_handlers().take(old(self).spec_setting_handlers().len() as int)
                == old(self).spec_setting_handlers(),
            final(self).spec_setting_handlers()[old(self).spec_setting_handlers().len() as int].0
                == CategoryId::Equalizer,
            final(self).spec_setting_handlers().last().0 == CategoryId::EqualizerImportExport,
            final(self).spec_setting_handlers().last().1 matches SettingHandler::ImportExport(x)
                && x.spec_selection().len() == 0,
            final(self).spec_setting_handlers()[old(self).spec_setting_handlers().len() as int].1 matches SettingHandler::Equalizer(h)
                && h.spec_module_settings() == module_settings && h.spec_uses_tws_status()
                == uses_tws_status,
            final(self).spec_state_modifiers() == old(self).spec_state_modifiers().push(
                state_modifier,
            ),
            final(self).spec_packet_handlers() == old(self).spec_packet_handlers(),
    {
        let handler = EqualizerSettingHandler::new(module_settings);
        let handler = if uses_tws_status {
            handler.with_tws()
        } else {
            handler
        };
        self.add_setting_handler(CategoryId::Equalizer, SettingHandler::Equalizer(handler));
        self.add_setting_handler(
            CategoryId::EqualizerImportExport,
            SettingHandler::ImportExport(ImportExportSettingHandler::new()),
        );
        self.add_state_modifier(state_modifier);
    }

    /// The equalizer, set with the plain packet.
    pub fn add_equalizer(&mut self, packet_io: P, module_settings: EqualizerModuleSettings)
        ensures
            final(self).spec_setting_handlers().len() == old(self).spec_setting_handlers().len() + 2,
            final(self).spec_setting_handlers().take(old(self).spec_setting_handlers().len() as int)
                == old(self).spec_setting_handlers(),
            final(self).spec_setting_handlers()[old(self).spec_setting_handlers().len() as int].0
                == CategoryId::Equalizer,
            final(self).spec_setting_handlers().last().0 == CategoryId::EqualizerImportExport,
            final(self).spec_setting_handlers().last().1 matches SettingHandler::ImportExport(x)
                && x.spec_selection().len() == 0,
            final(self).spec_state_modifiers().len() == old(self).spec_state_modifiers().len() + 1,
            final(self).spec_state_modifiers().drop_last() == old(self).spec_state_modifiers(),
            final(self).spec_packet_handlers() == old(self).spec_packet_handlers(),
            final(self).spec_setting_handlers()[old(self).spec_setting_handlers().len() as int].1 matches SettingHandler::Equalizer(h)
                && h.spec_module_settings() == module_settings && !h.spec_uses_tws_status(),
            final(self).spec_state_modifiers().last() matches StateModifier::Equalizer(m)
                && !m.spec_options().has_drc && m.spec_packet_io() == packet_io,
    {
        let modifier = EqualizerStateModifier::new(packet_io, EqualizerStateModifierOptions { has_drc: false });
        self.add_equalizer_with_custom_state_modifier(module_settings, false, StateModifier::Equalizer(modifier));
    }

    /// The equalizer of earbuds that report their connection to each other, set with the plain
    /// packet.
    pub fn add_equalizer_tws(&mut self, packet_io: P, module_settings: EqualizerModuleSettings)
        ensures
            final(self).spec_setting_handlers().len() == old(self).spec_setting_handlers().len() + 2,
            final(self).spec_setting_handlers().take(old(self).spec_setting_handlers().len() as int)
                == old(self).spec_setting_handlers(),
            final(self).spec_setting_handlers()[old(self).spec_setting_handlers().len() as int].0
                == CategoryId::Equalizer,
            final(self).spec_setting_handlers().last().0 == CategoryId::EqualizerImportExport,
            final(self).spec_setting_handlers().last().1 matches SettingHandler::ImportExport(x)
                && x.spec_selection().len() == 0,
            final(self).spec_state_modifiers().len() == old(self).spec_state_modifiers().len() + 1,
            final(self).spec_state_modifiers().drop_last() == old(self).spec_state_modifiers(),
            final(self).spec_packet_handlers() == old(self).spec_packet_handlers(),
            final(self).spec_setting_handlers()[old(self).spec_setting_handlers().len() as int].1 matches SettingHandler::Equalizer(h)
                && h.spec_module_settings() == module_settings && h.spec_uses_tws_status(),
            final(self).spec_state_modifiers().last() matches StateModifier::Equalizer(m)
                && !m.spec_options().has_drc && m.spec_packet_io() == packet_io,
    {
        let modifier = EqualizerStateModifier::new(packet_io, EqualizerStateModifierOptions { has_drc: false });
        self.add_equalizer_with_custom_state_modifier(module_settings, true, StateModifier::Equalizer(modifier));
    }

    /// The equalizer, set with the packet that also carries dynamic range compression.
    pub fn add_equalizer_with_drc(&mut self, packet_io: P, module_settings: EqualizerModuleSettings)
        ensures
            final(self).spec_setting_handlers().len() == old(self).spec_setting_handlers().len() + 2,
            final(self).spec_setting_handlers().take(old(self).spec_setting_handlers().len() as int)
                == old(self).spec_setting_handlers(),
            final(self).spec_setting_handlers()[old(self).spec_setting_handlers().len() as int].0
                == CategoryId::Equalizer,
            final(self).spec_setting_handlers().last().0 == CategoryId::EqualizerImportExport,
            final(self).spec_setting_handlers().last().1 matches SettingHandler::ImportExport(x)
                && x.spec_selection().len() == 0,
            final(self).spec_state_modifiers().len() == old(self).spec_state_modifiers().len() + 1,
            final(self).spec_state_modifiers().drop_last() == old(self).spec_state_modifiers(),
            final(self).spec_packet_handlers() == old(self).spec_packet_handlers(),
            final(self).spec_setting_handlers()[old(self).spec_setting_handlers().len() as int].1 matches SettingHandler::Equalizer(h)
                && h.spec_module_settings() == module_settings && !h.spec_uses_tws_status(),
            final(self).spec_state_modifiers().last() matches StateModifier::Equalizer(m)
                && m.spec_options().has_drc && m.spec_packet_io() == packet_io,
    {
        let modifier = EqualizerStateModifier::new(packet_io, EqualizerStateModifierOptions { has_drc: true });
        self.add_equalizer_with_custom_state_modifier(module_settings, false, StateModifier::Equalizer(modifier));
    }

    /// The equalizer of earbuds that report their connection to each other, set with the
    /// packet that also carries dynamic range compression.
    pub fn add_equalizer_with_drc_tws(&mut self, packet_io: P, module_settings: EqualizerModuleSettings)
        ensures
            final(self).spec_setting_handlers().len() == old(self).spec_setting_handlers().len() + 2,
            final(self).spec_setting_handlers().take(old(self).spec_setting_handlers().len() as int)
                == old(self).spec_setting_handlers(),
            final(self).spec_setting_handlers()[old(self).spec_setting_handlers().len() as int].0
                == CategoryId::Equalizer,
            final(self).spec_setting_handlers().last().0 == CategoryId::EqualizerImportExport,
            final(self).spec_setting_handlers().last().1 matches SettingHandler::ImportExport(x)
                && x.spec_selection().len() == 0,
            final(self).spec_state_modifiers().len() == old(self).spec_state_modifiers().len() + 1,
            final(self).spec_state_modifiers().drop_last() == old(self).spec_state_modifiers(),
            final(self).spec_packet_handlers() == old(self).spec_packet_handlers(),
            final(self).spec_setting_handlers()[old(self).spec_setting_handlers().len() as int].1 matches SettingHandler::Equalizer(h)
                && h.spec_module_settings() == module_settings && h.spec_uses_tws_status(),
            final(self).spec_state_modifiers().last() matches StateModifier::Equalizer(m)
                && m.spec_options().has_drc && m.spec_packet_io() == packet_io,
    {
        let modifier = EqualizerStateModifier::new(packet_io, EqualizerStateModifierOptions { has_drc: true });
        self.add_equalizer_with_custom_state_modifier(module_settings, true, StateModifier::Equalizer(modifier));
    }

    /// The equalizer of earbuds with basic hearing test data.
    pub fn add_equalizer_with_basic_hear_id_tws(&mut self, packet_io: P, module_settings: EqualizerModuleSettings)
        ensures
            final(self).spec_setting_handlers().len() == old(self).spec_setting_handlers().len() + 2,
            final(self).spec_setting_handlers().take(old(self).spec_setting_handlers().len() as int)
                == old(self).spec_setting_handlers(),
            final(self).spec_setting_handlers()[old(self).spec_setting_handlers().len() as int].0
                == CategoryId::Equalizer,
            final(self).spec_setting_handlers().last().0 == CategoryId::EqualizerImportExport,
            final(self).spec_setting_handlers().last().1 matches SettingHandler::ImportExport(x)
                && x.spec_selection().len() == 0,
            final(self).spec_state_modifiers().len() == old(self).spec_state_modifiers().len() + 1,
            final(self).spec_state_modifiers().drop_last() == old(self).spec_state_modifiers(),
            final(self).spec_packet_handlers() == old(self).spec_packet_handlers(),
            final(self).spec_setting_handlers()[old(self).spec_setting_handlers().len() as int].1 matches SettingHandler::Equalizer(h)
                && h.spec_module_settings() == module_settings && h.spec_uses_tws_status(),
            final(self).spec_state_modifiers().last() matches StateModifier::EqualizerWithBasicHearId(m)
                && m.spec_packet_io() == packet_io,
            final(self).spec_state_modifiers().drop_last() == old(self).spec_state_modifiers(),
    {
        let modifier = EqualizerWithBasicHearIdStateModifier::new(packet_io);
        self.add_equalizer_with_custom_state_modifier(
            module_settings,
            true,
            StateModifier::EqualizerWithBasicHearId(modifier),
        );
    }

    /// The equalizer of earbuds with custom hearing test data.
    pub fn add_equalizer_with_custom_hear_id_tws(&mut self, packet_io: P, module_settings: EqualizerModuleSettings)
        ensures
            final(self).spec_setting_handlers().len() == old(self).spec_setting_handlers().len() + 2,
            final(self).spec_setting_handlers().take(old(self).spec_setting_handlers().len() as int)
                == old(self).spec_setting_handlers(),
            final(self).spec_setting_handlers()[old(self).spec_setting_handlers().len() as int].0
                == CategoryId::Equalizer,
            final(self).spec_setting_handlers().last().0 == CategoryId::EqualizerImportExport,
            final(self).spec_setting_handlers().last().1 matches SettingHandler::ImportExport(x)
                && x.spec_selection().len() == 0,
            final(self).spec_state_modifiers().len() == old(self).spec_state_modifiers().len() + 1,
            final(self).spec_state_modifiers().drop_last() == old(self).spec_state_modifiers(),
            final(self).spec_packet_handlers() == old(self).spec_packet_handlers(),
            final(self).spec_setting_handlers()[old(self).spec_setting_handlers().len() as int].1 matches SettingHandler::Equalizer(h)
                && h.spec_module_settings() == module_settings && h.spec_uses_tws_status(),
            final(self).spec_state_modifiers().last() matches StateModifier::EqualizerWithCustomHearId(m)
                && m.spec_packet_io() == packet_io,
            final(self).spec_state_modifiers().drop_last() == old(self).spec_state_modifiers(),
    {
        let modifier = EqualizerWithCustomHearIdStateModifier::new(packet_io);
        self.add_equalizer_with_custom_state_modifier(
            module_settings,
            true,
            StateModifier::EqualizerWithCustomHearId(modifier),
        );
    }

    /// A flag: its toggle, the handler of its reports if the device sends any, and the modifier
    /// that sets it.
    pub fn add_flag(&mut self, packet_io: P, configuration: FlagConfiguration)
        ensures
            final(self).spec_setting_handlers().len() == old(self).spec_setting_handlers().len() + 1,
            final(self).spec_setting_handlers().drop_last() == old(self).spec_setting_handlers(),
            final(self).spec_setting_handlers().last().0 == configuration.category_id,
            final(self).spec_setting_handlers().last().1 matches SettingHandler::Flag(h)
                && h.spec_setting_id() == configuration.setting_id && h.spec_is_inverted()
                == configuration.is_inverted,
            match configuration.update_command {
                Some(c) => final(self).spec_packet_handler(c) == Some(
                    PacketHandler::Flag(FlagPacketHandler {}),
                ),
                None => final(self).spec_packet_handlers() == old(self).spec_packet_handlers(),
            },
            final(self).spec_state_modifiers().last() matches StateModifier::Flag(m)
                && m.spec_command() == configuration.set_command && m.spec_packet_io() == packet_io,
            final(self).spec_state_modifiers().len() == old(self).spec_state_modifiers().len() + 1,
    {
        if let Some(update_command) = configuration.update_command {
            self.set_packet_handler(update_command, PacketHandler::Flag(FlagPacketHandler {}));
        }
        self.add_setting_handler(
            configuration.category_id,
            SettingHandler::Flag(
                FlagSettingHandler::new(configuration.setting_id, configuration.is_inverted),
            ),
        );
        self.add_state_modifier(
            StateModifier::Flag(FlagStateModifier::new(packet_io, configuration.set_command)),
        );
    }

    /// Gaming mode: its toggle, the handler of its reports that come with `update_command`,
    /// and the modifier that sets it with packets of `set_command`.
    pub fn add_gaming_mode(&mut self, packet_io: P, update_command: Command, set_command: Command)
        ensures
            final(self).spec_setting_handlers() == old(self).spec_setting_handlers().push(
                (CategoryId::DeviceInformation, SettingHandler::GamingMode(GamingModeSettingHandler {})),
            ),
            final(self).spec_packet_handler(update_command) == Some(
                PacketHandler::GamingMode(GamingModePacketHandler {}),
            ),
            forall|other: Command|
                !same_command(other, update_command) ==> #[trigger] final(self).spec_packet_handler(other)
                    == old(self).spec_packet_handler(other),
            final(self).spec_state_modifiers().len() == old(self).spec_state_modifiers().len() + 1,
            final(self).spec_state_modifiers().last() matches StateModifier::GamingMode(m)
                && m.spec_packet_io() == packet_io && m.spec_command() == set_command,
            final(self).spec_state_modifiers().drop_last() == old(self).spec_state_modifiers(),
    {
        let ghost before = *self;
        self.set_packet_handler(update_command, PacketHandler::GamingMode(GamingModePacketHandler {}));
        let ghost mid = *self;
        self.add_setting_handler(
            CategoryId::DeviceInformation,
            SettingHandler::GamingMode(GamingModeSettingHandler {}),
        );
        self.add_state_modifier(
            StateModifier::GamingMode(GamingModeStateModifier::new(packet_io, set_command)),
        );
        assert forall|other: Command| !same_command(other, update_command) implies #[trigger] self.spec_packet_handler(
            other,
        ) == before.spec_packet_handler(other) by {
            assert(mid.spec_packet_handler(other) == before.spec_packet_handler(other));
        }
    }

    /// The high volume limit: its settings and the modifier that sets it.
    pub fn add_limit_high_volume(&mut self, packet_io: P)
        ensures
            final(self).spec_setting_handlers() == old(self).spec_setting_handlers().push(
                (
                    CategoryId::LimitHighVolume,
                    SettingHandler::LimitHighVolume(LimitHighVolumeSettingHandler {}),
                ),
            ),
            final(self).spec_state_modifiers().len() == old(self).spec_state_modifiers().len() + 1,
            final(self).spec_state_modifiers().last() matches StateModifier::LimitHighVolume(m)
                && m.spec_packet_io() == packet_io,
            final(self).spec_state_modifiers().drop_last() == old(self).spec_state_modifiers(),
            final(self).spec_packet_handlers() == old(self).spec_packet_handlers(),
    {
        self.add_setting_handler(
            CategoryId::LimitHighVolume,
            SettingHandler::LimitHighVolume(LimitHighVolumeSettingHandler::new()),
        );
        self.add_state_modifier(
            StateModifier::LimitHighVolume(LimitHighVolumeStateModifier::new(packet_io)),
        );
    }

    /// Resetting the buttons: its action, and the modifier that resets them and then sends
    /// `request_packet` to learn the new configuration.
    pub fn add_reset_button_configuration(&mut self, packet_io: P, request_packet: Packet)
        ensures
            final(self).spec_setting_handlers() == old(self).spec_setting_handlers().push(
                (
                    CategoryId::ButtonConfiguration,
                    SettingHandler::ResetButtonConfiguration(ResetButtonConfigurationSettingHandler {}),
                ),
            ),
            final(self).spec_state_modifiers().len() == old(self).spec_state_modifiers().len() + 1,
            final(self).spec_state_modifiers().last() matches StateModifier::ResetButtonConfiguration(m)
                && m.spec_packet_io() == packet_io && m.spec_refresh_button_state() == request_packet,
            final(self).spec_state_modifiers().drop_last() == old(self).spec_state_modifiers(),
            final(self).spec_packet_handlers() == old(self).spec_packet_handlers(),
    {
        self.add_setting_handler(
            CategoryId::ButtonConfiguration,
            SettingHandler::ResetButtonConfiguration(ResetButtonConfigurationSettingHandler::new()),
        );
        self.add_state_modifier(
            StateModifier::ResetButtonConfiguration(
                ResetButtonConfigurationStateModifier::new(packet_io, request_packet),
            ),
        );
    }

    /// The serial number and both firmware versions, and the handler of their reports that come
    /// with `update_command`.
    pub fn add_serial_number_and_dual_firmware_version(&mut self, update_command: Command)
        ensures
            final(self).spec_setting_handlers() == old(self).spec_setting_handlers().push(
                (
                    CategoryId::DeviceInformation,
                    SettingHandler::SerialNumberAndDualFirmwareVersion(
                        SerialNumberAndFirmwareVersionSettingHandler {},
                    ),
                ),
            ),
            final(self).spec_packet_handler(update_command) == Some(
                PacketHandler::SerialNumberAndDualFirmwareVersion(
                    SerialNumberAndDualFirmwareVersionPacketHandler {},
                ),
            ),
            forall|other: Command|
                !same_command(other, update_command) ==> #[trigger] final(self).spec_packet_handler(other)
                    == old(self).spec_packet_handler(other),
            final(self).spec_state_modifiers() == old(self).spec_state_modifiers(),
    {
        self.add_setting_handler(
            CategoryId::DeviceInformation,
            SettingHandler::SerialNumberAndDualFirmwareVersion(
                SerialNumberAndFirmwareVersionSettingHandler {},
            ),
        );
        self.set_packet_handler(
            update_command,
            PacketHandler::SerialNumberAndDualFirmwareVersion(
                SerialNumberAndDualFirmwareVersionPacketHandler {},
            ),
        );
    }

    /// Whether the earbuds are connected to each other, and which one the host talks to.
    pub fn add_tws_status(&mut self)
        ensures
            final(self).spec_setting_handlers() == old(self).spec_setting_handlers().push(
                (CategoryId::DeviceInformation, SettingHandler::TwsStatus(TwsStatusSettingHandler {})),
            ),
            final(self).spec_packet_handlers() == old(self).spec_packet_handlers(),
            final(self).spec_state_modifiers() == old(self).spec_state_modifiers(),
    {
        self.add_setting_handler(
            CategoryId::DeviceInformation,
            SettingHandler::TwsStatus(TwsStatusSettingHandler {}),
        );
    }
}

/// After a module's setting handler is added to a category, the category shows the settings it
/// showed before and then the handler's.
pub proof fn lemma_added_settings_are_shown(
    handlers: Seq<(CategoryId, SettingHandler)>,
    category_id: CategoryId,
    handler: SettingHandler,
)
    ensures
        settings_in_category(handlers.push((category_id, handler)), category_id) == settings_in_category(
            handlers,
            category_id,
        ) + handler.spec_settings(),
{
    assert(handlers.push((category_id, handler)).drop_last() =~= handlers);
}

} // verus!
