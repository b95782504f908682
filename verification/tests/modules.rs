use openscq30_lib::auto_power_off::{AutoPowerOffDuration, AutoPowerOffSettingHandler};
use openscq30_lib::battery::{
    BatteryChargingPacketHandler, BatteryLevelPacketHandler, BatterySettingHandler,
    DualBatteryConfiguration, DualBatteryLevel,
};
use openscq30_lib::device_info::SerialNumberAndDualFirmwareVersionPacketHandler;
use openscq30_lib::equalizer::CustomEqualizerProfile;
use openscq30_lib::import_export::ImportExportSettingHandler;
use openscq30_lib::demo::{demo_response, DemoConnectionRegistry, DemoWriteError};
use openscq30_lib::device::SoundcoreDeviceRegistry;
use openscq30_lib::flag::{FlagConfiguration, FlagPacketHandler, FlagSettingHandler, FlagStateModifier};
use openscq30_lib::gaming_mode::{
    GamingModePacketHandler, GamingModeSettingHandler, GamingModeStateModifier,
};
use openscq30_lib::limit_high_volume::{
    db_limit, LimitHighVolumeSettingHandler, LimitHighVolumeStateModifier,
};
use openscq30_lib::module_collection::{ModuleCollection, PacketHandler, SettingHandler};
use openscq30_lib::packet::{Command, Direction, Packet};
use openscq30_lib::reset_buttons::{
    ResetButtonConfigurationPending, ResetButtonConfigurationSettingHandler,
    ResetButtonConfigurationStateModifier, ResetButtonConfigurationStep,
};
use openscq30_lib::settings::{
    CategoryId, Setting, SettingHandlerError, SettingId, Translation, Value, ValueError,
};
use openscq30_lib::sound_mode_cycle::{
    get_inner, set_inner, AmbientSoundModeCycleTwsStateModifier,
};
use openscq30_lib::structures::{
    AmbientSoundModeCycle, AmbientSoundModeCycleTws, AutoPowerOff, AutoPowerOffDurationIndex,
    BatteryLevel, DualBattery, DualFirmwareVersion, FirmwareVersion, GamingMode,
    IsBatteryCharging, LimitHighVolume, LimitHighVolumeRefreshRate, SerialNumber, SingleBattery,
};

fn select(setting: Option<Setting>) -> (Vec<String>, String) {
    match setting {
        Some(Setting::Select { setting, value }) => (setting.options, value),
        other => panic!("expected a select, got {other:?}"),
    }
}

#[test]
fn auto_power_off_shows_disabled_and_the_offered_delays() {
    let handler = AutoPowerOffSettingHandler::new(AutoPowerOffDuration::half_hour_increments());
    let mut state = AutoPowerOff {
        is_enabled: true,
        duration: AutoPowerOffDurationIndex(1),
    };
    let (options, value) = select(handler.get_inner(&state, &SettingId::AutoPowerOff));
    assert_eq!(options, vec!["disabled", "30m", "60m", "90m", "120m"]);
    assert_eq!(value, "60m");

    assert!(handler
        .set_inner(&mut state, &SettingId::AutoPowerOff, Value::String("120M".to_string()))
        .is_ok());
    assert_eq!(
        state,
        AutoPowerOff {
            is_enabled: true,
            duration: AutoPowerOffDurationIndex(3),
        }
    );
    assert!(handler
        .set_inner(&mut state, &SettingId::AutoPowerOff, Value::String("disabled".to_string()))
        .is_ok());
    assert!(!state.is_enabled);
    assert_eq!(state.duration, AutoPowerOffDurationIndex(3));
    let (_, value) = select(handler.get_inner(&state, &SettingId::AutoPowerOff));
    assert_eq!(value, "disabled");
    // an index past the offered delays also shows as disabled
    let out_of_range = AutoPowerOff {
        is_enabled: true,
        duration: AutoPowerOffDurationIndex(9),
    };
    let (_, value) = select(handler.get_inner(&out_of_range, &SettingId::AutoPowerOff));
    assert_eq!(value, "disabled");
    let mut missing: Option<AutoPowerOff> = None;
    assert!(matches!(
        handler.set(&mut missing, &SettingId::AutoPowerOff, Value::String("30m".to_string())),
        Err(SettingHandlerError::MissingData)
    ));
    assert_eq!(
        AutoPowerOffDuration::ten_twenty_thirty_sixty()
            .iter()
            .map(|d| d.minutes())
            .collect::<Vec<_>>(),
        vec![10, 20, 30, 60]
    );
}

#[test]
fn limit_high_volume_rounds_and_clamps_the_limit() {
    assert_eq!(db_limit(87), 85);
    assert_eq!(db_limit(90), 90);
    assert_eq!(db_limit(74), 75);
    assert_eq!(db_limit(-7), 75);
    assert_eq!(db_limit(104), 100);
    assert_eq!(db_limit(i32::MAX), 100);
    assert_eq!(db_limit(i32::MIN), 75);

    let handler = LimitHighVolumeSettingHandler::new();
    let mut state = LimitHighVolume {
        enabled: false,
        db_limit: 80,
        refresh_rate: LimitHighVolumeRefreshRate::RealTime,
    };
    assert!(handler
        .set(&mut state, &SettingId::LimitHighVolumeDbLimit, Value::I32(99))
        .is_ok());
    assert_eq!(state.db_limit, 95);
    assert!(handler
        .set(
            &mut state,
            &SettingId::LimitHighVolumeRefreshRate,
            Value::String("OneMinute".to_string())
        )
        .is_ok());
    assert_eq!(state.refresh_rate, LimitHighVolumeRefreshRate::OneMinute);
    let result = handler.set(
        &mut state,
        &SettingId::LimitHighVolumeRefreshRate,
        Value::String("Hourly".to_string()),
    );
    assert!(matches!(
        result,
        Err(SettingHandlerError::ValueError(ValueError::InvalidOption { .. }))
    ));
    let (options, value) = select(handler.get(&state, &SettingId::LimitHighVolumeRefreshRate));
    assert_eq!(options, vec!["RealTime", "TenSeconds", "OneMinute"]);
    assert_eq!(value, "OneMinute");
    match handler.get(&state, &SettingId::LimitHighVolumeDbLimit) {
        Some(Setting::I32Range { setting, value }) => {
            assert_eq!((setting.start, setting.end, setting.step), (75, 100, 5));
            assert_eq!(value, 95);
        }
        other => panic!("unexpected setting {other:?}"),
    }

    let modifier = LimitHighVolumeStateModifier::new(());
    let target = LimitHighVolume {
        enabled: true,
        db_limit: 95,
        refresh_rate: LimitHighVolumeRefreshRate::OneMinute,
    };
    let plan = modifier.plan(&state, &target);
    assert_eq!(plan.set_limit, Some((true, 95)));
    assert_eq!(plan.set_refresh_rate, None);
}

#[test]
fn flags_can_be_shown_inverted() {
    let configuration = FlagConfiguration::disable_all_buttons();
    let handler = FlagSettingHandler::new(configuration.setting_id, configuration.is_inverted);
    assert_eq!(handler.settings(), vec![SettingId::ButtonsEnabled]);
    let mut flag = Some(true);
    match handler.get(&flag, &SettingId::ButtonsEnabled) {
        Some(Setting::Toggle { value }) => assert!(!value),
        other => panic!("unexpected setting {other:?}"),
    }
    assert!(handler.set(&mut flag, &SettingId::ButtonsEnabled, Value::Bool(true)).is_ok());
    assert_eq!(flag, Some(false));
    let mut missing = None;
    assert!(matches!(
        handler.set(&mut missing, &SettingId::ButtonsEnabled, Value::Bool(true)),
        Err(SettingHandlerError::MissingData)
    ));

    let packet_handler = FlagPacketHandler {};
    let mut flag = Some(false);
    assert!(packet_handler.handle_packet(&mut flag, true));
    assert!(!packet_handler.handle_packet(&mut flag, true));
    let mut missing = None;
    assert!(!packet_handler.handle_packet(&mut missing, true));
    assert_eq!(missing, None);
}

#[test]
fn flag_state_modifier_sends_the_flag_as_a_byte() {
    let configuration = FlagConfiguration::voice_prompt();
    let modifier = FlagStateModifier::new((), configuration.set_command);
    let packet = modifier.plan(&Some(false), &Some(true)).unwrap();
    assert_eq!(packet.direction, Direction::Outbound);
    assert_eq!(packet.command, Command([0x01, 0x90]));
    assert_eq!(packet.body, vec![1]);
    assert!(modifier.plan(&Some(true), &Some(true)).is_none());
    assert!(modifier.plan(&Some(true), &None).is_none());
    assert_eq!(modifier.plan(&None, &Some(false)).unwrap().body, vec![0]);
}

#[test]
fn gaming_mode_toggle_and_reports() {
    let handler = GamingModeSettingHandler::default();
    let mut state = GamingMode { is_enabled: false };
    assert!(handler.set(&mut state, &SettingId::GamingMode, Value::Bool(true)).is_ok());
    assert!(state.is_enabled);
    assert!(handler.set(&mut state, &SettingId::GamingMode, Value::I32(0)).is_err());
    assert!(state.is_enabled);
    let packet_handler = GamingModePacketHandler::default();
    assert!(packet_handler.handle_packet(&mut state, GamingMode { is_enabled: false }));
    assert!(!packet_handler.handle_packet(&mut state, GamingMode { is_enabled: false }));
}

#[test]
fn battery_levels_of_absent_earbuds_are_not_shown() {
    let handler = BatterySettingHandler::new(&DualBatteryConfiguration {
        max_level: 5,
        level_offset: 1,
    });
    let battery = DualBattery {
        left: SingleBattery {
            is_charging: IsBatteryCharging::Yes,
            level: BatteryLevel(3),
        },
        right: SingleBattery {
            is_charging: IsBatteryCharging::No,
            level: BatteryLevel(255),
        },
    };
    match handler.get(&battery, &SettingId::BatteryLevelLeft) {
        Some(Setting::Information {
            value,
            translated_value,
        }) => {
            assert_eq!(value, "4/5");
            assert!(matches!(translated_value, Translation::Percent(80)));
        }
        other => panic!("unexpected setting {other:?}"),
    }
    match handler.get(&battery, &SettingId::IsChargingLeft) {
        Some(Setting::Information {
            value,
            translated_value,
        }) => {
            assert_eq!(value, "Yes");
            assert!(matches!(translated_value, Translation::Charging));
        }
        other => panic!("unexpected setting {other:?}"),
    }
    assert!(handler.get(&battery, &SettingId::BatteryLevelRight).is_none());
    assert!(handler.get(&battery, &SettingId::IsChargingRight).is_none());
    assert!(matches!(
        handler.set(&SettingId::BatteryLevelLeft),
        Err(SettingHandlerError::ReadOnly)
    ));

    let packet_handler = BatteryLevelPacketHandler {};
    let mut levels = DualBatteryLevel {
        left: BatteryLevel(1),
        right: BatteryLevel(2),
    };
    let report = DualBatteryLevel {
        left: BatteryLevel(1),
        right: BatteryLevel(3),
    };
    assert!(packet_handler.handle_packet(&mut levels, &report));
    assert_eq!(levels, report);
    assert!(!packet_handler.handle_packet(&mut levels, &report));
}

#[test]
fn sound_mode_cycle_follows_the_connection_state() {
    let off = AmbientSoundModeCycle {
        noise_canceling_mode: false,
        transparency_mode: false,
        normal_mode: false,
    };
    let mut cycle = AmbientSoundModeCycleTws {
        tws_enabled: off,
        tws_disabled: off,
    };
    assert!(set_inner(true, &mut cycle, &SettingId::NormalModeInCycle, Value::Bool(true)).is_ok());
    assert!(cycle.tws_enabled.normal_mode);
    assert!(!cycle.tws_disabled.normal_mode);
    match get_inner(true, &cycle, &SettingId::NormalModeInCycle) {
        Some(Setting::Toggle { value }) => assert!(value),
        other => panic!("unexpected setting {other:?}"),
    }
    match get_inner(false, &cycle, &SettingId::NormalModeInCycle) {
        Some(Setting::Toggle { value }) => assert!(!value),
        other => panic!("unexpected setting {other:?}"),
    }
    assert!(get_inner(false, &cycle, &SettingId::GamingMode).is_none());

    let modifier = AmbientSoundModeCycleTwsStateModifier::new(());
    let target = AmbientSoundModeCycleTws {
        tws_enabled: off,
        tws_disabled: off,
    };
    assert_eq!(
        modifier.plan(&cycle, &target, &ResetButtonConfigurationPending(false)),
        Some(target)
    );
    assert_eq!(
        modifier.plan(&cycle, &target, &ResetButtonConfigurationPending(true)),
        None
    );
    assert_eq!(
        modifier.plan(&target, &target, &ResetButtonConfigurationPending(false)),
        None
    );
}

#[test]
fn resetting_buttons_marks_it_pending_and_plans_reset_then_refresh() {
    let handler = ResetButtonConfigurationSettingHandler::new();
    let mut pending = ResetButtonConfigurationPending(false);
    assert!(handler
        .set(&mut pending, &SettingId::ResetButtonsToDefault, Value::Bool(false))
        .is_ok());
    assert!(pending.0);
    assert!(matches!(
        handler.get(&SettingId::ResetButtonsToDefault),
        Some(Setting::Action)
    ));
    let modifier = ResetButtonConfigurationStateModifier::new((), ());
    assert_eq!(
        modifier.plan(&pending),
        vec![
            ResetButtonConfigurationStep::SendReset,
            ResetButtonConfigurationStep::RefreshButtonState
        ]
    );
    assert!(modifier
        .plan(&ResetButtonConfigurationPending(false))
        .is_empty());
}

#[test]
fn module_collection_registers_handlers() {
    let mut modules: ModuleCollection<()> = ModuleCollection::new();
    modules.add_tws_status();
    modules.add_gaming_mode((), Command([0x10, 0x05]), Command([0x10, 0x85]));
    modules.add_limit_high_volume(());
    modules.add_serial_number_and_dual_firmware_version(Command([0x01, 0x05]));
    assert_eq!(
        modules.settings_in_category(CategoryId::DeviceInformation),
        vec![
            SettingId::TwsStatus,
            SettingId::HostDevice,
            SettingId::GamingMode,
            SettingId::SerialNumber,
            SettingId::FirmwareVersionLeft,
            SettingId::FirmwareVersionRight,
        ]
    );
    assert_eq!(modules.handler_index(SettingId::GamingMode), Some(1));
    assert_eq!(modules.handler_index(SettingId::Ldac), None);
    assert!(matches!(
        modules.packet_handler(Command([0x10, 0x05])),
        Some(PacketHandler::GamingMode(_))
    ));
    assert!(matches!(
        modules.packet_handler(Command([0x01, 0x05])),
        Some(PacketHandler::SerialNumberAndDualFirmwareVersion(_))
    ));
    // a second handler for the same command replaces the first
    modules.add_flag(
        (),
        FlagConfiguration {
            category_id: CategoryId::Miscellaneous,
            setting_id: SettingId::TouchTone,
            set_command: Command([0x01, 0x83]),
            update_command: Some(Command([0x10, 0x05])),
            is_inverted: false,
        },
    );
    assert!(matches!(
        modules.packet_handler(Command([0x10, 0x05])),
        Some(PacketHandler::Flag(_))
    ));
    assert!(modules.packet_handler(Command([0x01, 0x01])).is_none());
    modules.add_state_update();
    assert!(matches!(
        modules.packet_handler(Command([0x01, 0x01])),
        Some(PacketHandler::A3968StateUpdate(_))
    ));
    assert_eq!(modules.state_modifiers().len(), 3);
    assert!(matches!(
        modules.setting_handlers()[2].1,
        SettingHandler::LimitHighVolume(_)
    ));
}

#[test]
fn demo_answers_from_its_table_or_acknowledges() {
    let responses = vec![(Command([0x01, 0x01]), vec![1, 2, 3])];
    let registry = DemoConnectionRegistry::new("demo model", responses);
    assert_eq!(*registry.model(), "demo model");
    let request = Packet {
        direction: Direction::Outbound,
        command: Command([0x01, 0x01]),
        body: Vec::new(),
    };
    assert_eq!(
        demo_response(registry.packet_responses(), &request.bytes_with_checksum()),
        Ok(vec![1, 2, 3])
    );
    let other = Packet {
        direction: Direction::Outbound,
        command: Command([0x06, 0x81]),
        body: vec![9],
    };
    let ack = demo_response(registry.packet_responses(), &other.bytes_with_checksum()).unwrap();
    assert_eq!(ack, vec![0x09, 0xFF, 0x00, 0x00, 0x01, 0x06, 0x81, 10, 0, 0x9A]);
    assert_eq!(
        demo_response(registry.packet_responses(), &[8, 238, 0]),
        Err(DemoWriteError::TooShort)
    );
}

#[test]
fn device_registry_keeps_its_parts() {
    let registry = SoundcoreDeviceRegistry::new("backend", "database", 3968u16, "fetch");
    assert_eq!(*registry.device_model(), 3968);
    assert_eq!(*registry.backend(), "backend");
    assert_eq!(*registry.database(), "database");
    assert_eq!(*registry.fetch_state(), "fetch");
}

#[test]
fn gaming_mode_modifier_sends_only_a_change() {
    let modifier = GamingModeStateModifier::new((), Command([0x10, 0x85]));
    let off = GamingMode { is_enabled: false };
    let on = GamingMode { is_enabled: true };
    assert!(modifier.plan(&on, &on).is_none());
    let packet = modifier.plan(&off, &on).unwrap();
    assert_eq!(packet.direction, Direction::Outbound);
    assert_eq!(packet.command, Command([0x10, 0x85]));
    assert_eq!(packet.body, vec![1]);
    assert_eq!(modifier.plan(&on, &off).unwrap().body, vec![0]);
}

#[test]
fn dual_battery_registers_level_and_charging_handlers() {
    let mut modules: ModuleCollection<()> = ModuleCollection::new();
    modules.add_dual_battery(
        DualBatteryConfiguration {
            max_level: 5,
            level_offset: 0,
        },
        Command([0x01, 0x03]),
        Command([0x01, 0x04]),
    );
    assert!(matches!(
        modules.packet_handler(Command([0x01, 0x03])),
        Some(PacketHandler::BatteryLevel(_))
    ));
    assert!(matches!(
        modules.packet_handler(Command([0x01, 0x04])),
        Some(PacketHandler::BatteryCharging(_))
    ));
    assert_eq!(
        modules.settings_in_category(CategoryId::DeviceInformation),
        vec![
            SettingId::IsChargingLeft,
            SettingId::IsChargingRight,
            SettingId::BatteryLevelLeft,
            SettingId::BatteryLevelRight,
        ]
    );
    assert!(modules.state_modifiers().is_empty());
}

#[test]
fn battery_charging_reports_keep_the_levels() {
    let handler = BatteryChargingPacketHandler::default();
    let mut battery = DualBattery {
        left: SingleBattery {
            is_charging: IsBatteryCharging::No,
            level: BatteryLevel(3),
        },
        right: SingleBattery {
            is_charging: IsBatteryCharging::No,
            level: BatteryLevel(4),
        },
    };
    assert!(handler.handle_packet(&mut battery, IsBatteryCharging::Yes, IsBatteryCharging::No));
    assert_eq!(battery.left.is_charging, IsBatteryCharging::Yes);
    assert_eq!(battery.left.level, BatteryLevel(3));
    assert_eq!(battery.right.level, BatteryLevel(4));
    assert!(!handler.handle_packet(&mut battery, IsBatteryCharging::Yes, IsBatteryCharging::No));
}

#[test]
fn serial_number_reports_replace_the_state() {
    let handler = SerialNumberAndDualFirmwareVersionPacketHandler::default();
    let mut serial = SerialNumber {
        bytes: b"0000000000000000".to_vec(),
    };
    let version = |major, minor| FirmwareVersion { major, minor };
    let mut firmware = DualFirmwareVersion {
        left: version(1, 0),
        right: version(1, 0),
    };
    let reported_firmware = DualFirmwareVersion {
        left: version(1, 65),
        right: version(1, 65),
    };
    assert!(handler.handle_packet(
        &mut serial,
        &mut firmware,
        SerialNumber {
            bytes: b"3968b038e26bbe9a".to_vec()
        },
        reported_firmware,
    ));
    assert_eq!(serial.bytes, b"3968b038e26bbe9a".to_vec());
    assert_eq!(firmware, reported_firmware);
    assert!(!handler.handle_packet(
        &mut serial,
        &mut firmware,
        SerialNumber {
            bytes: b"3968b038e26bbe9a".to_vec()
        },
        reported_firmware,
    ));
}

fn profile(name: &str, values: Vec<i16>) -> CustomEqualizerProfile {
    CustomEqualizerProfile {
        name: name.to_string(),
        volume_adjustments: values,
    }
}

#[test]
fn export_selection_keeps_profile_order() {
    let profiles = vec![
        profile("a", vec![1, 2]),
        profile("b", vec![3, 4]),
        profile("c", vec![5, 6]),
    ];
    let mut handler = ImportExportSettingHandler::new();
    assert!(handler.selected_profiles(&profiles).is_empty());
    let picked = Value::StringVec(vec!["c".to_string(), "a".to_string(), "x".to_string()]);
    assert!(matches!(
        handler.set(&SettingId::ExportCustomEqualizerProfiles, picked),
        Ok(None)
    ));
    let selected = handler.selected_profiles(&profiles);
    assert_eq!(selected, vec![profile("a", vec![1, 2]), profile("c", vec![5, 6])]);
    match handler.get(&profiles, &SettingId::ExportCustomEqualizerProfiles, String::new()) {
        Some(Setting::MultiSelect { setting, values }) => {
            assert_eq!(setting.options, vec!["a", "b", "c"]);
            assert_eq!(values, vec!["a", "c"]);
        }
        other => panic!("unexpected setting {other:?}"),
    }
    match handler.get(
        &profiles,
        &SettingId::ExportCustomEqualizerProfilesOutput,
        "[]".to_string(),
    ) {
        Some(Setting::Information { value, .. }) => assert_eq!(value, "[]"),
        other => panic!("unexpected setting {other:?}"),
    }
    assert!(matches!(
        handler.get(&profiles, &SettingId::ImportCustomEqualizerProfiles, String::new()),
        Some(Setting::ImportString {
            confirmation_message: Some(Translation::ImportCustomEqualizerProfilesConfirm)
        })
    ));
    assert!(handler.get(&profiles, &SettingId::GamingMode, String::new()).is_none());
}

#[test]
fn import_hands_back_its_text_and_output_is_read_only() {
    let mut handler = ImportExportSettingHandler::new();
    match handler.set(
        &SettingId::ImportCustomEqualizerProfiles,
        Value::String("[]".to_string()),
    ) {
        Ok(Some(text)) => assert_eq!(text, "[]"),
        other => panic!("unexpected result {other:?}"),
    }
    assert!(matches!(
        handler.set(&SettingId::ImportCustomEqualizerProfiles, Value::Bool(true)),
        Err(SettingHandlerError::ValueError(ValueError::WrongType { .. }))
    ));
    assert!(matches!(
        handler.set(&SettingId::ExportCustomEqualizerProfiles, Value::Bool(true)),
        Err(SettingHandlerError::ValueError(ValueError::WrongType { .. }))
    ));
    assert!(matches!(
        handler.set(
            &SettingId::ExportCustomEqualizerProfilesOutput,
            Value::String("x".to_string())
        ),
        Err(SettingHandlerError::ReadOnly)
    ));
}

#[test]
fn acknowledged_changes_become_the_state() {
    let flag = FlagStateModifier::new((), Command([0x01, 0x83]));
    assert_eq!(flag.acknowledge(&Some(false), &Some(true)), Some(true));
    assert_eq!(flag.acknowledge(&Some(false), &None), Some(false));

    let gaming = GamingModeStateModifier::new((), Command([0x10, 0x85]));
    let on = GamingMode { is_enabled: true };
    assert_eq!(gaming.acknowledge(&GamingMode { is_enabled: false }, &on), on);

    let limit = LimitHighVolumeStateModifier::new(());
    let current = LimitHighVolume {
        enabled: false,
        db_limit: 80,
        refresh_rate: LimitHighVolumeRefreshRate::RealTime,
    };
    let after = limit.acknowledge_limit(&current, true, 90);
    assert!(after.enabled);
    assert_eq!(after.db_limit, 90);
    assert_eq!(after.refresh_rate, LimitHighVolumeRefreshRate::RealTime);
    let after = limit.acknowledge_refresh_rate(&after, LimitHighVolumeRefreshRate::TenSeconds);
    assert_eq!(after.refresh_rate, LimitHighVolumeRefreshRate::TenSeconds);
    assert_eq!(after.db_limit, 90);

    let cycle = AmbientSoundModeCycleTwsStateModifier::new(());
    let off = AmbientSoundModeCycle {
        noise_canceling_mode: false,
        transparency_mode: false,
        normal_mode: false,
    };
    let all = AmbientSoundModeCycle {
        noise_canceling_mode: true,
        transparency_mode: true,
        normal_mode: true,
    };
    let current = AmbientSoundModeCycleTws {
        tws_enabled: off,
        tws_disabled: off,
    };
    let target = AmbientSoundModeCycleTws {
        tws_enabled: all,
        tws_disabled: off,
    };
    let sent = cycle.plan(&current, &target, &ResetButtonConfigurationPending(false));
    assert_eq!(cycle.acknowledge(&current, &sent), target);
    let held = cycle.plan(&current, &target, &ResetButtonConfigurationPending(true));
    assert_eq!(cycle.acknowledge(&current, &held), current);
}
