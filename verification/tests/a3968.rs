use openscq30_lib::a3968::{
    button_configuration_settings, A3968State, A3968StateUpdatePacket,
    AdaptiveNoiseCancelingNamedNoiseLevel, ManualNoiseCancelingNamed, NoiseCancelingMode,
    SoundModes, StateUpdatePacketHandler,
};
use openscq30_lib::battery::{
    BatterySettingHandler, CaseBatteryLevelConfiguration, CaseBatteryLevelSettingHandler,
    DualBatteryConfiguration,
};
use openscq30_lib::button_configuration::{
    common_actions_minimal, common_settings, ActionKind, ActionStatus, Button,
    ButtonConfigurationSettingHandler, ButtonConfigurationSettings, ButtonDisableMode,
    ButtonParseSettings, ButtonPressKind, ButtonSettings, ButtonStatus, EnabledFlagKind,
    EnabledStatus,
};
use openscq30_lib::device_info::{
    SerialNumberAndFirmwareVersionSettingHandler, TwsStatusSettingHandler,
};
use openscq30_lib::equalizer::{EqualizerModuleSettings, EqualizerSettingHandler};
use openscq30_lib::packet::{Command, Direction, Packet};
use openscq30_lib::settings::{Setting, SettingId};
use openscq30_lib::structures::{AmbientSoundMode, TransparencyMode, WindNoise};

/// State update packet posted by "Hate9" in GitHub issue #170 (a different X20 unit).
const ISSUE_170_BODY: &[u8] = &[
    0, 1, 5, 5, 0, 0, 48, 49, 46, 54, 53, 48, 49, 46, 54, 53, 51, 57, 54, 56, 98, 48, 51, 56, 101,
    50, 54, 98, 98, 101, 57, 97, 0, 0, 0, 0, 0, 2, 254, 254, 120, 120, 120, 120, 120, 120, 120,
    120, 120, 120, 255, 255, 255, 255, 255, 255, 255, 255, 255, 48, 1, 1, 135, 114, 140, 142, 150,
    145, 166, 134, 60, 60, 135, 114, 140, 142, 150, 145, 166, 134, 60, 60, 255, 255, 255, 255, 1,
    151, 151, 140, 143, 151, 145, 165, 134, 60, 0, 151, 151, 140, 143, 151, 145, 165, 134, 60, 0,
    0, 0, 8, 97, 102, 48, 51, 68, 68, 55, 0, 50, 1, 0, 0, 255, 54, 1, 0, 1, 0, 1, 2, 1, 255, 255,
    255, 255, 255, 255, 255, 255, 255, 255, 255, 255,
];

fn information_value(setting: Option<Setting>) -> String {
    match setting {
        Some(Setting::Information { value, .. }) => value,
        other => panic!("expected information, got {other:?}"),
    }
}

fn optional_select_value(setting: Option<Setting>) -> Option<String> {
    match setting {
        Some(Setting::OptionalSelect { value, .. }) => value,
        other => panic!("expected an optional select, got {other:?}"),
    }
}

fn issue_170_state() -> A3968State {
    let packet = A3968StateUpdatePacket::take(ISSUE_170_BODY).expect("the packet is readable");
    A3968State::new(packet, Vec::new())
}

#[test]
fn parses_state_update_packet_from_issue_170() {
    let state = issue_170_state();

    let tws = TwsStatusSettingHandler::default();
    assert_eq!(
        information_value(tws.get(&state.tws_status, &SettingId::TwsStatus)),
        "Connected"
    );
    assert_eq!(
        information_value(tws.get(&state.tws_status, &SettingId::HostDevice)),
        "Left"
    );

    let battery = BatterySettingHandler::new(&DualBatteryConfiguration {
        max_level: 5,
        level_offset: 0,
    });
    for (setting_id, expected) in [
        (SettingId::BatteryLevelLeft, "5/5"),
        (SettingId::BatteryLevelRight, "5/5"),
        (SettingId::IsChargingLeft, "No"),
        (SettingId::IsChargingRight, "No"),
    ] {
        assert_eq!(
            information_value(battery.get(&state.dual_battery, &setting_id)),
            expected
        );
    }

    let device_info = SerialNumberAndFirmwareVersionSettingHandler::default();
    for (setting_id, expected) in [
        (SettingId::FirmwareVersionLeft, "01.65"),
        (SettingId::FirmwareVersionRight, "01.65"),
        (SettingId::SerialNumber, "3968b038e26bbe9a"),
    ] {
        assert_eq!(
            information_value(device_info.get(
                &state.serial_number,
                &state.dual_firmware_version,
                &setting_id
            )),
            expected
        );
    }

    assert_eq!(
        state.sound_modes,
        SoundModes {
            ambient_sound_mode: AmbientSoundMode::NoiseCanceling,
            noise_canceling_mode: NoiseCancelingMode::Manual,
            manual_noise_canceling: ManualNoiseCancelingNamed::Strong,
            adaptive_noise_canceling: AdaptiveNoiseCancelingNamedNoiseLevel::HighNoise,
            transparency_mode: TransparencyMode::VocalMode,
            wind_noise: WindNoise {
                is_suppression_enabled: false,
                is_detected: false,
            },
        }
    );
    assert_eq!(state.sound_modes.manual_noise_canceling.name(), "Strong");
    assert_eq!(state.sound_modes.adaptive_noise_canceling.name(), "HighNoise");

    let equalizer = EqualizerSettingHandler::new(EqualizerModuleSettings {
        presets: Vec::new(),
        custom_preset_id: Some(0xfefe),
        band_hz: vec![100, 200, 400, 800, 1600, 3200, 6400, 12800],
        channels: 2,
        bands: 10,
        visible_bands: 8,
        min_volume: -120,
        max_volume: 134,
        fraction_digits: 1,
        invisible_band_values: vec![0, 0],
    })
    .with_tws();
    assert_eq!(
        optional_select_value(equalizer.get(
            &state.equalizer_configuration,
            &state.tws_status,
            &Vec::new(),
            &SettingId::PresetEqualizerProfile
        )),
        None
    );

    let case_battery = CaseBatteryLevelSettingHandler::new(&CaseBatteryLevelConfiguration {
        max_level: 5,
        level_offset: 0,
    });
    assert_eq!(
        information_value(case_battery.get(&state.case_battery_level, &SettingId::CaseBatteryLevel)),
        "2/5"
    );

    let buttons = ButtonConfigurationSettingHandler::new(button_configuration_settings());
    for (setting_id, expected) in [
        (SettingId::LeftSinglePress, "VolumeDown"),
        (SettingId::RightSinglePress, "PlayPause"),
        (SettingId::LeftDoublePress, "VolumeUp"),
        (SettingId::RightDoublePress, "NextSong"),
        (SettingId::LeftLongPress, "AmbientSoundMode"),
        (SettingId::RightLongPress, "AmbientSoundMode"),
    ] {
        assert_eq!(
            optional_select_value(buttons.get(
                &state.button_configuration,
                &state.tws_status,
                &setting_id
            )),
            Some(expected.to_string())
        );
    }
}

#[test]
fn sound_modes_bytes_read_back() {
    let modes = SoundModes {
        ambient_sound_mode: AmbientSoundMode::Transparency,
        noise_canceling_mode: NoiseCancelingMode::Adaptive,
        manual_noise_canceling: ManualNoiseCancelingNamed::Moderate,
        adaptive_noise_canceling: AdaptiveNoiseCancelingNamedNoiseLevel::MediumNoise,
        transparency_mode: TransparencyMode::FullyTransparent,
        wind_noise: WindNoise {
            is_suppression_enabled: true,
            is_detected: true,
        },
    };
    let bytes = modes.bytes();
    assert_eq!(bytes, [1, 0x21, 0, 1, 3, 0xFF]);
    assert_eq!(SoundModes::take(&bytes), Some(modes));
}

#[test]
fn a_short_body_is_not_a_state_update() {
    assert!(A3968StateUpdatePacket::take(&ISSUE_170_BODY[..100]).is_none());
    let mut state = issue_170_state();
    let before = state.clone();
    let handler = StateUpdatePacketHandler {};
    let short = Packet {
        direction: Direction::Inbound,
        command: Command([1, 1]),
        body: ISSUE_170_BODY[..50].to_vec(),
    };
    assert!(handler.handle_packet(&mut state, &short).is_err());
    assert_eq!(state, before);
}

#[test]
fn equalizer_and_hearing_data_are_read_from_the_body() {
    let state = issue_170_state();
    assert_eq!(state.equalizer_configuration.preset_id, 0xfefe);
    assert_eq!(
        state.equalizer_configuration.volume_adjustments[0].adjustments,
        vec![0; 10]
    );
    assert_eq!(
        state.equalizer_configuration.volume_adjustments[1].adjustments,
        vec![135, 135, 135, 135, 135, 135, 135, 135, 135, -72]
    );
    assert!(state.hear_id.is_enabled);
    assert_eq!(state.hear_id.time, u32::MAX);
    assert_eq!(state.hear_id.hear_id_type, 1);
    assert_eq!(state.hear_id.favorite_music_genre, 0);
    assert!(state.hear_id.custom_volume_adjustments[0].is_some());
}

#[test]
fn state_update_body_reads_back_as_the_same_packet() {
    let packet = A3968StateUpdatePacket::take(ISSUE_170_BODY).unwrap();
    let body = packet.body();
    assert_eq!(body.len(), 123);
    assert_eq!(A3968StateUpdatePacket::take(&body), Some(packet));
    // the known parts are where they were; the unknown bytes become zero
    assert_eq!(&body[..32], &ISSUE_170_BODY[..32]);
    assert_eq!(&body[110..123], &[97, 102, 48, 51, 68, 68, 0, 0, 50, 1, 0, 0, 255]);
}

#[test]
fn common_button_settings_table() {
    let settings = common_settings();
    let entries: Vec<_> = settings
        .settings
        .iter()
        .map(|s| (s.button_id, s.press_kind, s.parse_settings, s.disable_mode))
        .collect();
    assert_eq!(
        entries,
        vec![
            (
                0,
                ButtonPressKind::Double,
                ButtonParseSettings {
                    enabled_flag_kind: EnabledFlagKind::Single,
                    action_kind: ActionKind::TwsLowBits,
                },
                ButtonDisableMode::NotDisablable,
            ),
            (
                1,
                ButtonPressKind::Long,
                ButtonParseSettings {
                    enabled_flag_kind: EnabledFlagKind::Single,
                    action_kind: ActionKind::TwsLowBits,
                },
                ButtonDisableMode::NotDisablable,
            ),
            (
                2,
                ButtonPressKind::Single,
                ButtonParseSettings {
                    enabled_flag_kind: EnabledFlagKind::Single,
                    action_kind: ActionKind::Single,
                },
                ButtonDisableMode::DisablingOneSideDisablesOther,
            ),
        ]
    );
    let names: Vec<_> = settings.settings[2]
        .available_actions
        .iter()
        .map(|a| (a.id, a.name))
        .collect();
    assert_eq!(
        names,
        vec![
            (0, "VolumeUp"),
            (1, "VolumeDown"),
            (2, "PreviousSong"),
            (3, "NextSong"),
            (4, "AmbientSoundMode"),
            (5, "VoiceAssistant"),
            (6, "PlayPause"),
        ]
    );
    let single = settings.button_settings(Button::RightSinglePress).unwrap();
    assert_eq!(single.button_id, 2);
    assert_eq!(single.disable_mode, ButtonDisableMode::DisablingOneSideDisablesOther);
}

#[test]
fn default_statuses_need_only_settings_for_the_order() {
    // one button, whose other side is not in the order
    let settings = ButtonConfigurationSettings {
        supports_set_all_packet: false,
        use_enabled_flag_to_disable: false,
        order: vec![Button::LeftSinglePress],
        settings: vec![ButtonSettings {
            button_id: 2,
            press_kind: ButtonPressKind::Single,
            parse_settings: ButtonParseSettings {
                enabled_flag_kind: EnabledFlagKind::TwsLowBits,
                action_kind: ActionKind::Single,
            },
            disable_mode: ButtonDisableMode::IndividualDisable,
            available_actions: common_actions_minimal(),
        }],
    };
    let statuses = settings.default_status_collection();
    assert_eq!(
        statuses.statuses,
        vec![ButtonStatus {
            enabled: Some(EnabledStatus::Tws {
                connected: true,
                disconnected: true
            }),
            action: ActionStatus::Single(0),
        }]
    );
    assert_eq!(
        settings.parse_settings(),
        vec![ButtonParseSettings {
            enabled_flag_kind: EnabledFlagKind::TwsLowBits,
            action_kind: ActionKind::Single,
        }]
    );
}
