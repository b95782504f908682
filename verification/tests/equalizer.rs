use openscq30_lib::equalizer::{
    get_inner, set_inner, values_to_volume_adjustments, CustomEqualizerProfile,
    EqualizerConfiguration, EqualizerModuleSettings, EqualizerPreset, EqualizerSettingHandler,
    EqualizerStateModifier, EqualizerStateModifierOptions, ProfileStoreCommand, VolumeAdjustments,
};
use openscq30_lib::settings::{
    ModifiableSelectCommand, Setting, SettingHandlerError, SettingId, Value, ValueError,
};
use openscq30_lib::structures::{HostDevice, TwsStatus};

fn module_settings() -> EqualizerModuleSettings {
    EqualizerModuleSettings {
        presets: vec![EqualizerPreset {
            id: 0,
            name: "SoundcoreSignature",
            volume_adjustments: vec![0; 10],
        }],
        custom_preset_id: Some(0xfefe),
        band_hz: vec![100, 200, 400, 800, 1600, 3200, 6400, 12800],
        channels: 2,
        bands: 10,
        visible_bands: 8,
        min_volume: -120,
        max_volume: 134,
        fraction_digits: 1,
        invisible_band_values: vec![0, 0],
    }
}

fn configuration(preset_id: u16, channel: Vec<i16>) -> EqualizerConfiguration {
    EqualizerConfiguration {
        preset_id,
        volume_adjustments: vec![
            VolumeAdjustments {
                adjustments: channel.clone(),
            },
            VolumeAdjustments {
                adjustments: channel,
            },
        ],
    }
}

fn profile(name: &str, values: Vec<i16>) -> CustomEqualizerProfile {
    CustomEqualizerProfile {
        name: name.to_string(),
        volume_adjustments: values,
    }
}

#[test]
fn custom_profiles_only_save_visible_bands() {
    let settings = module_settings();
    let mut state = configuration(0xfefe, vec![0; 10]);
    let command = set_inner(
        &mut state,
        &settings,
        &Vec::new(),
        &SettingId::CustomEqualizerProfile,
        Value::ModifiableSelectCommand(ModifiableSelectCommand::Add("test profile".to_string())),
    )
    .unwrap();
    assert_eq!(
        command,
        Some(ProfileStoreCommand::Upsert {
            name: "test profile".to_string(),
            volume_adjustments: vec![0; 8],
        })
    );
}

#[test]
fn activating_custom_profiles_with_more_bands_than_visible_ignores_invisible_bands() {
    let settings = module_settings();
    let profiles = vec![profile("test profile", vec![1; 10])];
    let mut state = configuration(0xfefe, vec![0; 10]);
    set_inner(
        &mut state,
        &settings,
        &profiles,
        &SettingId::CustomEqualizerProfile,
        Value::String("test profile".to_string()),
    )
    .unwrap();
    assert_eq!(
        state,
        configuration(0xfefe, vec![1, 1, 1, 1, 1, 1, 1, 1, 0, 0])
    );
}

#[test]
fn activating_custom_profiles_with_too_few_bands_infers_0() {
    let settings = module_settings();
    let profiles = vec![profile("test profile", vec![1; 1])];
    let mut state = configuration(0xfefe, vec![2; 10]);
    set_inner(
        &mut state,
        &settings,
        &profiles,
        &SettingId::CustomEqualizerProfile,
        Value::String("test profile".to_string()),
    )
    .unwrap();
    assert_eq!(
        state,
        configuration(0xfefe, vec![1, 0, 0, 0, 0, 0, 0, 0, 0, 0])
    );
}

#[test]
fn newly_created_custom_profile_is_immediately_active() {
    let settings = module_settings();
    let mut profiles: Vec<CustomEqualizerProfile> = Vec::new();
    let mut state = configuration(0xfefe, vec![2; 10]);
    set_inner(
        &mut state,
        &settings,
        &profiles,
        &SettingId::VolumeAdjustments,
        Value::I16Vec(vec![1, 2, 3, 4, 5, 6, 7, 8]),
    )
    .unwrap();
    let command = set_inner(
        &mut state,
        &settings,
        &profiles,
        &SettingId::CustomEqualizerProfile,
        Value::ModifiableSelectCommand(ModifiableSelectCommand::Add("test profile".to_string())),
    )
    .unwrap();
    match command {
        Some(ProfileStoreCommand::Upsert {
            name,
            volume_adjustments,
        }) => profiles.push(CustomEqualizerProfile {
            name,
            volume_adjustments,
        }),
        other => panic!("expected an upsert, got {other:?}"),
    }
    let custom_profile_setting =
        get_inner(&state, &settings, &profiles, &SettingId::CustomEqualizerProfile).unwrap();
    let Setting::ModifiableSelect {
        value: custom_profile,
        ..
    } = custom_profile_setting
    else {
        panic!("setting should be ModifiableSelect: {custom_profile_setting:?}");
    };
    assert_eq!(custom_profile, Some("test profile".to_string()));
}

#[test]
fn volume_adjustments_set_then_get() {
    let settings = module_settings();
    let mut state = configuration(0, vec![0; 10]);
    set_inner(
        &mut state,
        &settings,
        &Vec::new(),
        &SettingId::VolumeAdjustments,
        Value::I16Vec(vec![10, -20, 30, -40, 50, -60, 70, -80]),
    )
    .unwrap();
    assert_eq!(state.preset_id, 0xfefe);
    match get_inner(&state, &settings, &Vec::new(), &SettingId::VolumeAdjustments) {
        Some(Setting::Equalizer {
            setting,
            read_only,
            value,
        }) => {
            assert_eq!(value, vec![10, -20, 30, -40, 50, -60, 70, -80]);
            assert!(!read_only);
            assert_eq!(setting.band_hz.len(), 8);
            assert_eq!(setting.min, -120);
            assert_eq!(setting.max, 134);
        }
        other => panic!("unexpected setting {other:?}"),
    }
}

#[test]
fn volume_adjustments_of_the_wrong_length_are_refused() {
    let settings = module_settings();
    let mut state = configuration(0, vec![0; 10]);
    let result = set_inner(
        &mut state,
        &settings,
        &Vec::new(),
        &SettingId::VolumeAdjustments,
        Value::I16Vec(vec![1, 2, 3]),
    );
    assert!(matches!(
        result,
        Err(SettingHandlerError::ValueError(ValueError::WrongLength {
            expected: 8,
            actual: 3
        }))
    ));
    assert_eq!(state, configuration(0, vec![0; 10]));
}

#[test]
fn without_custom_profiles_volume_adjustments_are_read_only() {
    let mut settings = module_settings();
    settings.custom_preset_id = None;
    let mut state = configuration(0, vec![0; 10]);
    let result = set_inner(
        &mut state,
        &settings,
        &Vec::new(),
        &SettingId::VolumeAdjustments,
        Value::I16Vec(vec![0; 8]),
    );
    assert!(matches!(result, Err(SettingHandlerError::ReadOnly)));
    assert!(get_inner(&state, &settings, &Vec::new(), &SettingId::CustomEqualizerProfile).is_none());
}

#[test]
fn presets_are_chosen_by_name() {
    let settings = module_settings();
    let mut state = configuration(0xfefe, vec![5; 10]);
    set_inner(
        &mut state,
        &settings,
        &Vec::new(),
        &SettingId::PresetEqualizerProfile,
        Value::String("SoundcoreSignature".to_string()),
    )
    .unwrap();
    assert_eq!(state, configuration(0, vec![0; 10]));
    match get_inner(&state, &settings, &Vec::new(), &SettingId::PresetEqualizerProfile) {
        Some(Setting::OptionalSelect { value, .. }) => {
            assert_eq!(value, Some("SoundcoreSignature".to_string()))
        }
        other => panic!("unexpected setting {other:?}"),
    }
    // an unknown name changes nothing
    set_inner(
        &mut state,
        &settings,
        &Vec::new(),
        &SettingId::PresetEqualizerProfile,
        Value::String("NoSuchPreset".to_string()),
    )
    .unwrap();
    assert_eq!(state, configuration(0, vec![0; 10]));
}

#[test]
fn invisible_bands_take_their_fixed_values() {
    let mut settings = module_settings();
    settings.invisible_band_values = vec![7, 8];
    let configuration = values_to_volume_adjustments(3, &vec![1; 8], &settings);
    assert_eq!(configuration.preset_id, 3);
    assert_eq!(configuration.volume_adjustments.len(), 2);
    assert_eq!(
        configuration.volume_adjustments[1].adjustments,
        vec![1, 1, 1, 1, 1, 1, 1, 1, 7, 8]
    );
}

#[test]
fn equalizer_is_hidden_while_earbuds_are_apart() {
    let handler = EqualizerSettingHandler::new(module_settings()).with_tws();
    let mut state = configuration(0, vec![0; 10]);
    let apart = TwsStatus {
        host_device: HostDevice::Left,
        is_connected: false,
    };
    assert!(handler
        .get(&state, &apart, &Vec::new(), &SettingId::VolumeAdjustments)
        .is_none());
    let result = handler.set(
        &mut state,
        &apart,
        &Vec::new(),
        &SettingId::VolumeAdjustments,
        Value::I16Vec(vec![1; 8]),
    );
    assert!(matches!(result, Ok(None)));
    assert_eq!(state, configuration(0, vec![0; 10]));
}

#[test]
fn state_modifier_sends_only_changes() {
    let modifier = EqualizerStateModifier::new((), EqualizerStateModifierOptions { has_drc: true });
    let current = configuration(0, vec![0; 10]);
    let target = configuration(0xfefe, vec![1; 10]);
    assert!(modifier.plan(&current, &current.clone()).is_none());
    assert_eq!(modifier.plan(&current, &target), Some(target.clone()));
    assert!(modifier.options().has_drc);
}

#[test]
fn handler_hands_out_store_commands() {
    let handler = EqualizerSettingHandler::new(module_settings()).with_tws();
    let connected = TwsStatus {
        host_device: HostDevice::Left,
        is_connected: true,
    };
    let mut state = configuration(0xfefe, vec![3; 10]);
    let add = handler.set(
        &mut state,
        &connected,
        &Vec::new(),
        &SettingId::CustomEqualizerProfile,
        Value::ModifiableSelectCommand(ModifiableSelectCommand::Add("mine".to_string())),
    );
    assert_eq!(
        add.unwrap(),
        Some(ProfileStoreCommand::Upsert {
            name: "mine".to_string(),
            volume_adjustments: vec![3; 8],
        })
    );
    let remove = handler.set(
        &mut state,
        &connected,
        &vec![profile("mine", vec![3; 8])],
        &SettingId::CustomEqualizerProfile,
        Value::ModifiableSelectCommand(ModifiableSelectCommand::Remove("mine".to_string())),
    );
    assert_eq!(
        remove.unwrap(),
        Some(ProfileStoreCommand::Delete {
            name: "mine".to_string()
        })
    );
    assert_eq!(state, configuration(0xfefe, vec![3; 10]));
    let disconnected = TwsStatus {
        host_device: HostDevice::Left,
        is_connected: false,
    };
    let blocked = handler.set(
        &mut state,
        &disconnected,
        &Vec::new(),
        &SettingId::CustomEqualizerProfile,
        Value::ModifiableSelectCommand(ModifiableSelectCommand::Add("mine".to_string())),
    );
    assert_eq!(blocked.unwrap(), None);
}
