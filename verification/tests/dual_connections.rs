use openscq30_lib::dual_connections::{
    collect_dual_connection_devices, get_inner, handle_remove_command, handle_set_mac_addresses,
    set_inner, DualConnections, DualConnectionsDevice, DualConnectionsDevicePacket,
    DualConnectionsDevicePacketHandler, DualConnectionsStateModifier, MacAddress,
};
use openscq30_lib::settings::{
    MultiSelectWithRemoveCommand, Setting, SettingHandlerError, SettingId, Value, ValueError,
    ValueKind,
};

fn device(last: u8, is_connected: bool, name: &str) -> DualConnectionsDevice {
    DualConnectionsDevice {
        is_connected,
        mac_address: MacAddress::new([0, 0, 0, 0, 0, last]),
        name: name.to_string(),
    }
}

fn three_devices() -> Vec<DualConnectionsDevice> {
    vec![
        device(0, true, "First Device"),
        device(1, false, "Second Device"),
        device(2, true, "Third Device"),
    ]
}

#[test]
fn devices_in_separate_packets() {
    let handler = DualConnectionsDevicePacketHandler {};
    let mut state = DualConnections {
        is_enabled: true,
        devices: Vec::new(),
    };
    let devices = three_devices();
    for (i, device) in devices.iter().cloned().enumerate() {
        handler.handle_packet(
            &mut state,
            DualConnectionsDevicePacket {
                total_packets: devices.len() as u8,
                current_packet_index: (i + 1) as u8,
                devices: vec![device],
            },
        );
    }
    assert_eq!(
        state,
        DualConnections {
            is_enabled: true,
            devices,
        }
    );
}

#[test]
fn devices_in_one_packet() {
    let handler = DualConnectionsDevicePacketHandler {};
    let mut state = DualConnections {
        is_enabled: true,
        devices: Vec::new(),
    };
    let devices = three_devices();
    handler.handle_packet(
        &mut state,
        DualConnectionsDevicePacket {
            total_packets: 1,
            current_packet_index: 1,
            devices: devices.to_owned(),
        },
    );
    assert_eq!(
        state,
        DualConnections {
            is_enabled: true,
            devices,
        }
    );
}

#[test]
fn a_first_packet_replaces_the_known_devices() {
    let handler = DualConnectionsDevicePacketHandler {};
    let mut state = DualConnections {
        is_enabled: false,
        devices: three_devices(),
    };
    handler.handle_packet(
        &mut state,
        DualConnectionsDevicePacket {
            total_packets: 1,
            current_packet_index: 1,
            devices: vec![device(9, true, "Only")],
        },
    );
    assert_eq!(state.devices, vec![device(9, true, "Only")]);
    assert!(!state.is_enabled);
}

#[test]
fn collecting_stops_after_the_last_packet_or_an_unreadable_one() {
    let mut devices = Vec::new();
    let more = collect_dual_connection_devices(
        &mut devices,
        Some(DualConnectionsDevicePacket {
            total_packets: 2,
            current_packet_index: 1,
            devices: vec![device(0, true, "A")],
        }),
    );
    assert!(more);
    let more = collect_dual_connection_devices(
        &mut devices,
        Some(DualConnectionsDevicePacket {
            total_packets: 2,
            current_packet_index: 2,
            devices: vec![device(1, false, "B")],
        }),
    );
    assert!(!more);
    assert_eq!(devices, vec![device(0, true, "A"), device(1, false, "B")]);
    assert!(!collect_dual_connection_devices(&mut devices, None));
    assert_eq!(devices.len(), 2);
}

#[test]
fn mac_address_text_is_upper_case_with_colons() {
    let address = MacAddress::new([0xAC, 0xDE, 0x48, 0x23, 0x45, 0x67]);
    assert_eq!(address.text(), "AC:DE:48:23:45:67");
}

#[test]
fn devices_setting_shows_addresses_names_and_connected_devices() {
    let state = DualConnections {
        is_enabled: true,
        devices: three_devices(),
    };
    match get_inner(&state, &SettingId::DualConnectionsDevices) {
        Some(Setting::MultiSelectWithRemove {
            setting,
            labels,
            values,
        }) => {
            assert_eq!(
                setting.options,
                vec![
                    "00:00:00:00:00:00".to_string(),
                    "00:00:00:00:00:01".to_string(),
                    "00:00:00:00:00:02".to_string(),
                ]
            );
            assert_eq!(
                labels,
                vec![
                    "First Device".to_string(),
                    "Second Device".to_string(),
                    "Third Device".to_string(),
                ]
            );
            assert_eq!(
                values,
                vec![
                    "00:00:00:00:00:00".to_string(),
                    "00:00:00:00:00:02".to_string(),
                ]
            );
        }
        other => panic!("unexpected setting {other:?}"),
    }
    match get_inner(&state, &SettingId::DualConnections) {
        Some(Setting::Toggle { value }) => assert!(value),
        other => panic!("unexpected setting {other:?}"),
    }
    assert!(get_inner(&state, &SettingId::GamingMode).is_none());
}

#[test]
fn setting_connected_devices_by_address() {
    let mut state = DualConnections {
        is_enabled: true,
        devices: three_devices(),
    };
    let result = handle_set_mac_addresses(
        &mut state,
        vec!["00:00:00:00:00:01".to_string(), "00:00:00:00:00:02".to_string()],
    );
    assert!(result.is_ok());
    let connected: Vec<bool> = state.devices.iter().map(|d| d.is_connected).collect();
    assert_eq!(connected, vec![false, true, true]);
    // lower case and hyphens are addresses too
    let result = handle_set_mac_addresses(&mut state, vec!["00-00-00-00-00-00".to_string()]);
    assert!(result.is_ok());
    let connected: Vec<bool> = state.devices.iter().map(|d| d.is_connected).collect();
    assert_eq!(connected, vec![true, false, false]);
}

#[test]
fn more_than_two_addresses_change_nothing() {
    let mut state = DualConnections {
        is_enabled: true,
        devices: three_devices(),
    };
    let result = handle_set_mac_addresses(
        &mut state,
        vec![
            "00:00:00:00:00:00".to_string(),
            "00:00:00:00:00:01".to_string(),
            "00:00:00:00:00:02".to_string(),
        ],
    );
    assert!(result.is_ok());
    assert_eq!(state.devices, three_devices());
}

#[test]
fn a_text_that_is_no_address_is_refused() {
    let mut state = DualConnections {
        is_enabled: true,
        devices: three_devices(),
    };
    let result = handle_set_mac_addresses(&mut state, vec!["not an address".to_string()]);
    assert!(matches!(result, Err(SettingHandlerError::InvalidMacAddress(_))));
    assert_eq!(state.devices, three_devices());
}

#[test]
fn removing_a_device_by_address() {
    let mut state = DualConnections {
        is_enabled: true,
        devices: three_devices(),
    };
    handle_remove_command(&mut state, "00:00:00:00:00:01");
    assert_eq!(
        state.devices,
        vec![device(0, true, "First Device"), device(2, true, "Third Device")]
    );
    // unknown addresses and texts that are no address change nothing
    handle_remove_command(&mut state, "00:00:00:00:00:09");
    handle_remove_command(&mut state, "garbage");
    assert_eq!(state.devices.len(), 2);
}

#[test]
fn set_inner_dispatches_on_the_value() {
    let mut state = DualConnections {
        is_enabled: true,
        devices: three_devices(),
    };
    assert!(set_inner(&mut state, &SettingId::DualConnections, Value::Bool(false)).is_ok());
    assert!(!state.is_enabled);
    let result = set_inner(&mut state, &SettingId::DualConnections, Value::I32(1));
    assert!(matches!(
        result,
        Err(SettingHandlerError::ValueError(ValueError::WrongType {
            expected: ValueKind::Bool,
            ..
        }))
    ));
    let result = set_inner(
        &mut state,
        &SettingId::DualConnectionsDevices,
        Value::MultiSelectWithRemoveCommand(MultiSelectWithRemoveCommand::Remove(
            "00:00:00:00:00:00".to_string(),
        )),
    );
    assert!(result.is_ok());
    assert_eq!(state.devices.len(), 2);
    let result = set_inner(&mut state, &SettingId::DualConnectionsDevices, Value::Bool(true));
    assert!(matches!(
        result,
        Err(SettingHandlerError::ValueError(ValueError::WrongType {
            expected: ValueKind::StringVec,
            ..
        }))
    ));
}

#[test]
fn plan_disconnects_before_connecting() {
    let modifier = DualConnectionsStateModifier::new(());
    let current = DualConnections {
        is_enabled: true,
        devices: three_devices(),
    };
    let target = DualConnections {
        is_enabled: false,
        devices: vec![
            device(0, false, "First Device"),
            device(1, true, "Second Device"),
            device(2, true, "Third Device"),
        ],
    };
    let plan = modifier.plan(&Some(current.clone()), &Some(target));
    assert_eq!(plan.set_enabled, Some(false));
    assert_eq!(plan.disconnect, vec![MacAddress::new([0, 0, 0, 0, 0, 0])]);
    assert_eq!(plan.connect, vec![MacAddress::new([0, 0, 0, 0, 0, 1])]);
    let plan = modifier.plan(&Some(current.clone()), &Some(current.clone()));
    assert_eq!(plan.set_enabled, None);
    assert!(plan.disconnect.is_empty() && plan.connect.is_empty());
    let plan = modifier.plan(&None, &Some(current));
    assert_eq!(plan.set_enabled, None);
}

#[test]
fn addresses_in_other_forms_are_read_too() {
    let devices = vec![
        DualConnectionsDevice {
            is_connected: false,
            mac_address: MacAddress::new([0xAC, 0xDE, 0x48, 0x23, 0x45, 0x67]),
            name: "First Device".to_string(),
        },
        device(1, true, "Second Device"),
    ];
    for text in [
        "ac-de-48-23-45-67",
        "AC.DE.48.23.45.67",
        "acde48234567",
        ":AC:DE:48:23:45:67",
        "AC:DE48:23:45:67",
    ] {
        let mut state = DualConnections {
            is_enabled: true,
            devices: devices.clone(),
        };
        assert!(handle_set_mac_addresses(&mut state, vec![text.to_string()]).is_ok());
        assert!(state.devices[0].is_connected, "{text}");
        assert!(!state.devices[1].is_connected, "{text}");
    }
    for text in ["AC:DE-48:23:45:67", "AC:DE:48:23:45:6", "AC:DE:48:23:45:67:", "AC::DE:48:23:45:67"] {
        let mut state = DualConnections {
            is_enabled: true,
            devices: devices.clone(),
        };
        let result = handle_set_mac_addresses(&mut state, vec![text.to_string()]);
        assert!(matches!(result, Err(SettingHandlerError::InvalidMacAddress(_))), "{text}");
        assert_eq!(state.devices, devices);
    }
}
