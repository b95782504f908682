# openscq30_lib

Protocol logic for Soundcore Bluetooth earbuds and headphones, verified with Verus.

`src/` holds the verified library:

- `packet`: framing of packets (direction prefix, command, length, body, checksum).
- `structures`: byte layouts shared by devices (sound modes, batteries, firmware versions,
  serial numbers, button actions, ...).
- `settings`: the settings a device shows and the values that change them.
- one module per feature (`auto_power_off`, `battery`, `button_configuration`,
  `dual_connections`, `equalizer`, `flag`, `gaming_mode`, `limit_high_volume`,
  `reset_buttons`, `sound_mode_cycle`, `device_info`): the setting handlers that show and
  change a feature, the packet handlers that apply the device's reports, and the state
  modifiers that plan what to send to reach a target state;
- `a3959`, `a3968`: device specific formats, states and modules;
- `import_export`: which custom equalizer profiles are picked for export;
- `module_collection`: the modules registered for a device;
- `demo`: the answers of the demo device.

State modifiers do not send anything themselves: each `plan` says what to send, and the caller
sends it and applies the result. The A3959's sound modes change step by step:
`SoundModesChange` takes what came of each send and says what to send next and what the state
is, which is the last step that the device acknowledged.

`app/` holds what needs I/O, floating point or outside traits: JSON import and export of custom
equalizer profiles, English wording, the demo connection's channels, and the loops that send
what the plans of dual connections, sound modes, buttons, flags, gaming mode, the high volume
limit and the sound mode cycle say, taking each acknowledged step into the state.
