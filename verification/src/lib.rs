//! Protocol logic for Soundcore Bluetooth audio devices: packet framing, the byte layouts of
//! device structures, the settings exposed for each feature, and the plans that move a device
//! from its current state to a wanted one.

pub mod text;
pub mod settings;
pub mod packet;
pub mod structures;
pub mod button_configuration;
pub mod a3959;
pub mod reset_buttons;
pub mod sound_mode_cycle;
pub mod auto_power_off;
pub mod battery;
pub mod dual_connections;
pub mod flag;
pub mod gaming_mode;
pub mod limit_high_volume;
pub mod equalizer;
pub mod import_export;
pub mod device_info;
pub mod a3968;
pub mod demo;
pub mod module_collection;
pub mod device;
