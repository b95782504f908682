//! Read-only information about the device: serial number, firmware versions, and whether the
//! earbuds are connected to each other.

use vstd::prelude::*;

use crate::settings::{Setting, SettingHandlerError, SettingId, SettingView, Translation, TranslationView};
use crate::structures::{DualFirmwareVersion, HostDevice, SerialNumber, TwsStatus};
use crate::text::owned;

verus! {

/// Read-only text shown as it is.
pub open spec fn spec_information(text: Seq<char>) -> SettingView {
    SettingView::Information { value: text, translated_value: TranslationView::Verbatim(text) }
}

fn information(text: String) -> (r: Setting)
    ensures
        r@ == spec_information(text@),
{
    let translated = text.clone();
    Setting::Information { value: text, translated_value: Translation::Verbatim(translated) }
}

/// The settings of the serial number and firmware version module.
#[derive(Debug, Clone, Copy, PartialEq, Eq, Hash, Structural)]
pub enum SerialNumberAndDualFirmwareVersionSetting {
    SerialNumber,
    FirmwareVersionLeft,
    FirmwareVersionRight,
}

impl SerialNumberAndDualFirmwareVersionSetting {
    pub open spec fn spec_from_setting_id(id: SettingId) -> Option<Self> {
        match id {
            SettingId::SerialNumber => Some(SerialNumberAndDualFirmwareVersionSetting::SerialNumber),
            SettingId::FirmwareVersionLeft => Some(
                SerialNumberAndDualFirmwareVersionSetting::FirmwareVersionLeft,
            ),
            SettingId::FirmwareVersionRight => Some(
                SerialNumberAndDualFirmwareVersionSetting::FirmwareVersionRight,
            ),
            _ => None,
        }
    }

    pub fn from_setting_id(id: SettingId) -> (r: Option<Self>)
        ensures
            r == Self::spec_from_setting_id(id),
    {
        match id {
            SettingId::SerialNumber => Some(SerialNumberAndDualFirmwareVersionSetting::SerialNumber),
            SettingId::FirmwareVersionLeft => Some(
                SerialNumberAndDualFirmwareVersionSetting::FirmwareVersionLeft,
            ),
            SettingId::FirmwareVersionRight => Some(
                SerialNumberAndDualFirmwareVersionSetting::FirmwareVersionRight,
            ),
            _ => None,
        }
    }
}

/// Shows the serial number and both earbuds' firmware versions.
#[derive(Debug, Default, Clone, Copy)]
pub struct SerialNumberAndFirmwareVersionSettingHandler {}

impl SerialNumberAndFirmwareVersionSettingHandler {
    pub fn settings(&self) -> (r: Vec<SettingId>)
        ensures
            r@ == seq![
                SettingId::SerialNumber,
                SettingId::FirmwareVersionLeft,
                SettingId::FirmwareVersionRight,
            ],
    {
        let r = vec![
            SettingId::SerialNumber,
            SettingId::FirmwareVersionLeft,
            SettingId::FirmwareVersionRight,
        ];
        assert(r@ =~= seq![
            SettingId::SerialNumber,
            SettingId::FirmwareVersionLeft,
            SettingId::FirmwareVersionRight,
        ]);
        r
    }

    pub open spec fn spec_get(
        serial_number: SerialNumber,
        firmware_version: DualFirmwareVersion,
        setting_id: SettingId,
    ) -> Option<SettingView> {
        match SerialNumberAndDualFirmwareVersionSetting::spec_from_setting_id(setting_id) {
            Some(SerialNumberAndDualFirmwareVersionSetting::SerialNumber) => Some(
                spec_information(serial_number.spec_text()),
            ),
            Some(SerialNumberAndDualFirmwareVersionSetting::FirmwareVersionLeft) => Some(
                spec_information(firmware_version.left.spec_text()),
            ),
            Some(SerialNumberAndDualFirmwareVersionSetting::FirmwareVersionRight) => Some(
                spec_information(firmware_version.right.spec_text()),
            ),
            None => None,
        }
    }

    pub fn get(
        &self,
        serial_number: &SerialNumber,
        firmware_version: &DualFirmwareVersion,
        setting_id: &SettingId,
    ) -> (r: Option<Setting>)
        requires
            firmware_version.left.is_well_formed(),
            firmware_version.right.is_well_formed(),
        ensures
            match Self::spec_get(*serial_number, *firmware_version, *setting_id) {
                Some(v) => r matches Some(s) && s@ == v,
                None => r is None,
            },
    {
        let setting = SerialNumberAndDualFirmwareVersionSetting::from_setting_id(*setting_id)?;
        Some(
            match setting {
                SerialNumberAndDualFirmwareVersionSetting::SerialNumber => information(
                    serial_number.text(),
                ),
                SerialNumberAndDualFirmwareVersionSetting::FirmwareVersionLeft => information(
                    firmware_version.left.text(),
                ),
                SerialNumberAndDualFirmwareVersionSetting::FirmwareVersionRight => information(
                    firmware_version.right.text(),
                ),
            },
        )
    }

    /// The information is read only.
    pub fn set(&self, setting_id: &SettingId) -> (r: Result<(), SettingHandlerError>)
        ensures
            r matches Err(SettingHandlerError::ReadOnly),
    {
        Err(SettingHandlerError::ReadOnly)
    }
}

/// The settings of the TWS status module.
#[derive(Debug, Clone, Copy, PartialEq, Eq, Hash, Structural)]
pub enum TwsStatusSetting {
    TwsStatus,
    HostDevice,
}

impl TwsStatusSetting {
    pub open spec fn spec_from_setting_id(id: SettingId) -> Option<Self> {
        match id {
            SettingId::TwsStatus => Some(TwsStatusSetting::TwsStatus),
            SettingId::HostDevice => Some(TwsStatusSetting::HostDevice),
            _ => None,
        }
    }

    pub fn from_setting_id(id: SettingId) -> (r: Option<Self>)
        ensures
            r == Self::spec_from_setting_id(id),
    {
        match id {
            SettingId::TwsStatus => Some(TwsStatusSetting::TwsStatus),
            SettingId::HostDevice => Some(TwsStatusSetting::HostDevice),
            _ => None,
        }
    }
}

/// "Connected" or "Disconnected".
pub open spec fn spec_connection_text(is_connected: bool) -> Seq<char> {
    if is_connected {
        "Connected"@
    } else {
        "Disconnected"@
    }
}

/// "Left" or "Right".
pub open spec fn spec_host_device_text(host_device: HostDevice) -> Seq<char> {
    match host_device {
        HostDevice::Left => "Left"@,
        HostDevice::Right => "Right"@,
    }
}

/// Shows whether the earbuds are connected to each other and which one the host talks to.
#[derive(Debug, Default, Clone, Copy)]
pub struct TwsStatusSettingHandler {}

impl TwsStatusSettingHandler {
    pub fn settings(&self) -> (r: Vec<SettingId>)
        ensures
            r@ == seq![SettingId::TwsStatus, SettingId::HostDevice],
    {
        let r = vec![SettingId::TwsStatus, SettingId::HostDevice];
        assert(r@ =~= seq![SettingId::TwsStatus, SettingId::HostDevice]);
        r
    }

    pub open spec fn spec_get(tws_status: TwsStatus, setting_id: SettingId) -> Option<SettingView> {
        match TwsStatusSetting::spec_from_setting_id(setting_id) {
            Some(TwsStatusSetting::TwsStatus) => Some(
                spec_information(spec_connection_text(tws_status.is_connected)),
            ),
            Some(TwsStatusSetting::HostDevice) => Some(
                spec_information(spec_host_device_text(tws_status.host_device)),
            ),
            None => None,
        }
    }

    pub fn get(&self, tws_status: &TwsStatus, setting_id: &SettingId) -> (r: Option<Setting>)
        ensures
            match Self::spec_get(*tws_status, *setting_id) {
                Some(v) => r matches Some(s) && s@ == v,
                None => r is None,
            },
    {
        let setting = TwsStatusSetting::from_setting_id(*setting_id)?;
        Some(
            match setting {
                TwsStatusSetting::TwsStatus => information(
                    if tws_status.is_connected {
                        owned("Connected")
                    } else {
                        owned("Disconnected")
                    },
                ),
                TwsStatusSetting::HostDevice => information(
                    match tws_status.host_device {
                        HostDevice::Left => owned("Left"),
                        HostDevice::Right => owned("Right"),
                    },
                ),
            },
        )
    }

    /// The status is read only.
    pub fn set(&self, setting_id: &SettingId) -> (r: Result<(), SettingHandlerError>)
        ensures
            r matches Err(SettingHandlerError::ReadOnly),
    {
        Err(SettingHandlerError::ReadOnly)
    }
}

/// Whether two byte sequences hold the same bytes.
fn same_bytes(a: &Vec<u8>, b: &Vec<u8>) -> (r: bool)
    ensures
        r == (a@ == b@),
{
    if a.len() != b.len() {
        return false;
    }
    let mut i: usize = 0;
    while i < a.len()
        invariant
            i <= a@.len(),
            a@.len() == b@.len(),
            a@.subrange(0, i as int) == b@.subrange(0, i as int),
        decreases a@.len() - i,
    {
        if a[i] != b[i] {
            assert(a@.subrange(0, i as int + 1).last() != b@.subrange(0, i as int + 1).last());
            return false;
        }
        assert(a@.subrange(0, i as int + 1) =~= a@.subrange(0, i as int).push(a@[i as int]));
        assert(b@.subrange(0, i as int + 1) =~= b@.subrange(0, i as int).push(b@[i as int]));
        i = i + 1;
    }
    assert(a@ =~= a@.subrange(0, i as int));
    assert(b@ =~= b@.subrange(0, i as int));
    true
}

/// Applies the device's report of its serial number and firmware versions to the state.
#[derive(Debug, Default, Clone, Copy)]
pub struct SerialNumberAndDualFirmwareVersionPacketHandler {}

impl SerialNumberAndDualFirmwareVersionPacketHandler {
    /// Takes over the reported serial number and firmware versions; the result tells whether
    /// either changed.
    pub fn handle_packet(
        &self,
        serial_number: &mut SerialNumber,
        firmware_version: &mut DualFirmwareVersion,
        reported_serial_number: SerialNumber,
        reported_firmware_version: DualFirmwareVersion,
    ) -> (r: bool)
        ensures
            final(serial_number).bytes@ == reported_serial_number.bytes@,
            *final(firmware_version) == reported_firmware_version,
            r == (reported_serial_number.bytes@ != old(serial_number).bytes@
                || reported_firmware_version != *old(firmware_version)),
    {
        let modified = !same_bytes(&serial_number.bytes, &reported_serial_number.bytes)
            || *firmware_version != reported_firmware_version;
        *serial_number = reported_serial_number;
        *firmware_version = reported_firmware_version;
        modified
    }
}

} // verus!
