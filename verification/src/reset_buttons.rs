//! Resetting the button configuration to the device's defaults.

use vstd::prelude::*;

use crate::settings::{Setting, SettingHandlerError, SettingId, SettingView, Value};

verus! {

/// Set when the user asked for the buttons to be reset to their defaults.
#[derive(Debug, Clone, Copy, PartialEq, Eq, Default, Hash, Structural)]
pub struct ResetButtonConfigurationPending(pub bool);

/// The settings of the reset module.
#[derive(Debug, Clone, Copy, PartialEq, Eq, Hash, Structural)]
pub enum ResetButtonConfigurationSetting {
    ResetButtonsToDefault,
}

impl ResetButtonConfigurationSetting {
    pub open spec fn spec_from_setting_id(id: SettingId) -> Option<Self> {
        match id {
            SettingId::ResetButtonsToDefault => Some(
                ResetButtonConfigurationSetting::ResetButtonsToDefault,
            ),
            _ => None,
        }
    }

    pub fn from_setting_id(id: SettingId) -> (r: Option<Self>)
        ensures
            r == Self::spec_from_setting_id(id),
    {
        match id {
            SettingId::ResetButtonsToDefault => Some(
                ResetButtonConfigurationSetting::ResetButtonsToDefault,
            ),
            _ => None,
        }
    }
}

/// Shows the reset as an action; using it marks the reset as pending.
pub struct ResetButtonConfigurationSettingHandler {}

impl ResetButtonConfigurationSettingHandler {
    pub fn new() -> Self {
        ResetButtonConfigurationSettingHandler {}
    }

    pub fn settings(&self) -> (r: Vec<SettingId>)
        ensures
            r@ == seq![SettingId::ResetButtonsToDefault],
    {
        let r = vec![SettingId::ResetButtonsToDefault];
        assert(r@ =~= seq![SettingId::ResetButtonsToDefault]);
        r
    }

    pub fn get(&self, setting_id: &SettingId) -> (r: Option<Setting>)
        ensures
            match ResetButtonConfigurationSetting::spec_from_setting_id(*setting_id) {
                Some(_) => r matches Some(s) && s@ == SettingView::Action,
                None => r is None,
            },
    {
        let setting = ResetButtonConfigurationSetting::from_setting_id(*setting_id)?;
        Some(
            match setting {
                ResetButtonConfigurationSetting::ResetButtonsToDefault => Setting::Action,
            },
        )
    }

    /// Marks the reset as pending, whatever the value.
    pub fn set(
        &self,
        pending: &mut ResetButtonConfigurationPending,
        setting_id: &SettingId,
        value: Value,
    ) -> (r: Result<(), SettingHandlerError>)
        requires
            ResetButtonConfigurationSetting::spec_from_setting_id(*setting_id) is Some,
        ensures
            r is Ok,
            final(pending).0,
    {
        let setting = ResetButtonConfigurationSetting::from_setting_id(*setting_id).unwrap();
        match setting {
            ResetButtonConfigurationSetting::ResetButtonsToDefault => {
                pending.0 = true;
            },
        }
        Ok(())
    }
}

/// What the reset consists of, in order.
#[derive(Debug, Clone, Copy, PartialEq, Eq, Structural)]
pub enum ResetButtonConfigurationStep {
    /// Ask the device to reset its buttons, and wait for its acknowledgement.
    SendReset,
    /// Ask the device for its button configuration and update the state with the answer.
    RefreshButtonState,
}

/// Resets the buttons when the target state asks for it. `P` is the handle through which the
/// caller sends packets, `F` what fetches the button configuration afterwards.
pub struct ResetButtonConfigurationStateModifier<P, F> {
    packet_io: P,
    refresh_button_state: F,
}

impl<P, F> ResetButtonConfigurationStateModifier<P, F> {
    pub closed spec fn spec_refresh_button_state(&self) -> F {
        self.refresh_button_state
    }

    pub fn new(packet_io: P, refresh_button_state: F) -> (r: Self)
        ensures
            r.spec_packet_io() == packet_io,
            r.spec_refresh_button_state() == refresh_button_state,
    {
        ResetButtonConfigurationStateModifier { packet_io, refresh_button_state }
    }

    pub closed spec fn spec_packet_io(&self) -> P {
        self.packet_io
    }

    pub fn packet_io(&self) -> (r: &P)
        ensures
            *r == self.spec_packet_io(),
    {
        &self.packet_io
    }

    pub fn refresh_button_state(&self) -> (r: &F)
        ensures
            *r == self.spec_refresh_button_state(),
    {
        &self.refresh_button_state
    }

    /// The steps to take: a reset and a refresh when the target has a reset pending, else none.
    pub fn plan(&self, target: &ResetButtonConfigurationPending) -> (r: Vec<
        ResetButtonConfigurationStep,
    >)
        ensures
            r@ == (if target.0 {
                seq![
                    ResetButtonConfigurationStep::SendReset,
                    ResetButtonConfigurationStep::RefreshButtonState,
                ]
            } else {
                Seq::<ResetButtonConfigurationStep>::empty()
            }),
    {
        let mut r: Vec<ResetButtonConfigurationStep> = Vec::new();
        if target.0 {
            r.push(ResetButtonConfigurationStep::SendReset);
            r.push(ResetButtonConfigurationStep::RefreshButtonState);
        }
        assert(r@ =~= (if target.0 {
            seq![
                ResetButtonConfigurationStep::SendReset,
                ResetButtonConfigurationStep::RefreshButtonState,
            ]
        } else {
            Seq::<ResetButtonConfigurationStep>::empty()
        }));
        r
    }
}

} // verus!
