//! Importing and exporting custom equalizer profiles: the profiles picked for export, the
//! settings that show the pick, and the text to import. The JSON text itself, whose values are
//! decibels with a fractional part, is written and read by the caller.

use vstd::prelude::*;

use crate::equalizer::CustomEqualizerProfile;
use crate::settings::{Select, Setting, SettingHandlerError, SettingId, SettingView, Translation, TranslationView, Value, ValueKind};
use crate::text::str_eq;

verus! {

/// The settings of the import and export module.
#[derive(Debug, Clone, Copy, PartialEq, Eq, Hash, Structural)]
pub enum ImportExportSetting {
    ImportCustomEqualizerProfiles,
    ExportCustomEqualizerProfiles,
    ExportCustomEqualizerProfilesOutput,
}

impl ImportExportSetting {
    pub open spec fn spec_from_setting_id(id: SettingId) -> Option<Self> {
        match id {
            SettingId::ImportCustomEqualizerProfiles => Some(
                ImportExportSetting::ImportCustomEqualizerProfiles,
            ),
            SettingId::ExportCustomEqualizerProfiles => Some(
                ImportExportSetting::ExportCustomEqualizerProfiles,
            ),
            SettingId::ExportCustomEqualizerProfilesOutput => Some(
                ImportExportSetting::ExportCustomEqualizerProfilesOutput,
            ),
            _ => None,
        }
    }

    pub fn from_setting_id(id: SettingId) -> (r: Option<Self>)
        ensures
            r == Self::spec_from_setting_id(id),
    {
        match id {
            SettingId::ImportCustomEqualizerProfiles => Some(
                ImportExportSetting::ImportCustomEqualizerProfiles,
            ),
            SettingId::ExportCustomEqualizerProfiles => Some(
                ImportExportSetting::ExportCustomEqualizerProfiles,
            ),
            SettingId::ExportCustomEqualizerProfilesOutput => Some(
                ImportExportSetting::ExportCustomEqualizerProfilesOutput,
            ),
            _ => None,
        }
    }
}

/// A profile as plain values: its name and its volume adjustments.
pub open spec fn profile_view(p: CustomEqualizerProfile) -> (Seq<char>, Seq<i16>) {
    (p.name@, p.volume_adjustments@)
}

/// The profiles whose names the selection holds, in the order of `profiles`.
pub open spec fn spec_selected_profiles(
    profiles: Seq<(Seq<char>, Seq<i16>)>,
    selection: Seq<Seq<char>>,
) -> Seq<(Seq<char>, Seq<i16>)> {
    profiles.filter(|p: (Seq<char>, Seq<i16>)| selection.contains(p.0))
}

/// The names of the profiles, in order.
pub open spec fn spec_names(profiles: Seq<(Seq<char>, Seq<i16>)>) -> Seq<Seq<char>> {
    profiles.map_values(|p: (Seq<char>, Seq<i16>)| p.0)
}

/// Whether the selection holds `name`.
fn contains_name(selection: &Vec<String>, name: &str) -> (r: bool)
    ensures
        r == selection.deep_view().contains(name@),
{
    let mut i: usize = 0;
    while i < selection.len()
        invariant
            i <= selection@.len(),
            forall|k: int| 0 <= k < i ==> selection.deep_view()[k] != name@,
        decreases selection@.len() - i,
    {
        if str_eq(selection[i].as_str(), name) {
            assert(selection.deep_view()[i as int] == name@);
            return true;
        }
        i = i + 1;
    }
    false
}

fn clone_profile(p: &CustomEqualizerProfile) -> (r: CustomEqualizerProfile)
    ensures
        profile_view(r) == profile_view(*p),
{
    CustomEqualizerProfile { name: p.name.clone(), volume_adjustments: p.volume_adjustments.clone() }
}

/// Shows which custom profiles are picked for export and takes the text of an import. The pick
/// holds names; a profile is exported when the pick holds its name.
pub struct ImportExportSettingHandler {
    selected_profiles: Vec<String>,
}

impl ImportExportSettingHandler {
    /// The names picked for export.
    pub closed spec fn spec_selection(&self) -> Seq<Seq<char>> {
        self.selected_profiles.deep_view()
    }

    /// A handler with nothing picked.
    pub fn new() -> (r: Self)
        ensures
            r.spec_selection() == Seq::<Seq<char>>::empty(),
    {
        let selected_profiles: Vec<String> = Vec::new();
        assert(selected_profiles.deep_view() =~= Seq::<Seq<char>>::empty());
        ImportExportSettingHandler { selected_profiles }
    }

    pub fn settings(&self) -> (r: Vec<SettingId>)
        ensures
            r@ == seq![
                SettingId::ImportCustomEqualizerProfiles,
                SettingId::ExportCustomEqualizerProfiles,
                SettingId::ExportCustomEqualizerProfilesOutput,
            ],
    {
        let r = vec![
            SettingId::ImportCustomEqualizerProfiles,
            SettingId::ExportCustomEqualizerProfiles,
            SettingId::ExportCustomEqualizerProfilesOutput,
        ];
        assert(r@ =~= seq![
            SettingId::ImportCustomEqualizerProfiles,
            SettingId::ExportCustomEqualizerProfiles,
            SettingId::ExportCustomEqualizerProfilesOutput,
        ]);
        r
    }

    /// The picked profiles, in the order of `profiles`: what the export holds.
    pub fn selected_profiles(&self, profiles: &Vec<CustomEqualizerProfile>) -> (r: Vec<
        CustomEqualizerProfile,
    >)
        ensures
            r@.map_values(|p: CustomEqualizerProfile| profile_view(p)) == spec_selected_profiles(
                profiles@.map_values(|p: CustomEqualizerProfile| profile_view(p)),
                self.spec_selection(),
            ),
    {
        let ghost all = profiles@.map_values(|p: CustomEqualizerProfile| profile_view(p));
        let ghost sel = self.spec_selection();
        let mut r: Vec<CustomEqualizerProfile> = Vec::new();
        let mut i: usize = 0;
        while i < profiles.len()
            invariant
                i <= profiles@.len(),
                all == profiles@.map_values(|p: CustomEqualizerProfile| profile_view(p)),
                sel == self.spec_selection(),
                r@.map_values(|p: CustomEqualizerProfile| profile_view(p)) == spec_selected_profiles(
                    all.subrange(0, i as int),
                    sel,
                ),
            decreases profiles@.len() - i,
        {
            let ghost before = r@.map_values(|p: CustomEqualizerProfile| profile_view(p));
            proof {
                assert(all.subrange(0, i + 1).drop_last() =~= all.subrange(0, i as int));
                reveal(Seq::filter);
            }
            if contains_name(&self.selected_profiles, profiles[i].name.as_str()) {
                r.push(clone_profile(&profiles[i]));
                assert(r@.map_values(|p: CustomEqualizerProfile| profile_view(p)) =~= before.push(
                    all[i as int],
                ));
            }
            i = i + 1;
        }
        assert(all.subrange(0, i as int) =~= all);
        r
    }

    /// The names of the picked profiles, in the order of `profiles`.
    fn selected_names(&self, profiles: &Vec<CustomEqualizerProfile>) -> (r: Vec<String>)
        ensures
            r.deep_view() == spec_names(
                spec_selected_profiles(
                    profiles@.map_values(|p: CustomEqualizerProfile| profile_view(p)),
                    self.spec_selection(),
                ),
            ),
    {
        let ghost all = profiles@.map_values(|p: CustomEqualizerProfile| profile_view(p));
        let ghost sel = self.spec_selection();
        let mut r: Vec<String> = Vec::new();
        let mut i: usize = 0;
        while i < profiles.len()
            invariant
                i <= profiles@.len(),
                all == profiles@.map_values(|p: CustomEqualizerProfile| profile_view(p)),
                sel == self.spec_selection(),
                r.deep_view() == spec_names(spec_selected_profiles(all.subrange(0, i as int), sel)),
            decreases profiles@.len() - i,
        {
            let ghost before = r.deep_view();
            proof {
                assert(all.subrange(0, i + 1).drop_last() =~= all.subrange(0, i as int));
                reveal(Seq::filter);
            }
            if contains_name(&self.selected_profiles, profiles[i].name.as_str()) {
                r.push(profiles[i].name.clone());
                assert(r.deep_view() =~= before.push(all[i as int].0));
                assert(spec_names(spec_selected_profiles(all.subrange(0, i + 1), sel)) =~= spec_names(
                    spec_selected_profiles(all.subrange(0, i as int), sel),
                ).push(all[i as int].0));
            }
            i = i + 1;
        }
        assert(all.subrange(0, i as int) =~= all);
        r
    }

    /// The import asks for a JSON text, after a question to confirm; the export shows every
    /// profile's name as an option and the picked ones as its values, in profile order; the
    /// export output shows `export_output`, the JSON text of [`Self::selected_profiles`] that
    /// the caller writes.
    pub fn get(
        &self,
        profiles: &Vec<CustomEqualizerProfile>,
        setting_id: &SettingId,
        export_output: String,
    ) -> (r: Option<Setting>)
        ensures
            match ImportExportSetting::spec_from_setting_id(*setting_id) {
                Some(ImportExportSetting::ImportCustomEqualizerProfiles) => r matches Some(s) && s@
                    == (SettingView::ImportString {
                    confirmation_message: Some(TranslationView::ImportCustomEqualizerProfilesConfirm),
                }),
                Some(ImportExportSetting::ExportCustomEqualizerProfiles) => r matches Some(s) && s@
                    == (SettingView::MultiSelect {
                    options: spec_names(profiles@.map_values(|p: CustomEqualizerProfile| profile_view(p))),
                    values: spec_names(
                        spec_selected_profiles(
                            profiles@.map_values(|p: CustomEqualizerProfile| profile_view(p)),
                            self.spec_selection(),
                        ),
                    ),
                }),
                Some(ImportExportSetting::ExportCustomEqualizerProfilesOutput) => r matches Some(s)
                    && s@ == (SettingView::Information {
                    value: export_output@,
                    translated_value: TranslationView::Verbatim(export_output@),
                }),
                None => r is None,
            },
    {
        let setting = ImportExportSetting::from_setting_id(*setting_id)?;
        match setting {
            ImportExportSetting::ImportCustomEqualizerProfiles => Some(
                Setting::ImportString {
                    confirmation_message: Some(Translation::ImportCustomEqualizerProfilesConfirm),
                },
            ),
            ImportExportSetting::ExportCustomEqualizerProfiles => {
                let ghost all = profiles@.map_values(|p: CustomEqualizerProfile| profile_view(p));
                let options = crate::equalizer::profile_names(profiles);
                assert(options.deep_view() =~= spec_names(all));
                let values = self.selected_names(profiles);
                Some(Setting::MultiSelect { setting: Select { options }, values })
            },
            ImportExportSetting::ExportCustomEqualizerProfilesOutput => {
                let translated = export_output.clone();
                Some(
                    Setting::Information {
                        value: export_output,
                        translated_value: Translation::Verbatim(translated),
                    },
                )
            },
        }
    }

    /// Takes a change: the import gives back the JSON text to import; a list of names becomes
    /// the pick for export; the export output is read only.
    pub fn set(&mut self, setting_id: &SettingId, value: Value) -> (r: Result<
        Option<String>,
        SettingHandlerError,
    >)
        requires
            ImportExportSetting::spec_from_setting_id(*setting_id) is Some,
        ensures
            match ImportExportSetting::spec_from_setting_id(*setting_id)->0 {
                ImportExportSetting::ImportCustomEqualizerProfiles => final(self).spec_selection()
                    == old(self).spec_selection() && match value {
                    Value::String(json) => r matches Ok(Some(t)) && t@ == json@,
                    _ => r matches Err(e) && Value::is_wrong_type(e, ValueKind::String),
                },
                ImportExportSetting::ExportCustomEqualizerProfiles => match value {
                    Value::StringVec(names) => r matches Ok(None) && final(self).spec_selection()
                        == names.deep_view(),
                    _ => (r matches Err(e) && Value::is_wrong_type(e, ValueKind::StringVec))
                        && final(self).spec_selection() == old(self).spec_selection(),
                },
                ImportExportSetting::ExportCustomEqualizerProfilesOutput => r matches Err(
                    SettingHandlerError::ReadOnly,
                ) && final(self).spec_selection() == old(self).spec_selection(),
            },
    {
        let setting = ImportExportSetting::from_setting_id(*setting_id).unwrap();
        match setting {
            ImportExportSetting::ImportCustomEqualizerProfiles => {
                let json = value.try_as_str()?;
                Ok(Some(crate::text::owned(json)))
            },
            ImportExportSetting::ExportCustomEqualizerProfiles => match value {
                Value::StringVec(names) => {
                    self.selected_profiles = names;
                    Ok(None)
                },
                _ => Err(
                    SettingHandlerError::ValueError(
                        crate::settings::ValueError::WrongType {
                            expected: ValueKind::StringVec,
                            actual: value,
                        },
                    ),
                ),
            },
            ImportExportSetting::ExportCustomEqualizerProfilesOutput => Err(
                SettingHandlerError::ReadOnly,
            ),
        }
    }
}

} // verus!
