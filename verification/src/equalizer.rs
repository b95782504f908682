//! The equalizer: preset profiles of the device, custom profiles saved by the user, and the
//! volume adjustment of each visible band. Devices may have more bands than they let the user
//! see; those get fixed values.

use vstd::prelude::*;

use crate::settings::{
    Equalizer, ModifiableSelectCommand, Select, Setting, SettingHandlerError, SettingId,
    SettingView, Value, ValueError, ValueKind,
};
use crate::structures::TwsStatus;
use crate::text::{owned, str_eq};

verus! {

/// The volume adjustment of each band of one channel, in tenths (or whatever the device's
/// fraction digits say) of a decibel.
#[derive(Debug, Clone, PartialEq, Eq)]
pub struct VolumeAdjustments {
    pub adjustments: Vec<i16>,
}

/// A preset id and the volume adjustments of each channel.
#[derive(Debug, Clone, PartialEq, Eq)]
pub struct EqualizerConfiguration {
    pub preset_id: u16,
    pub volume_adjustments: Vec<VolumeAdjustments>,
}

pub struct EqualizerConfigurationView {
    pub preset_id: u16,
    pub channels: Seq<Seq<i16>>,
}

impl EqualizerConfigurationView {
    /// Every channel has `bands` bands, and there are `channels` channels.
    pub open spec fn has_shape(self, channels: nat, bands: nat) -> bool {
        &&& self.channels.len() == channels
        &&& forall|c: int| 0 <= c < channels ==> (#[trigger] self.channels[c]).len() == bands
    }

    /// The adjustments of the first channel; all zero without channels.
    pub open spec fn channel_1(self, bands: nat) -> Seq<i16> {
        if self.channels.len() > 0 {
            self.channels[0]
        } else {
            Seq::new(bands, |b: int| 0i16)
        }
    }
}

impl View for EqualizerConfiguration {
    type V = EqualizerConfigurationView;

    open spec fn view(&self) -> EqualizerConfigurationView {
        EqualizerConfigurationView {
            preset_id: self.preset_id,
            channels: self.volume_adjustments@.map_values(|v: VolumeAdjustments| v.adjustments@),
        }
    }
}

fn clone_values(v: &Vec<i16>) -> (r: Vec<i16>)
    ensures
        r@ == v@,
{
    let r = v.clone();
    assert(r@ =~= v@);
    r
}

/// The first `n` values of `v`.
fn prefix_values(v: &Vec<i16>, n: usize) -> (r: Vec<i16>)
    requires
        n <= v@.len(),
    ensures
        r@ == v@.subrange(0, n as int),
{
    let mut r: Vec<i16> = Vec::new();
    let mut i: usize = 0;
    while i < n
        invariant
            i <= n <= v@.len(),
            r@ == v@.subrange(0, i as int),
        decreases n - i,
    {
        r.push(v[i]);
        i = i + 1;
        assert(r@ =~= v@.subrange(0, i as int));
    }
    r
}

/// Whether two value lists are equal.
fn same_values(a: &Vec<i16>, b: &Vec<i16>) -> (r: bool)
    ensures
        r == (a@ == b@),
{
    if a.len() != b.len() {
        return false;
    }
    let mut i: usize = 0;
    while i < a.len()
        invariant
            i <= a@.len(),
            a@.len() == b@.len(),
            forall|k: int| 0 <= k < i ==> a@[k] == b@[k],
        decreases a@.len() - i,
    {
        if a[i] != b[i] {
            return false;
        }
        i = i + 1;
    }
    assert(a@ =~= b@);
    true
}

/// Whether the first `n` values of two lists are equal; both must have at least `n`.
fn same_prefix(a: &Vec<i16>, b: &Vec<i16>, n: usize) -> (r: bool)
    requires
        n <= a@.len(),
        n <= b@.len(),
    ensures
        r == (a@.subrange(0, n as int) == b@.subrange(0, n as int)),
{
    let mut i: usize = 0;
    while i < n
        invariant
            i <= n <= a@.len(),
            n <= b@.len(),
            forall|k: int| 0 <= k < i ==> a@[k] == b@[k],
        decreases n - i,
    {
        if a[i] != b[i] {
            assert(a@.subrange(0, n as int)[i as int] != b@.subrange(0, n as int)[i as int]);
            return false;
        }
        i = i + 1;
    }
    assert(a@.subrange(0, n as int) =~= b@.subrange(0, n as int));
    true
}

impl EqualizerConfiguration {
    /// A configuration with the same volume adjustments on every channel.
    pub fn new_all_bands_present(preset_id: u16, channel: &Vec<i16>, channels: usize) -> (r: Self)
        ensures
            r@.preset_id == preset_id,
            r@.channels == Seq::new(channels as nat, |c: int| channel@),
    {
        let mut volume_adjustments: Vec<VolumeAdjustments> = Vec::new();
        let mut i: usize = 0;
        while i < channels
            invariant
                i <= channels,
                volume_adjustments@.map_values(|v: VolumeAdjustments| v.adjustments@) == Seq::new(
                    i as nat,
                    |c: int| channel@,
                ),
            decreases channels - i,
        {
            let ghost before = volume_adjustments@.map_values(|v: VolumeAdjustments| v.adjustments@);
            volume_adjustments.push(VolumeAdjustments { adjustments: clone_values(channel) });
            assert(volume_adjustments@.map_values(|v: VolumeAdjustments| v.adjustments@) =~= before.push(
                channel@,
            ));
            i = i + 1;
            assert(volume_adjustments@.map_values(|v: VolumeAdjustments| v.adjustments@) =~= Seq::new(
                i as nat,
                |c: int| channel@,
            ));
        }
        EqualizerConfiguration { preset_id, volume_adjustments }
    }

    pub fn channel_1(&self, bands: usize) -> (r: Vec<i16>)
        ensures
            r@ == self@.channel_1(bands as nat),
    {
        if self.volume_adjustments.len() > 0 {
            clone_values(&self.volume_adjustments[0].adjustments)
        } else {
            let mut r: Vec<i16> = Vec::new();
            let mut i: usize = 0;
            while i < bands
                invariant
                    i <= bands,
                    r@ == Seq::new(i as nat, |b: int| 0i16),
                decreases bands - i,
            {
                r.push(0);
                i = i + 1;
                assert(r@ =~= Seq::new(i as nat, |b: int| 0i16));
            }
            r
        }
    }

    /// Whether two configurations are the same.
    pub fn same_as(&self, other: &EqualizerConfiguration) -> (r: bool)
        ensures
            r == (self@ == other@),
    {
        if self.preset_id != other.preset_id || self.volume_adjustments.len()
            != other.volume_adjustments.len() {
            assert(self@.channels.len() == self.volume_adjustments@.len());
            assert(other@.channels.len() == other.volume_adjustments@.len());
            return false;
        }
        let ghost a = self@.channels;
        let ghost b = other@.channels;
        let mut i: usize = 0;
        while i < self.volume_adjustments.len()
            invariant
                i <= a.len(),
                a.len() == b.len(),
                a == self@.channels,
                b == other@.channels,
                self.volume_adjustments@.len() == a.len(),
                forall|k: int| 0 <= k < i ==> a[k] == b[k],
            decreases a.len() - i,
        {
            if !same_values(&self.volume_adjustments[i].adjustments, &other.volume_adjustments[i].adjustments) {
                assert(a[i as int] == self.volume_adjustments@[i as int].adjustments@);
                assert(b[i as int] == other.volume_adjustments@[i as int].adjustments@);
                assert(a[i as int] != b[i as int]);
                return false;
            }
            i = i + 1;
        }
        assert(a =~= b);
        true
    }

    pub fn clone_configuration(&self) -> (r: Self)
        ensures
            r@ == self@,
    {
        let mut volume_adjustments: Vec<VolumeAdjustments> = Vec::new();
        let mut i: usize = 0;
        while i < self.volume_adjustments.len()
            invariant
                i <= self.volume_adjustments@.len(),
                volume_adjustments@.map_values(|v: VolumeAdjustments| v.adjustments@)
                    == self@.channels.subrange(0, i as int),
            decreases self.volume_adjustments@.len() - i,
        {
            let ghost before = volume_adjustments@.map_values(|v: VolumeAdjustments| v.adjustments@);
            volume_adjustments.push(
                VolumeAdjustments { adjustments: clone_values(&self.volume_adjustments[i].adjustments) },
            );
            assert(volume_adjustments@.map_values(|v: VolumeAdjustments| v.adjustments@) =~= before.push(
                self@.channels[i as int],
            ));
            i = i + 1;
            assert(volume_adjustments@.map_values(|v: VolumeAdjustments| v.adjustments@)
                =~= self@.channels.subrange(0, i as int));
        }
        assert(self@.channels.subrange(0, i as int) =~= self@.channels);
        EqualizerConfiguration { preset_id: self.preset_id, volume_adjustments }
    }
}

/// A profile of the device: its id, its name and its volume adjustments.
#[derive(Debug, Clone)]
pub struct EqualizerPreset {
    pub id: u16,
    pub name: &'static str,
    pub volume_adjustments: Vec<i16>,
}

/// A profile saved by the user.
#[derive(Debug, Clone, PartialEq, Eq)]
pub struct CustomEqualizerProfile {
    pub name: String,
    pub volume_adjustments: Vec<i16>,
}

/// The equalizer of a device model.
#[derive(Debug, Clone)]
pub struct EqualizerModuleSettings {
    pub presets: Vec<EqualizerPreset>,
    /// The preset id that marks a custom profile; `None` when the device takes none, and then
    /// the volume adjustments are shown read only.
    pub custom_preset_id: Option<u16>,
    /// The frequency of each visible band.
    pub band_hz: Vec<u16>,
    pub channels: usize,
    pub bands: usize,
    /// How many of the bands the user sees and sets.
    pub visible_bands: usize,
    pub min_volume: i16,
    pub max_volume: i16,
    pub fraction_digits: u8,
    /// The values of the bands after the visible ones, in order.
    pub invisible_band_values: Vec<i16>,
}

impl EqualizerModuleSettings {
    /// There are no more visible bands than bands, and every preset has a value for each
    /// visible band.
    pub open spec fn is_well_formed(&self) -> bool {
        &&& self.visible_bands <= self.bands
        &&& forall|i: int|
            0 <= i < self.presets@.len() ==> (#[trigger] self.presets@[i]).volume_adjustments@.len()
                >= self.visible_bands
    }

    pub closed spec fn spec_preset_names(&self) -> Seq<Seq<char>> {
        self.presets@.map_values(|p: EqualizerPreset| p.name@)
    }
}

/// The value of band `band` for a list of values: the value itself, then the fixed value for an
/// invisible band (counted from the first invisible band), then zero.
pub open spec fn spec_band_value(
    values: Seq<i16>,
    settings: EqualizerModuleSettings,
    band: int,
) -> i16 {
    if band < values.len() {
        values[band]
    } else if 0 <= band - settings.visible_bands < settings.invisible_band_values@.len() {
        settings.invisible_band_values@[band - settings.visible_bands]
    } else {
        0
    }
}

/// The adjustments of one channel for a list of values.
pub open spec fn spec_channel_from_values(values: Seq<i16>, settings: EqualizerModuleSettings) -> Seq<i16> {
    Seq::new(settings.bands as nat, |b: int| spec_band_value(values, settings, b))
}

/// The configuration with preset id `preset_id` and every channel set from `values`.
pub open spec fn spec_configuration_from_values(
    preset_id: u16,
    values: Seq<i16>,
    settings: EqualizerModuleSettings,
) -> EqualizerConfigurationView {
    EqualizerConfigurationView {
        preset_id,
        channels: Seq::new(settings.channels as nat, |c: int| spec_channel_from_values(values, settings)),
    }
}

/// Fills in every band of a channel from the given values and the fixed values of the invisible
/// bands, and uses that channel for all channels.
pub fn values_to_volume_adjustments(
    preset_id: u16,
    values: &Vec<i16>,
    settings: &EqualizerModuleSettings,
) -> (r: EqualizerConfiguration)
    requires
        values@.len() >= settings.visible_bands,
    ensures
        r@ == spec_configuration_from_values(preset_id, values@, *settings),
{
    let mut channel: Vec<i16> = Vec::new();
    let mut band: usize = 0;
    while band < settings.bands
        invariant
            band <= settings.bands,
            values@.len() >= settings.visible_bands,
            channel@ == Seq::new(band as nat, |b: int| spec_band_value(values@, *settings, b)),
        decreases settings.bands - band,
    {
        let value = if band < values.len() {
            values[band]
        } else {
            let index = band - settings.visible_bands;
            if index < settings.invisible_band_values.len() {
                settings.invisible_band_values[index]
            } else {
                0
            }
        };
        channel.push(value);
        band = band + 1;
        assert(channel@ =~= Seq::new(band as nat, |b: int| spec_band_value(values@, *settings, b)));
    }
    let r = EqualizerConfiguration::new_all_bands_present(preset_id, &channel, settings.channels);
    assert(r@.channels =~= spec_configuration_from_values(preset_id, values@, *settings).channels);
    r
}

/// Index of the first preset from `j` on with id `id`.
pub open spec fn find_preset_by_id(presets: Seq<EqualizerPreset>, id: u16, j: int) -> Option<int>
    decreases presets.len() - j,
{
    if j < 0 || j >= presets.len() {
        None
    } else if presets[j].id == id {
        Some(j)
    } else {
        find_preset_by_id(presets, id, j + 1)
    }
}

/// Index of the first preset from `j` on named `name`.
pub open spec fn find_preset_by_name(presets: Seq<EqualizerPreset>, name: Seq<char>, j: int) -> Option<int>
    decreases presets.len() - j,
{
    if j < 0 || j >= presets.len() {
        None
    } else if presets[j].name@ == name {
        Some(j)
    } else {
        find_preset_by_name(presets, name, j + 1)
    }
}

/// Index of the first custom profile from `j` on named `name`.
pub open spec fn find_profile_by_name(profiles: Seq<CustomEqualizerProfile>, name: Seq<char>, j: int) -> Option<int>
    decreases profiles.len() - j,
{
    if j < 0 || j >= profiles.len() {
        None
    } else if profiles[j].name@ == name {
        Some(j)
    } else {
        find_profile_by_name(profiles, name, j + 1)
    }
}

/// Index of the first custom profile from `j` on whose first `n` values are `target`.
pub open spec fn find_profile_by_values(
    profiles: Seq<CustomEqualizerProfile>,
    target: Seq<i16>,
    n: int,
    j: int,
) -> Option<int>
    decreases profiles.len() - j,
{
    if j < 0 || j >= profiles.len() {
        None
    } else if profiles[j].volume_adjustments@.len() >= n && profiles[j].volume_adjustments@.subrange(0, n)
        == target {
        Some(j)
    } else {
        find_profile_by_values(profiles, target, n, j + 1)
    }
}

/// Whether searching the custom profiles from `j` on for the first `n` values `target` looks
/// only at profiles that have `n` values: each profile before the first match has.
pub open spec fn profiles_searchable(
    profiles: Seq<CustomEqualizerProfile>,
    target: Seq<i16>,
    n: int,
    j: int,
) -> bool
    decreases profiles.len() - j,
{
    if j < 0 || j >= profiles.len() {
        true
    } else {
        profiles[j].volume_adjustments@.len() >= n && (profiles[j].volume_adjustments@.subrange(0, n)
            == target || profiles_searchable(profiles, target, n, j + 1))
    }
}

proof fn lemma_find_preset_by_id_bounds(presets: Seq<EqualizerPreset>, id: u16, j: int)
    ensures
        find_preset_by_id(presets, id, j) matches Some(i) ==> j <= i < presets.len() && presets[i].id == id,
    decreases presets.len() - j,
{
    if 0 <= j < presets.len() && presets[j].id != id {
        lemma_find_preset_by_id_bounds(presets, id, j + 1);
    }
}

proof fn lemma_find_preset_by_name_bounds(presets: Seq<EqualizerPreset>, name: Seq<char>, j: int)
    ensures
        find_preset_by_name(presets, name, j) matches Some(i) ==> j <= i < presets.len(),
    decreases presets.len() - j,
{
    if 0 <= j < presets.len() && presets[j].name@ != name {
        lemma_find_preset_by_name_bounds(presets, name, j + 1);
    }
}

proof fn lemma_find_profile_by_name_bounds(profiles: Seq<CustomEqualizerProfile>, name: Seq<char>, j: int)
    ensures
        find_profile_by_name(profiles, name, j) matches Some(i) ==> j <= i < profiles.len(),
    decreases profiles.len() - j,
{
    if 0 <= j < profiles.len() && profiles[j].name@ != name {
        lemma_find_profile_by_name_bounds(profiles, name, j + 1);
    }
}

proof fn lemma_find_profile_by_values_bounds(
    profiles: Seq<CustomEqualizerProfile>,
    target: Seq<i16>,
    n: int,
    j: int,
)
    ensures
        find_profile_by_values(profiles, target, n, j) matches Some(i) ==> j <= i < profiles.len(),
    decreases profiles.len() - j,
{
    if 0 <= j < profiles.len() && !(profiles[j].volume_adjustments@.len() >= n
        && profiles[j].volume_adjustments@.subrange(0, n) == target) {
        lemma_find_profile_by_values_bounds(profiles, target, n, j + 1);
    }
}

fn position_of_preset_id(presets: &Vec<EqualizerPreset>, id: u16) -> (r: Option<usize>)
    ensures
        match r {
            Some(p) => find_preset_by_id(presets@, id, 0) == Some(p as int),
            None => find_preset_by_id(presets@, id, 0) is None,
        },
{
    let mut i: usize = 0;
    while i < presets.len()
        invariant
            i <= presets@.len(),
            find_preset_by_id(presets@, id, 0) == find_preset_by_id(presets@, id, i as int),
        decreases presets@.len() - i,
    {
        if presets[i].id == id {
            return Some(i);
        }
        i = i + 1;
    }
    None
}

fn position_of_preset_name(presets: &Vec<EqualizerPreset>, name: &str) -> (r: Option<usize>)
    ensures
        match r {
            Some(p) => find_preset_by_name(presets@, name@, 0) == Some(p as int),
            None => find_preset_by_name(presets@, name@, 0) is None,
        },
{
    let mut i: usize = 0;
    while i < presets.len()
        invariant
            i <= presets@.len(),
            find_preset_by_name(presets@, name@, 0) == find_preset_by_name(presets@, name@, i as int),
        decreases presets@.len() - i,
    {
        if str_eq(presets[i].name, name) {
            return Some(i);
        }
        i = i + 1;
    }
    None
}

fn position_of_profile_name(profiles: &Vec<CustomEqualizerProfile>, name: &str) -> (r: Option<usize>)
    ensures
        match r {
            Some(p) => find_profile_by_name(profiles@, name@, 0) == Some(p as int),
            None => find_profile_by_name(profiles@, name@, 0) is None,
        },
{
    let mut i: usize = 0;
    while i < profiles.len()
        invariant
            i <= profiles@.len(),
            find_profile_by_name(profiles@, name@, 0) == find_profile_by_name(profiles@, name@, i as int),
        decreases profiles@.len() - i,
    {
        if str_eq(profiles[i].name.as_str(), name) {
            return Some(i);
        }
        i = i + 1;
    }
    None
}

fn position_of_profile_values(profiles: &Vec<CustomEqualizerProfile>, target: &Vec<i16>, n: usize) -> (r:
    Option<usize>)
    requires
        target@.len() == n,
        profiles_searchable(profiles@, target@, n as int, 0),
    ensures
        match r {
            Some(p) => find_profile_by_values(profiles@, target@, n as int, 0) == Some(p as int),
            None => find_profile_by_values(profiles@, target@, n as int, 0) is None,
        },
{
    let mut i: usize = 0;
    while i < profiles.len()
        invariant
            i <= profiles@.len(),
            target@.len() == n,
            profiles_searchable(profiles@, target@, n as int, i as int),
            find_profile_by_values(profiles@, target@, n as int, 0) == find_profile_by_values(
                profiles@,
                target@,
                n as int,
                i as int,
            ),
        decreases profiles@.len() - i,
    {
        assert(target@.subrange(0, n as int) =~= target@);
        if same_prefix(&profiles[i].volume_adjustments, target, n) {
            return Some(i);
        }
        i = i + 1;
    }
    None
}

/// The settings of the equalizer module.
#[derive(Debug, Clone, Copy, PartialEq, Eq, Hash, Structural)]
pub enum EqualizerSetting {
    PresetEqualizerProfile,
    CustomEqualizerProfile,
    VolumeAdjustments,
}

impl EqualizerSetting {
    pub open spec fn spec_from_setting_id(id: SettingId) -> Option<Self> {
        match id {
            SettingId::PresetEqualizerProfile => Some(EqualizerSetting::PresetEqualizerProfile),
            SettingId::CustomEqualizerProfile => Some(EqualizerSetting::CustomEqualizerProfile),
            SettingId::VolumeAdjustments => Some(EqualizerSetting::VolumeAdjustments),
            _ => None,
        }
    }

    pub fn from_setting_id(id: SettingId) -> (r: Option<Self>)
        ensures
            r == Self::spec_from_setting_id(id),
    {
        match id {
            SettingId::PresetEqualizerProfile => Some(EqualizerSetting::PresetEqualizerProfile),
            SettingId::CustomEqualizerProfile => Some(EqualizerSetting::CustomEqualizerProfile),
            SettingId::VolumeAdjustments => Some(EqualizerSetting::VolumeAdjustments),
            _ => None,
        }
    }
}

/// The names of the custom profiles.
pub open spec fn spec_profile_names(profiles: Seq<CustomEqualizerProfile>) -> Seq<Seq<char>> {
    profiles.map_values(|p: CustomEqualizerProfile| p.name@)
}

/// The visible values of the first channel.
pub open spec fn spec_visible_values(
    config: EqualizerConfigurationView,
    settings: EqualizerModuleSettings,
) -> Seq<i16> {
    config.channel_1(settings.bands as nat).subrange(0, settings.visible_bands as int)
}

/// What getting a setting needs: a configuration of the module's shape, and, while a custom
/// profile is in effect, profiles that can be compared with it.
pub open spec fn spec_can_get(
    config: EqualizerConfigurationView,
    settings: EqualizerModuleSettings,
    profiles: Seq<CustomEqualizerProfile>,
) -> bool {
    &&& settings.is_well_formed()
    &&& config.has_shape(settings.channels as nat, settings.bands as nat)
    &&& settings.custom_preset_id == Some(config.preset_id) ==> profiles_searchable(
        profiles,
        spec_visible_values(config, settings),
        settings.visible_bands as int,
        0,
    )
}

pub open spec fn spec_get_inner(
    config: EqualizerConfigurationView,
    settings: EqualizerModuleSettings,
    profiles: Seq<CustomEqualizerProfile>,
    setting_id: SettingId,
) -> Option<SettingView> {
    match EqualizerSetting::spec_from_setting_id(setting_id) {
        Some(EqualizerSetting::PresetEqualizerProfile) => Some(
            SettingView::OptionalSelect {
                options: settings.spec_preset_names(),
                value: match find_preset_by_id(settings.presets@, config.preset_id, 0) {
                    Some(i) => Some(settings.presets@[i].name@),
                    None => None,
                },
            },
        ),
        Some(EqualizerSetting::CustomEqualizerProfile) => match settings.custom_preset_id {
            Some(custom_id) => Some(
                SettingView::ModifiableSelect {
                    options: spec_profile_names(profiles),
                    value: if config.preset_id == custom_id {
                        match find_profile_by_values(
                            profiles,
                            spec_visible_values(config, settings),
                            settings.visible_bands as int,
                            0,
                        ) {
                            Some(i) => Some(profiles[i].name@),
                            None => None,
                        }
                    } else {
                        None
                    },
                },
            ),
            None => None,
        },
        Some(EqualizerSetting::VolumeAdjustments) => Some(
            SettingView::Equalizer {
                band_hz: settings.band_hz@,
                fraction_digits: settings.fraction_digits,
                min: settings.min_volume,
                max: settings.max_volume,
                read_only: settings.custom_preset_id is None,
                value: spec_visible_values(config, settings),
            },
        ),
        None => None,
    }
}

fn preset_names(presets: &Vec<EqualizerPreset>) -> (r: Vec<String>)
    ensures
        r.deep_view() == presets@.map_values(|p: EqualizerPreset| p.name@),
{
    let mut r: Vec<String> = Vec::new();
    let mut i: usize = 0;
    while i < presets.len()
        invariant
            i <= presets@.len(),
            r.deep_view() == presets@.subrange(0, i as int).map_values(|p: EqualizerPreset| p.name@),
        decreases presets@.len() - i,
    {
        let ghost before = r.deep_view();
        r.push(owned(presets[i].name));
        assert(r.deep_view() =~= before.push(presets@[i as int].name@));
        assert(presets@.subrange(0, i + 1).map_values(|p: EqualizerPreset| p.name@) =~= presets@.subrange(
            0,
            i as int,
        ).map_values(|p: EqualizerPreset| p.name@).push(presets@[i as int].name@));
        i = i + 1;
    }
    assert(presets@.subrange(0, i as int) =~= presets@);
    r
}

pub(crate) fn profile_names(profiles: &Vec<CustomEqualizerProfile>) -> (r: Vec<String>)
    ensures
        r.deep_view() == spec_profile_names(profiles@),
{
    let mut r: Vec<String> = Vec::new();
    let mut i: usize = 0;
    while i < profiles.len()
        invariant
            i <= profiles@.len(),
            r.deep_view() == spec_profile_names(profiles@.subrange(0, i as int)),
        decreases profiles@.len() - i,
    {
        let ghost before = r.deep_view();
        r.push(profiles[i].name.clone());
        assert(r.deep_view() =~= before.push(profiles@[i as int].name@));
        assert(spec_profile_names(profiles@.subrange(0, i + 1)) =~= spec_profile_names(
            profiles@.subrange(0, i as int),
        ).push(profiles@[i as int].name@));
        i = i + 1;
    }
    assert(profiles@.subrange(0, i as int) =~= profiles@);
    r
}

/// The preset select, the custom profile select (when the device takes custom profiles) and
/// the volume adjustments of the visible bands.
pub fn get_inner(
    config: &EqualizerConfiguration,
    settings: &EqualizerModuleSettings,
    profiles: &Vec<CustomEqualizerProfile>,
    setting_id: &SettingId,
) -> (r: Option<Setting>)
    requires
        spec_can_get(config@, *settings, profiles@),
    ensures
        match spec_get_inner(config@, *settings, profiles@, *setting_id) {
            Some(v) => r matches Some(s) && s@ == v,
            None => r is None,
        },
{
    let setting = EqualizerSetting::from_setting_id(*setting_id)?;
    match setting {
        EqualizerSetting::PresetEqualizerProfile => {
            let value = match position_of_preset_id(&settings.presets, config.preset_id) {
                Some(i) => {
                    proof {
                        lemma_find_preset_by_id_bounds(settings.presets@, config.preset_id, 0);
                    }
                    Some(owned(settings.presets[i].name))
                },
                None => None,
            };
            Some(
                Setting::OptionalSelect {
                    setting: Select { options: preset_names(&settings.presets) },
                    value,
                },
            )
        },
        EqualizerSetting::CustomEqualizerProfile => {
            let custom_preset_id = settings.custom_preset_id?;
            let value = if config.preset_id == custom_preset_id {
                let channel = config.channel_1(settings.bands);
                let visible = prefix_values(&channel, settings.visible_bands);
                match position_of_profile_values(profiles, &visible, settings.visible_bands) {
                    Some(i) => {
                        proof {
                            lemma_find_profile_by_values_bounds(
                                profiles@,
                                visible@,
                                settings.visible_bands as int,
                                0,
                            );
                        }
                        Some(profiles[i].name.clone())
                    },
                    None => None,
                }
            } else {
                None
            };
            Some(
                Setting::ModifiableSelect {
                    setting: Select { options: profile_names(profiles) },
                    value,
                },
            )
        },
        EqualizerSetting::VolumeAdjustments => {
            let channel = config.channel_1(settings.bands);
            let value = prefix_values(&channel, settings.visible_bands);
            Some(
                Setting::Equalizer {
                    setting: Equalizer {
                        band_hz: settings.band_hz.clone(),
                        fraction_digits: settings.fraction_digits,
                        min: settings.min_volume,
                        max: settings.max_volume,
                    },
                    read_only: settings.custom_preset_id.is_none(),
                    value,
                },
            )
        },
    }
}

/// A change to the saved custom profiles, for the caller to carry out.
#[derive(Debug, Clone, PartialEq, Eq)]
pub enum ProfileStoreCommand {
    /// Save (or replace) the profile of this name.
    Upsert { name: String, volume_adjustments: Vec<i16> },
    /// Delete the profile of this name.
    Delete { name: String },
}

/// `values` cut or filled with zeros to `n` values.
pub open spec fn spec_fixed_len(values: Seq<i16>, n: int) -> Seq<i16> {
    Seq::new(n as nat, |i: int| if i < values.len() { values[i] } else { 0i16 })
}

fn fixed_len(values: &Vec<i16>, n: usize) -> (r: Vec<i16>)
    ensures
        r@ == spec_fixed_len(values@, n as int),
{
    let mut r: Vec<i16> = Vec::new();
    let mut i: usize = 0;
    while i < n
        invariant
            i <= n,
            r@ == spec_fixed_len(values@, n as int).subrange(0, i as int),
        decreases n - i,
    {
        r.push(if i < values.len() { values[i] } else { 0 });
        i = i + 1;
        assert(r@ =~= spec_fixed_len(values@, n as int).subrange(0, i as int));
    }
    assert(r@ =~= spec_fixed_len(values@, n as int));
    r
}

/// The outcome of a change: the new configuration, or none when it is kept; the profile store
/// command to carry out, if any; or the error.
pub open spec fn spec_set_inner(
    config: EqualizerConfigurationView,
    settings: EqualizerModuleSettings,
    profiles: Seq<CustomEqualizerProfile>,
    setting: EqualizerSetting,
    value: Value,
) -> Result<Option<EqualizerConfigurationView>, ValueKind> {
    match setting {
        EqualizerSetting::PresetEqualizerProfile => {
            let name = match value {
                Value::String(s) => Ok(Some(s@)),
                Value::OptionalString(Some(s)) => Ok(Some(s@)),
                Value::OptionalString(None) => Ok(None),
                _ => Err(ValueKind::OptionalString),
            };
            match name {
                Ok(Some(n)) => match find_preset_by_name(settings.presets@, n, 0) {
                    Some(i) => Ok(Some(spec_configuration_from_values(
                                    settings.presets@[i].id,
                                    settings.presets@[i].volume_adjustments@,
                                    settings,
                                ))),
                    None => Ok(None),
                },
                Ok(None) => Ok(None),
                Err(k) => Err(k),
            }
        },
        EqualizerSetting::CustomEqualizerProfile => match settings.custom_preset_id {
            None => Ok(None),
            Some(custom_id) => match value {
                Value::String(name) => match find_profile_by_name(profiles, name@, 0) {
                    Some(i) => Ok(Some(spec_configuration_from_values(
                                    custom_id,
                                    spec_fixed_len(
                                        profiles[i].volume_adjustments@,
                                        settings.visible_bands as int,
                                    ),
                                    settings,
                                ))),
                    None => Ok(None),
                },
                _ => Ok(None),
            },
        },
        EqualizerSetting::VolumeAdjustments => match settings.custom_preset_id {
            None => Err(ValueKind::I16Vec),
            Some(custom_id) => match value {
                Value::I16Vec(v) => if v@.len() == settings.visible_bands {
                    Ok(Some(spec_configuration_from_values(custom_id, v@, settings)))
                } else {
                    Err(ValueKind::I16Vec)
                },
                _ => Err(ValueKind::I16Vec),
            },
        },
    }
}

/// The command for the profile store that a change gives: saving the current visible values
/// under a name, or deleting a name. Other changes are left to [`is_store_command`].
pub open spec fn spec_store_command(
    r: Result<Option<ProfileStoreCommand>, SettingHandlerError>,
    config: EqualizerConfigurationView,
    settings: EqualizerModuleSettings,
    setting: EqualizerSetting,
    value: Value,
) -> bool {
    match setting {
        EqualizerSetting::CustomEqualizerProfile => match (settings.custom_preset_id, value) {
            (Some(_), Value::ModifiableSelectCommand(ModifiableSelectCommand::Add(name))) => r
                matches Ok(Some(ProfileStoreCommand::Upsert { name: n, volume_adjustments: v }))
                && n@ == name@ && v@ == spec_visible_values(config, settings),
            (Some(_), Value::ModifiableSelectCommand(ModifiableSelectCommand::Remove(name))) => r
                matches Ok(Some(ProfileStoreCommand::Delete { name: n })) && n@ == name@,
            _ => true,
        },
        _ => true,
    }
}

/// Whether a change is a command for the profile store.
pub open spec fn is_store_command(settings: EqualizerModuleSettings, setting: EqualizerSetting, value: Value) -> bool {
    setting == EqualizerSetting::CustomEqualizerProfile && settings.custom_preset_id is Some
        && value is ModifiableSelectCommand
}

/// Picks a preset by name (a name of no preset changes nothing), activates a custom profile by
/// name or asks for one to be saved from the current values or deleted, or sets the visible
/// bands' values, which makes the configuration a custom one. The values must be exactly one
/// per visible band, else they are refused with `WrongLength`; invisible bands take their fixed
/// values. Without custom profiles the volume adjustments are read only.
pub fn set_inner(
    config: &mut EqualizerConfiguration,
    settings: &EqualizerModuleSettings,
    profiles: &Vec<CustomEqualizerProfile>,
    setting_id: &SettingId,
    value: Value,
) -> (r: Result<Option<ProfileStoreCommand>, SettingHandlerError>)
    requires
        EqualizerSetting::spec_from_setting_id(*setting_id) is Some,
        settings.is_well_formed(),
        old(config)@.has_shape(settings.channels as nat, settings.bands as nat),
    ensures
        match EqualizerSetting::spec_from_setting_id(*setting_id)->0 {
            EqualizerSetting::CustomEqualizerProfile => match (settings.custom_preset_id, value) {
                (Some(_), Value::ModifiableSelectCommand(ModifiableSelectCommand::Add(name))) => r
                    matches Ok(Some(ProfileStoreCommand::Upsert { name: n, volume_adjustments: v }))
                    && n@ == name@ && v@ == spec_visible_values(old(config)@, *settings) && final(
                    config)@ == old(config)@,
                (Some(_), Value::ModifiableSelectCommand(ModifiableSelectCommand::Remove(name))) => r
                    matches Ok(Some(ProfileStoreCommand::Delete { name: n })) && n@ == name@ && final(
                    config)@ == old(config)@,
                _ => true,
            },
            _ => true,
        },
        match spec_set_inner(
            old(config)@,
            *settings,
            profiles@,
            EqualizerSetting::spec_from_setting_id(*setting_id)->0,
            value,
        ) {
            Ok(new_config) => r is Ok && (!is_store_command(
                *settings,
                EqualizerSetting::spec_from_setting_id(*setting_id)->0,
                value,
            ) ==> r == Ok::<Option<ProfileStoreCommand>, SettingHandlerError>(None)) && match new_config {
                Some(c) => final(config)@ == c,
                None => final(config)@ == old(config)@,
            },
            Err(kind) => r is Err && final(config)@ == old(config)@,
        },
        EqualizerSetting::spec_from_setting_id(*setting_id) == Some(
            EqualizerSetting::VolumeAdjustments,
        ) ==> match (settings.custom_preset_id, value) {
            (None, _) => r matches Err(SettingHandlerError::ReadOnly),
            (Some(_), Value::I16Vec(v)) => v@.len() != settings.visible_bands ==> (r matches Err(
                SettingHandlerError::ValueError(ValueError::WrongLength { expected, actual }),
            ) && expected == settings.visible_bands && actual == v@.len()),
            (Some(_), _) => r matches Err(e) && Value::is_wrong_type(e, ValueKind::I16Vec),
        },
        EqualizerSetting::spec_from_setting_id(*setting_id) == Some(
            EqualizerSetting::PresetEqualizerProfile,
        ) && !(value is String || value is OptionalString) ==> (r matches Err(e)
            && Value::is_wrong_type(e, ValueKind::OptionalString)),
        final(config)@.has_shape(settings.channels as nat, settings.bands as nat),
{
    let setting = EqualizerSetting::from_setting_id(*setting_id).unwrap();
    match setting {
        EqualizerSetting::PresetEqualizerProfile => {
            let name = value.try_as_optional_str()?;
            if let Some(name) = name {
                if let Some(i) = position_of_preset_name(&settings.presets, name) {
                    proof {
                        lemma_find_preset_by_name_bounds(settings.presets@, name@, 0);
                    }
                    let preset = &settings.presets[i];
                    *config = values_to_volume_adjustments(preset.id, &preset.volume_adjustments, settings);
                }
            }
            Ok(None)
        },
        EqualizerSetting::CustomEqualizerProfile => {
            let custom_preset_id = match settings.custom_preset_id {
                Some(id) => id,
                None => {
                    return Ok(None);
                },
            };
            match value {
                Value::String(name) => {
                    if let Some(i) = position_of_profile_name(profiles, name.as_str()) {
                        proof {
                            lemma_find_profile_by_name_bounds(profiles@, name@, 0);
                        }
                        let values = fixed_len(&profiles[i].volume_adjustments, settings.visible_bands);
                        *config = values_to_volume_adjustments(custom_preset_id, &values, settings);
                    }
                    Ok(None)
                },
                Value::ModifiableSelectCommand(ModifiableSelectCommand::Add(name)) => {
                    let channel = config.channel_1(settings.bands);
                    let volume_adjustments = prefix_values(&channel, settings.visible_bands);
                    Ok(Some(ProfileStoreCommand::Upsert { name, volume_adjustments }))
                },
                Value::ModifiableSelectCommand(ModifiableSelectCommand::Remove(name)) => {
                    Ok(Some(ProfileStoreCommand::Delete { name }))
                },
                _ => Ok(None),
            }
        },
        EqualizerSetting::VolumeAdjustments => {
            let custom_preset_id = match settings.custom_preset_id {
                Some(id) => id,
                None => {
                    return Err(SettingHandlerError::ReadOnly);
                },
            };
            let values = value.try_as_i16_array(settings.visible_bands)?;
            *config = values_to_volume_adjustments(custom_preset_id, values, settings);
            Ok(None)
        },
    }
}

/// Shows and changes the equalizer. With earbuds that report whether they are connected to
/// each other, nothing is shown or changed while they are not.
pub struct EqualizerSettingHandler {
    module_settings: EqualizerModuleSettings,
    uses_tws_status: bool,
}

impl EqualizerSettingHandler {
    pub closed spec fn spec_module_settings(&self) -> EqualizerModuleSettings {
        self.module_settings
    }

    pub closed spec fn spec_uses_tws_status(&self) -> bool {
        self.uses_tws_status
    }

    pub fn new(module_settings: EqualizerModuleSettings) -> (r: Self)
        ensures
            r.spec_module_settings() == module_settings,
            !r.spec_uses_tws_status(),
    {
        EqualizerSettingHandler { module_settings, uses_tws_status: false }
    }

    /// The same handler, paying attention to whether the earbuds are connected to each other.
    pub fn with_tws(self) -> (r: Self)
        ensures
            r.spec_module_settings() == self.spec_module_settings(),
            r.spec_uses_tws_status(),
    {
        EqualizerSettingHandler { module_settings: self.module_settings, uses_tws_status: true }
    }

    pub fn settings(&self) -> (r: Vec<SettingId>)
        ensures
            r@ == seq![
                SettingId::PresetEqualizerProfile,
                SettingId::CustomEqualizerProfile,
                SettingId::VolumeAdjustments,
            ],
    {
        let r = vec![
            SettingId::PresetEqualizerProfile,
            SettingId::CustomEqualizerProfile,
            SettingId::VolumeAdjustments,
        ];
        assert(r@ =~= seq![
            SettingId::PresetEqualizerProfile,
            SettingId::CustomEqualizerProfile,
            SettingId::VolumeAdjustments,
        ]);
        r
    }

    /// Whether the earbuds' connection to each other blocks the equalizer.
    pub open spec fn spec_blocked(&self, tws_status: TwsStatus) -> bool {
        self.spec_uses_tws_status() && !tws_status.is_connected
    }

    pub fn get(
        &self,
        config: &EqualizerConfiguration,
        tws_status: &TwsStatus,
        profiles: &Vec<CustomEqualizerProfile>,
        setting_id: &SettingId,
    ) -> (r: Option<Setting>)
        requires
            !self.spec_blocked(*tws_status) ==> spec_can_get(
                config@,
                self.spec_module_settings(),
                profiles@,
            ),
        ensures
            self.spec_blocked(*tws_status) ==> r is None,
            !self.spec_blocked(*tws_status) ==> match spec_get_inner(
                config@,
                self.spec_module_settings(),
                profiles@,
                *setting_id,
            ) {
                Some(v) => r matches Some(s) && s@ == v,
                None => r is None,
            },
    {
        if self.uses_tws_status && !tws_status.is_connected {
            return None;
        }
        get_inner(config, &self.module_settings, profiles, setting_id)
    }

    pub fn set(
        &self,
        config: &mut EqualizerConfiguration,
        tws_status: &TwsStatus,
        profiles: &Vec<CustomEqualizerProfile>,
        setting_id: &SettingId,
        value: Value,
    ) -> (r: Result<Option<ProfileStoreCommand>, SettingHandlerError>)
        requires
            EqualizerSetting::spec_from_setting_id(*setting_id) is Some,
            self.spec_module_settings().is_well_formed(),
            old(config)@.has_shape(
                self.spec_module_settings().channels as nat,
                self.spec_module_settings().bands as nat,
            ),
        ensures
            self.spec_blocked(*tws_status) ==> r == Ok::<
                Option<ProfileStoreCommand>,
                SettingHandlerError,
            >(None) && final(config)@ == old(config)@,
            !self.spec_blocked(*tws_status) ==> match spec_set_inner(
                old(config)@,
                self.spec_module_settings(),
                profiles@,
                EqualizerSetting::spec_from_setting_id(*setting_id)->0,
                value,
            ) {
                Ok(new_config) => r is Ok && (!is_store_command(
                    self.spec_module_settings(),
                    EqualizerSetting::spec_from_setting_id(*setting_id)->0,
                    value,
                ) ==> r == Ok::<Option<ProfileStoreCommand>, SettingHandlerError>(None)) && match new_config {
                    Some(c) => final(config)@ == c,
                    None => final(config)@ == old(config)@,
                },
                Err(kind) => r is Err && final(config)@ == old(config)@,
            },
            !self.spec_blocked(*tws_status) ==> spec_store_command(
                r,
                old(config)@,
                self.spec_module_settings(),
                EqualizerSetting::spec_from_setting_id(*setting_id)->0,
                value,
            ),
    {
        if self.uses_tws_status && !tws_status.is_connected {
            return Ok(None);
        }
        set_inner(config, &self.module_settings, profiles, setting_id, value)
    }
}

/// Setting the visible bands' values and reading the volume adjustments back gives the values
/// set.
pub proof fn lemma_volume_adjustments_set_then_get(
    config: EqualizerConfigurationView,
    settings: EqualizerModuleSettings,
    profiles: Seq<CustomEqualizerProfile>,
    values: Vec<i16>,
)
    requires
        settings.is_well_formed(),
        settings.custom_preset_id is Some,
        settings.channels > 0,
        values@.len() == settings.visible_bands,
    ensures
        ({
            let c = spec_configuration_from_values(settings.custom_preset_id->0, values@, settings);
            &&& spec_set_inner(
                config,
                settings,
                profiles,
                EqualizerSetting::VolumeAdjustments,
                Value::I16Vec(values),
            ) == Ok::<Option<EqualizerConfigurationView>, ValueKind>(Some(c))
            &&& spec_get_inner(c, settings, profiles, SettingId::VolumeAdjustments) == Some(
                SettingView::Equalizer {
                    band_hz: settings.band_hz@,
                    fraction_digits: settings.fraction_digits,
                    min: settings.min_volume,
                    max: settings.max_volume,
                    read_only: false,
                    value: values@,
                },
            )
        }),
{
    let c = spec_configuration_from_values(settings.custom_preset_id->0, values@, settings);
    assert(spec_visible_values(c, settings) =~= values@);
}

/// Activating a custom profile by name puts its first values on the visible bands, zero for
/// visible bands the profile has no value for, and the fixed values on the invisible bands.
pub proof fn lemma_activated_profile_values(
    config: EqualizerConfigurationView,
    settings: EqualizerModuleSettings,
    profiles: Seq<CustomEqualizerProfile>,
    name: String,
)
    requires
        settings.is_well_formed(),
        settings.custom_preset_id is Some,
        settings.channels > 0,
        find_profile_by_name(profiles, name@, 0) is Some,
    ensures
        ({
            let i = find_profile_by_name(profiles, name@, 0)->0;
            let values = profiles[i].volume_adjustments@;
            spec_set_inner(
                config,
                settings,
                profiles,
                EqualizerSetting::CustomEqualizerProfile,
                Value::String(name),
            ) matches Ok(Some(c)) && c.preset_id == settings.custom_preset_id->0
                && c.channels.len() == settings.channels && (forall|ch: int, band: int|
                0 <= ch < settings.channels && 0 <= band < settings.bands ==> #[trigger] c.channels[ch][band]
                    == if band < settings.visible_bands {
                    if band < values.len() {
                        values[band]
                    } else {
                        0i16
                    }
                } else if band - settings.visible_bands < settings.invisible_band_values@.len() {
                    settings.invisible_band_values@[band - settings.visible_bands]
                } else {
                    0i16
                })
        }),
{
}

/// A profile saved from the current values of a custom configuration is shown as the active
/// custom profile when the store lists it first.
pub proof fn lemma_saved_profile_is_active(
    config: EqualizerConfigurationView,
    settings: EqualizerModuleSettings,
    saved: CustomEqualizerProfile,
    others: Seq<CustomEqualizerProfile>,
)
    requires
        settings.is_well_formed(),
        settings.custom_preset_id == Some(config.preset_id),
        config.has_shape(settings.channels as nat, settings.bands as nat),
        saved.volume_adjustments@ == spec_visible_values(config, settings),
    ensures
        spec_get_inner(
            config,
            settings,
            seq![saved] + others,
            SettingId::CustomEqualizerProfile,
        ) matches Some(SettingView::ModifiableSelect { value, .. }) && value == Some(saved.name@),
{
    let profiles = seq![saved] + others;
    assert(profiles[0] == saved);
    let visible = spec_visible_values(config, settings);
    assert(saved.volume_adjustments@.subrange(0, settings.visible_bands as int) =~= visible);
    assert(find_profile_by_values(profiles, visible, settings.visible_bands as int, 0) == Some(0int));
}

/// The volume adjustments of every channel, as values.
pub open spec fn spec_channels(v: Seq<VolumeAdjustments>) -> Seq<Seq<i16>> {
    v.map_values(|a: VolumeAdjustments| a.adjustments@)
}

fn clone_channels(v: &Vec<VolumeAdjustments>) -> (r: Vec<VolumeAdjustments>)
    ensures
        spec_channels(r@) == spec_channels(v@),
{
    let mut r: Vec<VolumeAdjustments> = Vec::new();
    let mut i: usize = 0;
    while i < v.len()
        invariant
            i <= v@.len(),
            spec_channels(r@) == spec_channels(v@.subrange(0, i as int)),
        decreases v@.len() - i,
    {
        let ghost before = spec_channels(r@);
        r.push(VolumeAdjustments { adjustments: clone_values(&v[i].adjustments) });
        assert(spec_channels(r@) =~= before.push(v@[i as int].adjustments@));
        assert(spec_channels(v@.subrange(0, i + 1)) =~= spec_channels(v@.subrange(0, i as int)).push(
            v@[i as int].adjustments@,
        ));
        i = i + 1;
    }
    assert(v@.subrange(0, i as int) =~= v@);
    r
}

/// The optional volume adjustments of every channel, as values.
pub open spec fn spec_optional_channels(v: Seq<Option<VolumeAdjustments>>) -> Seq<Option<Seq<i16>>> {
    v.map_values(
        |a: Option<VolumeAdjustments>|
            match a {
                Some(x) => Some(x.adjustments@),
                None => None,
            },
    )
}

fn clone_optional_channels(v: &Vec<Option<VolumeAdjustments>>) -> (r: Vec<Option<VolumeAdjustments>>)
    ensures
        spec_optional_channels(r@) == spec_optional_channels(v@),
{
    let mut r: Vec<Option<VolumeAdjustments>> = Vec::new();
    let mut i: usize = 0;
    while i < v.len()
        invariant
            i <= v@.len(),
            spec_optional_channels(r@) == spec_optional_channels(v@.subrange(0, i as int)),
        decreases v@.len() - i,
    {
        let ghost before = spec_optional_channels(r@);
        let item = match &v[i] {
            Some(x) => Some(VolumeAdjustments { adjustments: clone_values(&x.adjustments) }),
            None => None,
        };
        r.push(item);
        assert(spec_optional_channels(r@) =~= before.push(spec_optional_channels(v@)[i as int]));
        assert(spec_optional_channels(v@.subrange(0, i + 1)) =~= spec_optional_channels(
            v@.subrange(0, i as int),
        ).push(spec_optional_channels(v@)[i as int]));
        i = i + 1;
    }
    assert(v@.subrange(0, i as int) =~= v@);
    r
}

/// The user's gender, as the device numbers it.
#[derive(Debug, Clone, Copy, PartialEq, Eq, Default, Hash, Structural)]
pub struct Gender(pub u8);

/// The user's age range, as the device numbers it.
#[derive(Debug, Clone, Copy, PartialEq, Eq, Default, Hash, Structural)]
pub struct AgeRange(pub u8);

/// A hearing test result without custom adjustments.
#[derive(Debug, Clone, PartialEq, Eq)]
pub struct BasicHearId {
    pub is_enabled: bool,
    pub volume_adjustments: Vec<VolumeAdjustments>,
    pub time: u32,
}

/// A hearing test result with the user's own adjustments.
#[derive(Debug, Clone, PartialEq, Eq)]
pub struct CustomHearId {
    pub is_enabled: bool,
    pub volume_adjustments: Vec<VolumeAdjustments>,
    pub time: u32,
    pub hear_id_type: u8,
    pub favorite_music_genre: u16,
    pub custom_volume_adjustments: Vec<Option<VolumeAdjustments>>,
}

/// The packet that sets the equalizer together with the hearing test data.
#[derive(Debug, Clone, PartialEq, Eq)]
pub struct SetEqualizerAndCustomHearId {
    pub equalizer_configuration: EqualizerConfiguration,
    pub gender: Gender,
    pub age_range: AgeRange,
    pub custom_hear_id: CustomHearId,
}

/// How the equalizer is set on a device.
#[derive(Debug, Clone, Copy, PartialEq, Eq, Structural)]
pub struct EqualizerStateModifierOptions {
    /// Whether the device takes the equalizer in the packet that also carries dynamic range
    /// compression.
    pub has_drc: bool,
}

/// Moves the equalizer to its target. `P` is the handle through which the caller sends
/// packets.
pub struct EqualizerStateModifier<P> {
    packet_io: P,
    options: EqualizerStateModifierOptions,
}

impl<P> EqualizerStateModifier<P> {
    pub closed spec fn spec_options(&self) -> EqualizerStateModifierOptions {
        self.options
    }

    pub fn new(packet_io: P, options: EqualizerStateModifierOptions) -> (r: Self)
        ensures
            r.spec_options() == options,
            r.spec_packet_io() == packet_io,
    {
        EqualizerStateModifier { packet_io, options }
    }

    pub closed spec fn spec_packet_io(&self) -> P {
        self.packet_io
    }

    pub fn packet_io(&self) -> (r: &P)
        ensures
            *r == self.spec_packet_io(),
    {
        &self.packet_io
    }

    pub fn options(&self) -> (r: EqualizerStateModifierOptions)
        ensures
            r == self.spec_options(),
    {
        self.options
    }

    /// The configuration to send, if it differs from the current one; once acknowledged it
    /// becomes the state's.
    pub fn plan(&self, current: &EqualizerConfiguration, target: &EqualizerConfiguration) -> (r: Option<
        EqualizerConfiguration,
    >)
        ensures
            current@ == target@ ==> r is None,
            current@ != target@ ==> (r matches Some(c) && c@ == target@),
    {
        if current.same_as(target) {
            None
        } else {
            Some(target.clone_configuration())
        }
    }
}

/// Moves the equalizer to its target on devices that take it with basic hearing test data,
/// which is sent disabled so that the equalizer is in effect.
pub struct EqualizerWithBasicHearIdStateModifier<P> {
    packet_io: P,
}

impl<P> EqualizerWithBasicHearIdStateModifier<P> {
    pub closed spec fn spec_packet_io(&self) -> P {
        self.packet_io
    }

    pub fn new(packet_io: P) -> (r: Self)
        ensures
            r.spec_packet_io() == packet_io,
    {
        EqualizerWithBasicHearIdStateModifier { packet_io }
    }

    pub fn packet_io(&self) -> (r: &P)
        ensures
            *r == self.spec_packet_io(),
    {
        &self.packet_io
    }

    /// When the equalizer differs: the packet to send, and the hearing test data the state
    /// takes once it is acknowledged (with the equalizer of the target). The packet carries
    /// the target's equalizer, gender and age range, and the hearing test data disabled, with
    /// no custom adjustments and default type and genre.
    pub fn plan(
        &self,
        current: &EqualizerConfiguration,
        target: &EqualizerConfiguration,
        target_hear_id: &BasicHearId,
        gender: Gender,
        age_range: AgeRange,
    ) -> (r: Option<(SetEqualizerAndCustomHearId, BasicHearId)>)
        ensures
            current@ == target@ ==> r is None,
            current@ != target@ ==> (r matches Some((packet, hear_id)) && packet.equalizer_configuration@
                == target@ && packet.gender == gender && packet.age_range == age_range
                && !packet.custom_hear_id.is_enabled && spec_channels(
                packet.custom_hear_id.volume_adjustments@,
            ) == spec_channels(target_hear_id.volume_adjustments@) && packet.custom_hear_id.time
                == target_hear_id.time && packet.custom_hear_id.hear_id_type == 0
                && packet.custom_hear_id.favorite_music_genre == 0
                && packet.custom_hear_id.custom_volume_adjustments@.len() == target@.channels.len()
                && (forall|c: int|
                0 <= c < target@.channels.len()
                    ==> #[trigger] packet.custom_hear_id.custom_volume_adjustments@[c] is None)
                && !hear_id.is_enabled && spec_channels(hear_id.volume_adjustments@) == spec_channels(
                target_hear_id.volume_adjustments@,
            ) && hear_id.time == target_hear_id.time),
    {
        if current.same_as(target) {
            return None;
        }
        let mut custom_volume_adjustments: Vec<Option<VolumeAdjustments>> = Vec::new();
        let mut i: usize = 0;
        while i < target.volume_adjustments.len()
            invariant
                i <= target.volume_adjustments@.len(),
                custom_volume_adjustments@.len() == i,
                forall|c: int| 0 <= c < i ==> #[trigger] custom_volume_adjustments@[c] is None,
            decreases target.volume_adjustments@.len() - i,
        {
            custom_volume_adjustments.push(None);
            i = i + 1;
        }
        let packet = SetEqualizerAndCustomHearId {
            equalizer_configuration: target.clone_configuration(),
            gender,
            age_range,
            custom_hear_id: CustomHearId {
                is_enabled: false,
                volume_adjustments: clone_channels(&target_hear_id.volume_adjustments),
                time: target_hear_id.time,
                hear_id_type: 0,
                favorite_music_genre: 0,
                custom_volume_adjustments,
            },
        };
        let hear_id = BasicHearId {
            is_enabled: false,
            volume_adjustments: clone_channels(&target_hear_id.volume_adjustments),
            time: target_hear_id.time,
        };
        Some((packet, hear_id))
    }
}

/// Moves the equalizer to its target on devices that take it with custom hearing test data,
/// which is sent disabled so that the equalizer is in effect.
pub struct EqualizerWithCustomHearIdStateModifier<P> {
    packet_io: P,
}

impl<P> EqualizerWithCustomHearIdStateModifier<P> {
    pub closed spec fn spec_packet_io(&self) -> P {
        self.packet_io
    }

    pub fn new(packet_io: P) -> (r: Self)
        ensures
            r.spec_packet_io() == packet_io,
    {
        EqualizerWithCustomHearIdStateModifier { packet_io }
    }

    pub fn packet_io(&self) -> (r: &P)
        ensures
            *r == self.spec_packet_io(),
    {
        &self.packet_io
    }

    /// When the equalizer differs: the packet to send, carrying the target's equalizer, gender,
    /// age range and hearing test data with the data disabled; and that disabled data, which
    /// the state takes once the packet is acknowledged.
    pub fn plan(
        &self,
        current: &EqualizerConfiguration,
        target: &EqualizerConfiguration,
        target_hear_id: &CustomHearId,
        gender: Gender,
        age_range: AgeRange,
    ) -> (r: Option<(SetEqualizerAndCustomHearId, CustomHearId)>)
        ensures
            current@ == target@ ==> r is None,
            current@ != target@ ==> (r matches Some((packet, hear_id)) && packet.equalizer_configuration@
                == target@ && packet.gender == gender && packet.age_range == age_range
                && !hear_id.is_enabled && spec_channels(hear_id.volume_adjustments@) == spec_channels(
                target_hear_id.volume_adjustments@,
            ) && hear_id.time == target_hear_id.time && hear_id.hear_id_type
                == target_hear_id.hear_id_type && hear_id.favorite_music_genre
                == target_hear_id.favorite_music_genre && spec_optional_channels(
                hear_id.custom_volume_adjustments@,
            ) == spec_optional_channels(target_hear_id.custom_volume_adjustments@)
                && packet.custom_hear_id.is_enabled == hear_id.is_enabled && spec_channels(
                packet.custom_hear_id.volume_adjustments@,
            ) == spec_channels(hear_id.volume_adjustments@) && packet.custom_hear_id.time
                == hear_id.time && packet.custom_hear_id.hear_id_type == hear_id.hear_id_type
                && packet.custom_hear_id.favorite_music_genre == hear_id.favorite_music_genre
                && spec_optional_channels(packet.custom_hear_id.custom_volume_adjustments@)
                == spec_optional_channels(hear_id.custom_volume_adjustments@)),
    {
        if current.same_as(target) {
            return None;
        }
        let hear_id = CustomHearId {
            is_enabled: false,
            volume_adjustments: clone_channels(&target_hear_id.volume_adjustments),
            time: target_hear_id.time,
            hear_id_type: target_hear_id.hear_id_type,
            favorite_music_genre: target_hear_id.favorite_music_genre,
            custom_volume_adjustments: clone_optional_channels(&target_hear_id.custom_volume_adjustments),
        };
        let packet = SetEqualizerAndCustomHearId {
            equalizer_configuration: target.clone_configuration(),
            gender,
            age_range,
            custom_hear_id: CustomHearId {
                is_enabled: false,
                volume_adjustments: clone_channels(&target_hear_id.volume_adjustments),
                time: target_hear_id.time,
                hear_id_type: target_hear_id.hear_id_type,
                favorite_music_genre: target_hear_id.favorite_music_genre,
                custom_volume_adjustments: clone_optional_channels(
                    &target_hear_id.custom_volume_adjustments,
                ),
            },
        };
        Some((packet, hear_id))
    }
}

/// Every channel of a configuration made from a list of values takes, for each band that the
/// values cover, the value given for it; only past the values given do the fixed values of the
/// invisible bands apply, and past those zero.
pub proof fn lemma_given_values_cover_their_bands(
    preset_id: u16,
    values: Seq<i16>,
    settings: EqualizerModuleSettings,
)
    ensures
        ({
            let c = spec_configuration_from_values(preset_id, values, settings);
            &&& c.preset_id == preset_id
            &&& c.channels.len() == settings.channels
            &&& forall|ch: int| 0 <= ch < settings.channels ==> (#[trigger] c.channels[ch]).len()
                == settings.bands
            &&& forall|ch: int, band: int|
                0 <= ch < settings.channels && 0 <= band < settings.bands ==> {
                    &&& band < values.len() ==> #[trigger] c.channels[ch][band] == values[band]
                    &&& values.len() <= band && settings.visible_bands <= band && band
                        - settings.visible_bands < settings.invisible_band_values@.len()
                        ==> c.channels[ch][band] == settings.invisible_band_values@[band
                        - settings.visible_bands]
                }
        }),
{
}

/// Picking a preset by name sets every channel to the preset's own values, for every band
/// that the preset has a value for, invisible bands included.
pub proof fn lemma_preset_values_cover_their_bands(
    config: EqualizerConfigurationView,
    settings: EqualizerModuleSettings,
    profiles: Seq<CustomEqualizerProfile>,
    name: String,
)
    requires
        find_preset_by_name(settings.presets@, name@, 0) is Some,
    ensures
        ({
            let preset = settings.presets@[find_preset_by_name(settings.presets@, name@, 0)->0];
            spec_set_inner(
                config,
                settings,
                profiles,
                EqualizerSetting::PresetEqualizerProfile,
                Value::String(name),
            ) matches Ok(Some(c)) && c.preset_id == preset.id && c.channels.len() == settings.channels
                && forall|ch: int, band: int|
                0 <= ch < settings.channels && 0 <= band < settings.bands && band
                    < preset.volume_adjustments@.len() ==> #[trigger] c.channels[ch][band]
                    == preset.volume_adjustments@[band]
        }),
{
}

} // verus!
