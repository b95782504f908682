//! Turning the device off after a delay without use: the delays a device offers and the select
//! setting that picks one or disables the feature.

use vstd::prelude::*;

use crate::settings::{Select, Setting, SettingHandlerError, SettingId, SettingView, Value, ValueKind};
use crate::structures::{AutoPowerOff, AutoPowerOffDurationIndex};
use crate::text::{eq_ignore_ascii_case, eq_ignoring_ascii_case, owned};

verus! {

/// A delay after which the device turns itself off.
#[derive(Debug, Clone, Copy, PartialEq, Eq, Hash, Structural)]
pub enum AutoPowerOffDuration {
    TenMinutes,
    TwentyMinutes,
    ThirtyMinutes,
    SixtyMinutes,
    NinetyMinutes,
    OneHundredTwentyMinutes,
}

impl AutoPowerOffDuration {
    pub open spec fn spec_name(self) -> Seq<char> {
        match self {
            AutoPowerOffDuration::TenMinutes => "10m"@,
            AutoPowerOffDuration::TwentyMinutes => "20m"@,
            AutoPowerOffDuration::ThirtyMinutes => "30m"@,
            AutoPowerOffDuration::SixtyMinutes => "60m"@,
            AutoPowerOffDuration::NinetyMinutes => "90m"@,
            AutoPowerOffDuration::OneHundredTwentyMinutes => "120m"@,
        }
    }

    /// The delay in minutes.
    pub open spec fn spec_minutes(self) -> u32 {
        match self {
            AutoPowerOffDuration::TenMinutes => 10,
            AutoPowerOffDuration::TwentyMinutes => 20,
            AutoPowerOffDuration::ThirtyMinutes => 30,
            AutoPowerOffDuration::SixtyMinutes => 60,
            AutoPowerOffDuration::NinetyMinutes => 90,
            AutoPowerOffDuration::OneHundredTwentyMinutes => 120,
        }
    }

    pub fn name(&self) -> (r: &'static str)
        ensures
            r@ == self.spec_name(),
    {
        match self {
            AutoPowerOffDuration::TenMinutes => "10m",
            AutoPowerOffDuration::TwentyMinutes => "20m",
            AutoPowerOffDuration::ThirtyMinutes => "30m",
            AutoPowerOffDuration::SixtyMinutes => "60m",
            AutoPowerOffDuration::NinetyMinutes => "90m",
            AutoPowerOffDuration::OneHundredTwentyMinutes => "120m",
        }
    }

    pub fn minutes(&self) -> (r: u32)
        ensures
            r == self.spec_minutes(),
    {
        match self {
            AutoPowerOffDuration::TenMinutes => 10,
            AutoPowerOffDuration::TwentyMinutes => 20,
            AutoPowerOffDuration::ThirtyMinutes => 30,
            AutoPowerOffDuration::SixtyMinutes => 60,
            AutoPowerOffDuration::NinetyMinutes => 90,
            AutoPowerOffDuration::OneHundredTwentyMinutes => 120,
        }
    }

    pub open spec fn spec_half_hour_increments() -> Seq<Self> {
        seq![
            AutoPowerOffDuration::ThirtyMinutes,
            AutoPowerOffDuration::SixtyMinutes,
            AutoPowerOffDuration::NinetyMinutes,
            AutoPowerOffDuration::OneHundredTwentyMinutes,
        ]
    }

    pub open spec fn spec_ten_twenty_thirty_sixty() -> Seq<Self> {
        seq![
            AutoPowerOffDuration::TenMinutes,
            AutoPowerOffDuration::TwentyMinutes,
            AutoPowerOffDuration::ThirtyMinutes,
            AutoPowerOffDuration::SixtyMinutes,
        ]
    }

    /// 30, 60, 90 and 120 minutes.
    pub fn half_hour_increments() -> (r: Vec<Self>)
        ensures
            r@ == Self::spec_half_hour_increments(),
    {
        let r = vec![
            AutoPowerOffDuration::ThirtyMinutes,
            AutoPowerOffDuration::SixtyMinutes,
            AutoPowerOffDuration::NinetyMinutes,
            AutoPowerOffDuration::OneHundredTwentyMinutes,
        ];
        assert(r@ =~= Self::spec_half_hour_increments());
        r
    }

    /// 10, 20, 30 and 60 minutes.
    pub fn ten_twenty_thirty_sixty() -> (r: Vec<Self>)
        ensures
            r@ == Self::spec_ten_twenty_thirty_sixty(),
    {
        let r = vec![
            AutoPowerOffDuration::TenMinutes,
            AutoPowerOffDuration::TwentyMinutes,
            AutoPowerOffDuration::ThirtyMinutes,
            AutoPowerOffDuration::SixtyMinutes,
        ];
        assert(r@ =~= Self::spec_ten_twenty_thirty_sixty());
        r
    }
}

/// The settings of the auto power off module.
#[derive(Debug, Clone, Copy, PartialEq, Eq, Hash, Structural)]
pub enum AutoPowerOffSetting {
    AutoPowerOff,
}

impl AutoPowerOffSetting {
    pub open spec fn spec_from_setting_id(id: SettingId) -> Option<Self> {
        match id {
            SettingId::AutoPowerOff => Some(AutoPowerOffSetting::AutoPowerOff),
            _ => None,
        }
    }

    pub fn from_setting_id(id: SettingId) -> (r: Option<Self>)
        ensures
            r == Self::spec_from_setting_id(id),
    {
        match id {
            SettingId::AutoPowerOff => Some(AutoPowerOffSetting::AutoPowerOff),
            _ => None,
        }
    }
}

/// The option that turns the feature off.
pub open spec fn spec_disabled_name() -> Seq<char> {
    "disabled"@
}

/// The names of the select's options: "disabled", then each delay's.
pub open spec fn spec_duration_options(durations: Seq<AutoPowerOffDuration>) -> Seq<Seq<char>> {
    seq![spec_disabled_name()] + durations.map_values(|d: AutoPowerOffDuration| d.spec_name())
}

/// The selected option: the delay at the stored index when the feature is enabled and the index
/// is one of the offered delays, else "disabled".
pub open spec fn spec_selected_duration(
    durations: Seq<AutoPowerOffDuration>,
    auto_power_off: AutoPowerOff,
) -> Seq<char> {
    if auto_power_off.is_enabled && (auto_power_off.duration.0 as int) < durations.len() {
        durations[auto_power_off.duration.0 as int].spec_name()
    } else {
        spec_disabled_name()
    }
}

/// Index of the first delay from `j` on whose name matches `selection` without regard to ASCII
/// case.
pub open spec fn find_duration(durations: Seq<AutoPowerOffDuration>, selection: Seq<char>, j: int) -> Option<int>
    decreases durations.len() - j,
{
    if j < 0 || j >= durations.len() {
        None
    } else if eq_ignoring_ascii_case(durations[j].spec_name(), selection) {
        Some(j)
    } else {
        find_duration(durations, selection, j + 1)
    }
}

/// The state after choosing `selection`: the first delay of that name, enabled; any other text
/// disables the feature and keeps the stored delay.
pub open spec fn spec_select_duration(
    durations: Seq<AutoPowerOffDuration>,
    auto_power_off: AutoPowerOff,
    selection: Seq<char>,
) -> AutoPowerOff {
    match find_duration(durations, selection, 0) {
        Some(i) => AutoPowerOff { is_enabled: true, duration: AutoPowerOffDurationIndex(i as u8) },
        None => AutoPowerOff { is_enabled: false, ..auto_power_off },
    }
}

/// Shows the auto power off delay as a select among the device's delays.
pub struct AutoPowerOffSettingHandler {
    durations: Vec<AutoPowerOffDuration>,
}

impl AutoPowerOffSettingHandler {
    pub closed spec fn spec_durations(&self) -> Seq<AutoPowerOffDuration> {
        self.durations@
    }

    pub fn new(durations: Vec<AutoPowerOffDuration>) -> (r: Self)
        ensures
            r.spec_durations() == durations@,
    {
        AutoPowerOffSettingHandler { durations }
    }

    pub fn settings(&self) -> (r: Vec<SettingId>)
        ensures
            r@ == seq![SettingId::AutoPowerOff],
    {
        let r = vec![SettingId::AutoPowerOff];
        assert(r@ =~= seq![SettingId::AutoPowerOff]);
        r
    }

    fn options(&self) -> (r: Vec<String>)
        ensures
            r.deep_view() == spec_duration_options(self.spec_durations()),
    {
        let mut r: Vec<String> = Vec::new();
        r.push(owned("disabled"));
        let mut i: usize = 0;
        while i < self.durations.len()
            invariant
                i <= self.durations@.len(),
                r.deep_view() == spec_duration_options(self.durations@.subrange(0, i as int)),
            decreases self.durations@.len() - i,
        {
            let ghost before = r.deep_view();
            let name = owned(self.durations[i].name());
            r.push(name);
            assert(r.deep_view() =~= before.push(self.durations@[i as int].spec_name()));
            proof {
                let prefix = self.durations@.subrange(0, i as int);
                let next = self.durations@.subrange(0, i + 1);
                assert(next =~= prefix.push(self.durations@[i as int]));
                assert(next.map_values(|d: AutoPowerOffDuration| d.spec_name()) =~= prefix.map_values(
                    |d: AutoPowerOffDuration| d.spec_name(),
                ).push(self.durations@[i as int].spec_name()));
            }
            i = i + 1;
            assert(r.deep_view() =~= spec_duration_options(self.durations@.subrange(0, i as int)));
        }
        assert(self.durations@.subrange(0, i as int) =~= self.durations@);
        r
    }

    pub open spec fn spec_get(&self, auto_power_off: AutoPowerOff, setting_id: SettingId) -> Option<
        SettingView,
    > {
        match AutoPowerOffSetting::spec_from_setting_id(setting_id) {
            Some(_) => Some(
                SettingView::Select {
                    options: spec_duration_options(self.spec_durations()),
                    value: spec_selected_duration(self.spec_durations(), auto_power_off),
                },
            ),
            None => None,
        }
    }

    /// The select of delays with the current one chosen.
    pub fn get_inner(&self, auto_power_off: &AutoPowerOff, setting_id: &SettingId) -> (r: Option<
        Setting,
    >)
        ensures
            match self.spec_get(*auto_power_off, *setting_id) {
                Some(v) => r matches Some(s) && s@ == v,
                None => r is None,
            },
    {
        let setting = AutoPowerOffSetting::from_setting_id(*setting_id)?;
        match setting {
            AutoPowerOffSetting::AutoPowerOff => {
                let index = auto_power_off.duration.0 as usize;
                let value = if auto_power_off.is_enabled && index < self.durations.len() {
                    owned(self.durations[index].name())
                } else {
                    owned("disabled")
                };
                Some(Setting::Select { setting: Select { options: self.options() }, value })
            },
        }
    }

    /// Chooses the delay named by a string value, or disables the feature for any other text.
    /// A value that is not a string is refused and changes nothing.
    pub fn set_inner(
        &self,
        auto_power_off: &mut AutoPowerOff,
        setting_id: &SettingId,
        value: Value,
    ) -> (r: Result<(), SettingHandlerError>)
        requires
            AutoPowerOffSetting::spec_from_setting_id(*setting_id) is Some,
        ensures
            match value {
                Value::String(s) => r is Ok && *final(auto_power_off) == spec_select_duration(
                    self.spec_durations(),
                    *old(auto_power_off),
                    s@,
                ),
                _ => (r matches Err(e) && Value::is_wrong_type(e, ValueKind::String))
                    && *final(auto_power_off) == *old(auto_power_off),
            },
    {
        let setting = AutoPowerOffSetting::from_setting_id(*setting_id).unwrap();
        match setting {
            AutoPowerOffSetting::AutoPowerOff => {
                let selection = value.try_as_str()?;
                let mut i: usize = 0;
                let mut found: Option<usize> = None;
                while i < self.durations.len()
                    invariant_except_break
                        i <= self.durations@.len(),
                        found is None,
                        find_duration(self.durations@, selection@, 0) == find_duration(
                            self.durations@,
                            selection@,
                            i as int,
                        ),
                    ensures
                        match found {
                            Some(p) => find_duration(self.durations@, selection@, 0) == Some(
                                p as int,
                            ),
                            None => find_duration(self.durations@, selection@, 0) is None,
                        },
                    decreases self.durations@.len() - i,
                {
                    if eq_ignore_ascii_case(self.durations[i].name(), selection) {
                        found = Some(i);
                        break;
                    }
                    i = i + 1;
                }
                match found {
                    Some(p) => {
                        auto_power_off.is_enabled = true;
                        auto_power_off.duration = AutoPowerOffDurationIndex(
                            #[verifier::truncate]
                            (p as u8),
                        );
                    },
                    None => {
                        auto_power_off.is_enabled = false;
                    },
                }
            },
        }
        Ok(())
    }

    /// `get_inner` for a state that may lack the auto power off data.
    pub fn get(&self, auto_power_off: &Option<AutoPowerOff>, setting_id: &SettingId) -> (r: Option<
        Setting,
    >)
        ensures
            match *auto_power_off {
                Some(a) => match self.spec_get(a, *setting_id) {
                    Some(v) => r matches Some(s) && s@ == v,
                    None => r is None,
                },
                None => r is None,
            },
    {
        match auto_power_off {
            Some(a) => self.get_inner(a, setting_id),
            None => None,
        }
    }

    /// `set_inner` for a state that may lack the auto power off data; without it the change is
    /// refused.
    pub fn set(
        &self,
        auto_power_off: &mut Option<AutoPowerOff>,
        setting_id: &SettingId,
        value: Value,
    ) -> (r: Result<(), SettingHandlerError>)
        requires
            AutoPowerOffSetting::spec_from_setting_id(*setting_id) is Some,
        ensures
            match *old(auto_power_off) {
                Some(a) => match value {
                    Value::String(s) => r is Ok && *final(auto_power_off) == Some(
                        spec_select_duration(self.spec_durations(), a, s@),
                    ),
                    _ => (r matches Err(e) && Value::is_wrong_type(e, ValueKind::String))
                        && *final(auto_power_off) == *old(auto_power_off),
                },
                None => r matches Err(SettingHandlerError::MissingData) && *final(auto_power_off)
                    is None,
            },
    {
        match auto_power_off {
            Some(a) => {
                let mut inner = *a;
                let r = self.set_inner(&mut inner, setting_id, value);
                *auto_power_off = Some(inner);
                r
            },
            None => Err(SettingHandlerError::MissingData),
        }
    }
}

/// Choosing an offered delay by its name and reading the setting back shows that delay, for
/// delay lists without two delays of the same name.
pub proof fn lemma_duration_select_then_get(
    durations: Seq<AutoPowerOffDuration>,
    auto_power_off: AutoPowerOff,
    i: int,
)
    requires
        0 <= i < durations.len() <= 256,
        forall|a: int, b: int| 0 <= a < b < durations.len() ==> durations[a] != durations[b],
    ensures
        spec_selected_duration(
            durations,
            spec_select_duration(durations, auto_power_off, durations[i].spec_name()),
        ) == durations[i].spec_name(),
{
    lemma_find_duration_of_name(durations, i, 0);
}

proof fn lemma_names_match_only_themselves(a: AutoPowerOffDuration, b: AutoPowerOffDuration)
    ensures
        eq_ignoring_ascii_case(a.spec_name(), b.spec_name()) <==> a == b,
{
    reveal_strlit("10m");
    reveal_strlit("20m");
    reveal_strlit("30m");
    reveal_strlit("60m");
    reveal_strlit("90m");
    reveal_strlit("120m");
    if a != b && eq_ignoring_ascii_case(a.spec_name(), b.spec_name()) {
        assert(crate::text::ascii_lowercase(a.spec_name()[0]) == crate::text::ascii_lowercase(
            b.spec_name()[0],
        ));
        assert(crate::text::ascii_lowercase(a.spec_name()[1]) == crate::text::ascii_lowercase(
            b.spec_name()[1],
        ));
    }
}

proof fn lemma_find_duration_of_name(durations: Seq<AutoPowerOffDuration>, i: int, j: int)
    requires
        0 <= j <= i < durations.len(),
        forall|a: int, b: int| 0 <= a < b < durations.len() ==> durations[a] != durations[b],
    ensures
        find_duration(durations, durations[i].spec_name(), j) == Some(i),
    decreases i - j,
{
    lemma_names_match_only_themselves(durations[j], durations[i]);
    if j < i {
        lemma_find_duration_of_name(durations, i, j + 1);
    }
}

} // verus!
