//! Button configuration shared by most models: each button press has an action id, optionally
//! separate ids for when the earbuds are and are not connected to each other, and optionally an
//! enabled flag.

use vstd::prelude::*;

use crate::settings::{Select, Setting, SettingHandlerError, SettingId, SettingView, Value};
use crate::structures::TwsStatus;
use crate::text::{owned, str_eq};

verus! {

/// The action id that stands for "no action".
pub const NO_ACTION: u8 = 0xF;

#[derive(Debug, Clone, Copy, PartialEq, Eq, Hash, Structural)]
pub enum ButtonPressKind {
    Single,
    Double,
    Long,
}

#[derive(Debug, Clone, Copy, PartialEq, Eq, Hash, Structural)]
pub enum ButtonSide {
    Left,
    Right,
}

impl ButtonSide {
    pub open spec fn spec_byte(self) -> u8 {
        match self {
            ButtonSide::Left => 0,
            ButtonSide::Right => 1,
        }
    }

    pub fn byte(&self) -> (r: u8)
        ensures
            r == self.spec_byte(),
    {
        match self {
            ButtonSide::Left => 0,
            ButtonSide::Right => 1,
        }
    }
}

/// One press kind of one earbud.
#[derive(Debug, Clone, Copy, PartialEq, Eq, Hash, Structural)]
pub enum Button {
    LeftSinglePress,
    LeftDoublePress,
    LeftLongPress,
    RightSinglePress,
    RightDoublePress,
    RightLongPress,
}

impl Button {
    pub open spec fn spec_press_kind(self) -> ButtonPressKind {
        match self {
            Button::LeftSinglePress | Button::RightSinglePress => ButtonPressKind::Single,
            Button::LeftDoublePress | Button::RightDoublePress => ButtonPressKind::Double,
            Button::LeftLongPress | Button::RightLongPress => ButtonPressKind::Long,
        }
    }

    pub open spec fn spec_side(self) -> ButtonSide {
        match self {
            Button::LeftSinglePress | Button::LeftDoublePress | Button::LeftLongPress =>
                ButtonSide::Left,
            _ => ButtonSide::Right,
        }
    }

    pub open spec fn spec_setting_id(self) -> SettingId {
        match self {
            Button::LeftSinglePress => SettingId::LeftSinglePress,
            Button::LeftDoublePress => SettingId::LeftDoublePress,
            Button::LeftLongPress => SettingId::LeftLongPress,
            Button::RightSinglePress => SettingId::RightSinglePress,
            Button::RightDoublePress => SettingId::RightDoublePress,
            Button::RightLongPress => SettingId::RightLongPress,
        }
    }

    pub open spec fn spec_from_setting_id(id: SettingId) -> Option<Button> {
        match id {
            SettingId::LeftSinglePress => Some(Button::LeftSinglePress),
            SettingId::LeftDoublePress => Some(Button::LeftDoublePress),
            SettingId::LeftLongPress => Some(Button::LeftLongPress),
            SettingId::RightSinglePress => Some(Button::RightSinglePress),
            SettingId::RightDoublePress => Some(Button::RightDoublePress),
            SettingId::RightLongPress => Some(Button::RightLongPress),
            _ => None,
        }
    }

    pub fn press_kind(&self) -> (r: ButtonPressKind)
        ensures
            r == self.spec_press_kind(),
    {
        match self {
            Button::LeftSinglePress | Button::RightSinglePress => ButtonPressKind::Single,
            Button::LeftDoublePress | Button::RightDoublePress => ButtonPressKind::Double,
            Button::LeftLongPress | Button::RightLongPress => ButtonPressKind::Long,
        }
    }

    pub fn side(&self) -> (r: ButtonSide)
        ensures
            r == self.spec_side(),
    {
        match self {
            Button::LeftSinglePress | Button::LeftDoublePress | Button::LeftLongPress =>
                ButtonSide::Left,
            _ => ButtonSide::Right,
        }
    }

    pub fn setting_id(&self) -> (r: SettingId)
        ensures
            r == self.spec_setting_id(),
    {
        match self {
            Button::LeftSinglePress => SettingId::LeftSinglePress,
            Button::LeftDoublePress => SettingId::LeftDoublePress,
            Button::LeftLongPress => SettingId::LeftLongPress,
            Button::RightSinglePress => SettingId::RightSinglePress,
            Button::RightDoublePress => SettingId::RightDoublePress,
            Button::RightLongPress => SettingId::RightLongPress,
        }
    }

    pub fn from_setting_id(id: SettingId) -> (r: Option<Button>)
        ensures
            r == Self::spec_from_setting_id(id),
    {
        match id {
            SettingId::LeftSinglePress => Some(Button::LeftSinglePress),
            SettingId::LeftDoublePress => Some(Button::LeftDoublePress),
            SettingId::LeftLongPress => Some(Button::LeftLongPress),
            SettingId::RightSinglePress => Some(Button::RightSinglePress),
            SettingId::RightDoublePress => Some(Button::RightDoublePress),
            SettingId::RightLongPress => Some(Button::RightLongPress),
            _ => None,
        }
    }
}

/// How a button's enabled flag is stored, if it has one.
#[derive(Debug, Clone, Copy, PartialEq, Eq, Hash, Structural)]
pub enum EnabledFlagKind {
    Absent,
    Single,
    /// Bit 0 for when the earbuds are connected to each other, bit 1 for when not.
    TwsLowBits,
}

/// How a button's action id is stored.
#[derive(Debug, Clone, Copy, PartialEq, Eq, Hash, Structural)]
pub enum ActionKind {
    Single,
    /// Low nibble for when the earbuds are connected to each other, high nibble for when not.
    TwsLowBits,
}

#[derive(Debug, Clone, Copy, PartialEq, Eq, Hash, Structural)]
pub struct ButtonParseSettings {
    pub enabled_flag_kind: EnabledFlagKind,
    pub action_kind: ActionKind,
}

#[derive(Debug, Clone, Copy, PartialEq, Eq, Hash, Structural)]
pub enum EnabledStatus {
    Single(bool),
    Tws { connected: bool, disconnected: bool },
}

impl EnabledStatus {
    pub open spec fn spec_current(self, tws_status: TwsStatus) -> bool {
        match self {
            EnabledStatus::Single(e) => e,
            EnabledStatus::Tws { connected, disconnected } => if tws_status.is_connected {
                connected
            } else {
                disconnected
            },
        }
    }

    pub open spec fn spec_with_current(self, tws_status: TwsStatus, enabled: bool) -> Self {
        match self {
            EnabledStatus::Single(_) => EnabledStatus::Single(enabled),
            EnabledStatus::Tws { connected, disconnected } => if tws_status.is_connected {
                EnabledStatus::Tws { connected: enabled, disconnected }
            } else {
                EnabledStatus::Tws { connected, disconnected: enabled }
            },
        }
    }

    /// The byte that stores the flag in the layout `kind`.
    pub open spec fn spec_byte(self, kind: EnabledFlagKind) -> u8 {
        let (connected, disconnected) = match self {
            EnabledStatus::Single(e) => (e, e),
            EnabledStatus::Tws { connected, disconnected } => (connected, disconnected),
        };
        match kind {
            EnabledFlagKind::TwsLowBits => ((if connected { 1u8 } else { 0u8 }) + (if disconnected {
                2u8
            } else {
                0u8
            })) as u8,
            _ => if connected {
                1u8
            } else {
                0u8
            },
        }
    }

    pub fn byte(&self, kind: EnabledFlagKind) -> (r: u8)
        ensures
            r == self.spec_byte(kind),
    {
        let (connected, disconnected) = match self {
            EnabledStatus::Single(e) => (*e, *e),
            EnabledStatus::Tws { connected, disconnected } => (*connected, *disconnected),
        };
        match kind {
            EnabledFlagKind::TwsLowBits => (if connected {
                1u8
            } else {
                0u8
            }) + (if disconnected {
                2u8
            } else {
                0u8
            }),
            _ => if connected {
                1u8
            } else {
                0u8
            },
        }
    }
}

#[derive(Debug, Clone, Copy, PartialEq, Eq, Hash, Structural)]
pub enum ActionStatus {
    Single(u8),
    Tws { connected: u8, disconnected: u8 },
}

impl ActionStatus {
    pub open spec fn spec_current(self, tws_status: TwsStatus) -> u8 {
        match self {
            ActionStatus::Single(a) => a,
            ActionStatus::Tws { connected, disconnected } => if tws_status.is_connected {
                connected
            } else {
                disconnected
            },
        }
    }

    pub open spec fn spec_with_current(self, tws_status: TwsStatus, id: u8) -> Self {
        match self {
            ActionStatus::Single(_) => ActionStatus::Single(id),
            ActionStatus::Tws { connected, disconnected } => if tws_status.is_connected {
                ActionStatus::Tws { connected: id, disconnected }
            } else {
                ActionStatus::Tws { connected, disconnected: id }
            },
        }
    }

    /// The action id in effect for the given connection state of the earbuds.
    pub fn current(&self, tws_status: TwsStatus) -> (r: u8)
        ensures
            r == self.spec_current(tws_status),
    {
        match self {
            ActionStatus::Single(a) => *a,
            ActionStatus::Tws { connected, disconnected } => if tws_status.is_connected {
                *connected
            } else {
                *disconnected
            },
        }
    }

    /// The byte that stores the action ids in the layout `kind`.
    pub open spec fn spec_byte(self, kind: ActionKind) -> u8 {
        let (connected, disconnected) = match self {
            ActionStatus::Single(a) => (a, a),
            ActionStatus::Tws { connected, disconnected } => (connected, disconnected),
        };
        match kind {
            ActionKind::Single => connected,
            ActionKind::TwsLowBits => ((disconnected % 16) * 16 + connected % 16) as u8,
        }
    }

    pub fn byte(&self, kind: ActionKind) -> (r: u8)
        ensures
            r == self.spec_byte(kind),
    {
        let (connected, disconnected) = match self {
            ActionStatus::Single(a) => (*a, *a),
            ActionStatus::Tws { connected, disconnected } => (*connected, *disconnected),
        };
        match kind {
            ActionKind::Single => connected,
            ActionKind::TwsLowBits => (disconnected % 16) * 16 + connected % 16,
        }
    }
}

/// The enabled flag (if the device stores one) and the action ids of one button press.
#[derive(Debug, Clone, Copy, PartialEq, Eq, Hash, Structural)]
pub struct ButtonStatus {
    pub enabled: Option<EnabledStatus>,
    pub action: ActionStatus,
}

impl ButtonStatus {
    /// Whether the press does something in the given connection state: by its enabled flag if
    /// it has one, else by whether its action id is not "no action".
    pub open spec fn spec_is_enabled(self, tws_status: TwsStatus) -> bool {
        match self.enabled {
            Some(e) => e.spec_current(tws_status),
            None => self.action.spec_current(tws_status) != NO_ACTION,
        }
    }

    /// The action id in effect, or `None` if the press is disabled.
    pub open spec fn spec_current_action_id(self, tws_status: TwsStatus) -> Option<u8> {
        if self.spec_is_enabled(tws_status) && self.action.spec_current(tws_status) != NO_ACTION {
            Some(self.action.spec_current(tws_status))
        } else {
            None
        }
    }

    /// The status after choosing action `id` (enabling the press) or no action (disabling it,
    /// by the enabled flag if there is one and else by the "no action" id).
    pub open spec fn spec_with_current_action_id(self, tws_status: TwsStatus, id: Option<u8>) -> Self {
        match id {
            Some(id) => ButtonStatus {
                enabled: match self.enabled {
                    Some(e) => Some(e.spec_with_current(tws_status, true)),
                    None => None,
                },
                action: self.action.spec_with_current(tws_status, id),
            },
            None => match self.enabled {
                Some(e) => ButtonStatus {
                    enabled: Some(e.spec_with_current(tws_status, false)),
                    action: self.action,
                },
                None => ButtonStatus {
                    enabled: None,
                    action: self.action.spec_with_current(tws_status, NO_ACTION),
                },
            },
        }
    }

    pub fn is_enabled(&self, tws_status: TwsStatus) -> (r: bool)
        ensures
            r == self.spec_is_enabled(tws_status),
    {
        match self.enabled {
            Some(e) => match e {
                EnabledStatus::Single(v) => v,
                EnabledStatus::Tws { connected, disconnected } => if tws_status.is_connected {
                    connected
                } else {
                    disconnected
                },
            },
            None => self.action.current(tws_status) != NO_ACTION,
        }
    }

    pub fn current_action_id(&self, tws_status: TwsStatus) -> (r: Option<u8>)
        ensures
            r == self.spec_current_action_id(tws_status),
    {
        let id = self.action.current(tws_status);
        if self.is_enabled(tws_status) && id != NO_ACTION {
            Some(id)
        } else {
            None
        }
    }

    pub fn with_current_action_id(&self, tws_status: TwsStatus, id: Option<u8>) -> (r: Self)
        ensures
            r == self.spec_with_current_action_id(tws_status, id),
    {
        let with_enabled = |e: EnabledStatus, value: bool| -> (r: EnabledStatus)
            ensures
                r == e.spec_with_current(tws_status, value),
            {
                match e {
                    EnabledStatus::Single(_) => EnabledStatus::Single(value),
                    EnabledStatus::Tws { connected, disconnected } => if tws_status.is_connected {
                        EnabledStatus::Tws { connected: value, disconnected }
                    } else {
                        EnabledStatus::Tws { connected, disconnected: value }
                    },
                }
            };
        let with_action = |a: ActionStatus, value: u8| -> (r: ActionStatus)
            ensures
                r == a.spec_with_current(tws_status, value),
            {
                match a {
                    ActionStatus::Single(_) => ActionStatus::Single(value),
                    ActionStatus::Tws { connected, disconnected } => if tws_status.is_connected {
                        ActionStatus::Tws { connected: value, disconnected }
                    } else {
                        ActionStatus::Tws { connected, disconnected: value }
                    },
                }
            };
        match id {
            Some(id) => ButtonStatus {
                enabled: match self.enabled {
                    Some(e) => Some(with_enabled(e, true)),
                    None => None,
                },
                action: with_action(self.action, id),
            },
            None => match self.enabled {
                Some(e) => ButtonStatus { enabled: Some(with_enabled(e, false)), action: self.action },
                None => ButtonStatus { enabled: None, action: with_action(self.action, NO_ACTION) },
            },
        }
    }
}

/// Choosing an action id that is not "no action" makes the press show that action; choosing
/// no action disables it.
pub proof fn lemma_with_current_action_id(status: ButtonStatus, tws_status: TwsStatus, id: Option<u8>)
    requires
        id matches Some(i) ==> i != NO_ACTION,
    ensures
        status.spec_with_current_action_id(tws_status, id).spec_current_action_id(tws_status)
            == id,
{
}

/// The statuses of all buttons of a device, in the device's order.
#[derive(Debug, Clone, PartialEq, Eq)]
pub struct ButtonStatusCollection {
    pub statuses: Vec<ButtonStatus>,
}

impl ButtonStatusCollection {
    pub fn new(statuses: Vec<ButtonStatus>) -> (r: Self)
        ensures
            r.statuses@ == statuses@,
    {
        ButtonStatusCollection { statuses }
    }
}

impl ButtonParseSettings {
    /// Number of bytes a button takes: the enabled flag, if stored, then the action ids.
    pub open spec fn spec_len(self) -> nat {
        match self.enabled_flag_kind {
            EnabledFlagKind::Absent => 1,
            _ => 2,
        }
    }

    pub fn len(&self) -> (r: usize)
        ensures
            r == self.spec_len(),
    {
        match self.enabled_flag_kind {
            EnabledFlagKind::Absent => 1,
            _ => 2,
        }
    }
}

impl ButtonStatus {
    /// Reads a button laid out as `settings` says from the start of `s`. A single enabled flag
    /// is set when its byte is not zero; two flags are the low two bits of their byte. A single
    /// action id is its byte; two ids are the byte's nibbles, the low one for when the earbuds
    /// are connected to each other.
    pub open spec fn spec_take(s: Seq<u8>, settings: ButtonParseSettings) -> Option<ButtonStatus> {
        if s.len() < settings.spec_len() {
            None
        } else {
            let action_byte = s[settings.spec_len() - 1];
            Some(
                ButtonStatus {
                    enabled: match settings.enabled_flag_kind {
                        EnabledFlagKind::Absent => None,
                        EnabledFlagKind::Single => Some(EnabledStatus::Single(s[0] != 0)),
                        EnabledFlagKind::TwsLowBits => Some(
                            EnabledStatus::Tws {
                                connected: s[0] % 2 == 1,
                                disconnected: (s[0] / 2) % 2 == 1,
                            },
                        ),
                    },
                    action: match settings.action_kind {
                        ActionKind::Single => ActionStatus::Single(action_byte),
                        ActionKind::TwsLowBits => ActionStatus::Tws {
                            connected: action_byte % 16,
                            disconnected: action_byte / 16,
                        },
                    },
                },
            )
        }
    }

    pub fn take(s: &[u8], settings: ButtonParseSettings) -> (r: Option<ButtonStatus>)
        ensures
            r == Self::spec_take(s@, settings),
    {
        let len = settings.len();
        if s.len() < len {
            return None;
        }
        let action_byte = s[len - 1];
        Some(
            ButtonStatus {
                enabled: match settings.enabled_flag_kind {
                    EnabledFlagKind::Absent => None,
                    EnabledFlagKind::Single => Some(EnabledStatus::Single(s[0] != 0)),
                    EnabledFlagKind::TwsLowBits => Some(
                        EnabledStatus::Tws {
                            connected: s[0] % 2 == 1,
                            disconnected: (s[0] / 2) % 2 == 1,
                        },
                    ),
                },
                action: match settings.action_kind {
                    ActionKind::Single => ActionStatus::Single(action_byte),
                    ActionKind::TwsLowBits => ActionStatus::Tws {
                        connected: action_byte % 16,
                        disconnected: action_byte / 16,
                    },
                },
            },
        )
    }
}

/// Reads one button per entry of `settings`, one after the other, from the start of `s`; the
/// statuses and the number of bytes read.
pub open spec fn spec_take_statuses(s: Seq<u8>, settings: Seq<ButtonParseSettings>) -> Option<
    (Seq<ButtonStatus>, nat),
>
    decreases settings.len(),
{
    if settings.len() == 0 {
        Some((seq![], 0))
    } else {
        match spec_take_statuses(s, settings.drop_last()) {
            Some((statuses, used)) => match ButtonStatus::spec_take(
                s.subrange(used as int, s.len() as int),
                settings.last(),
            ) {
                Some(status) => Some((statuses.push(status), used + settings.last().spec_len())),
                None => None,
            },
            None => None,
        }
    }
}

proof fn lemma_take_statuses_used(s: Seq<u8>, settings: Seq<ButtonParseSettings>)
    ensures
        spec_take_statuses(s, settings) matches Some((statuses, used)) ==> used <= s.len()
            && statuses.len() == settings.len(),
    decreases settings.len(),
{
    if settings.len() > 0 {
        lemma_take_statuses_used(s, settings.drop_last());
    }
}

impl ButtonStatusCollection {
    /// Reads the buttons of a state update packet; the collection and the number of bytes read.
    pub fn take(s: &[u8], settings: &Vec<ButtonParseSettings>) -> (r: Option<(ButtonStatusCollection, usize)>)
        ensures
            match spec_take_statuses(s@, settings@) {
                Some((statuses, used)) => r matches Some((c, u)) && c.statuses@ == statuses && u == used,
                None => r is None,
            },
    {
        let mut statuses: Vec<ButtonStatus> = Vec::new();
        let mut used: usize = 0;
        let mut i: usize = 0;
        let n = s.len();
        while i < settings.len()
            invariant
                n == s@.len(),
                i <= settings@.len(),
                spec_take_statuses(s@, settings@.subrange(0, i as int)) == Some(
                    (statuses@, used as nat),
                ),
                used <= s@.len(),
            decreases settings@.len() - i,
        {
            let ghost prefix = settings@.subrange(0, i as int);
            let ghost next = settings@.subrange(0, i + 1);
            assert(next.drop_last() =~= prefix);
            assert(next.last() == settings@[i as int]);
            let rest = slice_from(s, used);
            match ButtonStatus::take(rest, settings[i]) {
                Some(status) => {
                    assert(rest@.len() >= settings@[i as int].spec_len());
                    assert(used + settings@[i as int].spec_len() <= n);
                    statuses.push(status);
                    used = used + settings[i].len();
                    proof {
                        lemma_take_statuses_used(s@, next);
                    }
                },
                None => {
                    proof {
                        assert(spec_take_statuses(s@, next) is None);
                        lemma_take_statuses_none(s@, settings@, i as int + 1);
                        assert(settings@.subrange(0, settings@.len() as int) =~= settings@);
                    }
                    return None;
                },
            }
            i = i + 1;
        }
        assert(settings@.subrange(0, i as int) =~= settings@);
        Some((ButtonStatusCollection { statuses }, used))
    }
}

/// Once a prefix of the buttons cannot be read, no longer prefix can.
proof fn lemma_take_statuses_none(s: Seq<u8>, settings: Seq<ButtonParseSettings>, n: int)
    requires
        0 <= n <= settings.len(),
        spec_take_statuses(s, settings.subrange(0, n)) is None,
    ensures
        spec_take_statuses(s, settings.subrange(0, settings.len() as int)) is None,
    decreases settings.len() - n,
{
    if n < settings.len() {
        let next = settings.subrange(0, n + 1);
        assert(next.drop_last() =~= settings.subrange(0, n));
        lemma_take_statuses_none(s, settings, n + 1);
    }
}

/// The bytes of `s` from `start` on.
fn slice_from(s: &[u8], start: usize) -> (r: &[u8])
    requires
        start <= s@.len(),
    ensures
        r@ == s@.subrange(start as int, s@.len() as int),
{
    vstd::slice::slice_subrange(s, start, s.len())
}

/// An action that a button can be set to.
#[derive(Debug, Clone, Copy, PartialEq, Eq)]
pub struct ButtonAction {
    pub id: u8,
    pub name: &'static str,
}

/// Whether and how a button press can be disabled.
#[derive(Debug, Clone, Copy, PartialEq, Eq, Hash, Structural)]
pub enum ButtonDisableMode {
    NotDisablable,
    DisablingOneSideDisablesOther,
    IndividualDisable,
}

/// The settings of one press kind.
#[derive(Debug, Clone)]
pub struct ButtonSettings {
    pub button_id: u8,
    pub press_kind: ButtonPressKind,
    pub parse_settings: ButtonParseSettings,
    pub disable_mode: ButtonDisableMode,
    pub available_actions: Vec<ButtonAction>,
}

/// How a device lays out and handles its buttons.
#[derive(Debug, Clone)]
pub struct ButtonConfigurationSettings {
    pub supports_set_all_packet: bool,
    /// Some devices have an enabled flag in their state update packet, but they do not make use
    /// of the enabled flag for disabling buttons, instead opting to set the action to 0xF.
    pub use_enabled_flag_to_disable: bool,
    /// Parse order in the state update packet.
    pub order: Vec<Button>,
    pub settings: Vec<ButtonSettings>,
}

/// Index of the first entry of `s` from `j` on with press kind `kind`.
pub open spec fn find_press_kind(s: Seq<ButtonSettings>, kind: ButtonPressKind, j: int) -> Option<
    int,
>
    decreases s.len() - j,
{
    if j < 0 || j >= s.len() {
        None
    } else if s[j].press_kind == kind {
        Some(j)
    } else {
        find_press_kind(s, kind, j + 1)
    }
}

/// Index of the first entry of `s` from `j` on that equals `button`.
pub open spec fn find_button(s: Seq<Button>, button: Button, j: int) -> Option<int>
    decreases s.len() - j,
{
    if j < 0 || j >= s.len() {
        None
    } else if s[j] == button {
        Some(j)
    } else {
        find_button(s, button, j + 1)
    }
}

/// Index of the first entry of `s` from `j` on for the press kind of `button` on the other side.
pub open spec fn find_other_side(s: Seq<Button>, button: Button, j: int) -> Option<int>
    decreases s.len() - j,
{
    if j < 0 || j >= s.len() {
        None
    } else if s[j].spec_press_kind() == button.spec_press_kind() && s[j].spec_side()
        != button.spec_side() {
        Some(j)
    } else {
        find_other_side(s, button, j + 1)
    }
}

/// Index of the first action of `s` from `j` on with id `id`.
pub open spec fn find_action_id(s: Seq<ButtonAction>, id: u8, j: int) -> Option<int>
    decreases s.len() - j,
{
    if j < 0 || j >= s.len() {
        None
    } else if s[j].id == id {
        Some(j)
    } else {
        find_action_id(s, id, j + 1)
    }
}

/// Index of the first action of `s` from `j` on named `name`.
pub open spec fn find_action_name(s: Seq<ButtonAction>, name: Seq<char>, j: int) -> Option<int>
    decreases s.len() - j,
{
    if j < 0 || j >= s.len() {
        None
    } else if s[j].name@ == name {
        Some(j)
    } else {
        find_action_name(s, name, j + 1)
    }
}

proof fn lemma_find_press_kind_bounds(s: Seq<ButtonSettings>, kind: ButtonPressKind, j: int)
    ensures
        find_press_kind(s, kind, j) matches Some(i) ==> j <= i < s.len() && s[i].press_kind == kind,
    decreases s.len() - j,
{
    if 0 <= j < s.len() && s[j].press_kind != kind {
        lemma_find_press_kind_bounds(s, kind, j + 1);
    }
}

proof fn lemma_find_button_bounds(s: Seq<Button>, button: Button, j: int)
    ensures
        find_button(s, button, j) matches Some(i) ==> j <= i < s.len() && s[i] == button,
    decreases s.len() - j,
{
    if 0 <= j < s.len() && s[j] != button {
        lemma_find_button_bounds(s, button, j + 1);
    }
}

proof fn lemma_find_other_side_bounds(s: Seq<Button>, button: Button, j: int)
    ensures
        find_other_side(s, button, j) matches Some(i) ==> j <= i < s.len(),
    decreases s.len() - j,
{
    if 0 <= j < s.len() && !(s[j].spec_press_kind() == button.spec_press_kind()
        && s[j].spec_side() != button.spec_side()) {
        lemma_find_other_side_bounds(s, button, j + 1);
    }
}

proof fn lemma_find_action_id_bounds(s: Seq<ButtonAction>, id: u8, j: int)
    ensures
        find_action_id(s, id, j) matches Some(i) ==> j <= i < s.len() && s[i].id == id,
    decreases s.len() - j,
{
    if 0 <= j < s.len() && s[j].id != id {
        lemma_find_action_id_bounds(s, id, j + 1);
    }
}

proof fn lemma_find_action_name_bounds(s: Seq<ButtonAction>, name: Seq<char>, j: int)
    ensures
        find_action_name(s, name, j) matches Some(i) ==> j <= i < s.len() && s[i].name@ == name,
    decreases s.len() - j,
{
    if 0 <= j < s.len() && s[j].name@ != name {
        lemma_find_action_name_bounds(s, name, j + 1);
    }
}

/// Searches `actions` for `id`.
fn position_of_action_id(actions: &Vec<ButtonAction>, id: u8) -> (r: Option<usize>)
    ensures
        match r {
            Some(p) => find_action_id(actions@, id, 0) == Some(p as int),
            None => find_action_id(actions@, id, 0) is None,
        },
{
    let mut i: usize = 0;
    while i < actions.len()
        invariant
            i <= actions@.len(),
            find_action_id(actions@, id, 0) == find_action_id(actions@, id, i as int),
        decreases actions@.len() - i,
    {
        if actions[i].id == id {
            return Some(i);
        }
        i = i + 1;
    }
    None
}

/// Searches `actions` for `name`.
fn position_of_action_name(actions: &Vec<ButtonAction>, name: &str) -> (r: Option<usize>)
    ensures
        match r {
            Some(p) => find_action_name(actions@, name@, 0) == Some(p as int),
            None => find_action_name(actions@, name@, 0) is None,
        },
{
    let mut i: usize = 0;
    while i < actions.len()
        invariant
            i <= actions@.len(),
            find_action_name(actions@, name@, 0) == find_action_name(actions@, name@, i as int),
        decreases actions@.len() - i,
    {
        if str_eq(actions[i].name, name) {
            return Some(i);
        }
        i = i + 1;
    }
    None
}

impl ButtonConfigurationSettings {
    /// Every button of the order has settings for its press kind, and every press kind has at
    /// least one action and the other side of each button is in the order too.
    pub open spec fn is_well_formed(&self) -> bool {
        &&& forall|i: int|
            0 <= i < self.order@.len() ==> find_press_kind(
                self.settings@,
                (#[trigger] self.order@[i]).spec_press_kind(),
                0,
            ) is Some
        &&& forall|i: int|
            0 <= i < self.order@.len() ==> find_other_side(
                self.order@,
                #[trigger] self.order@[i],
                0,
            ) is Some
        &&& forall|i: int|
            0 <= i < self.settings@.len() ==> (#[trigger] self.settings@[i]).available_actions@.len()
                > 0
    }

    /// Every button of the order has settings for its press kind.
    pub open spec fn has_settings_for_order(&self) -> bool {
        forall|i: int|
            0 <= i < self.order@.len() ==> find_press_kind(
                self.settings@,
                (#[trigger] self.order@[i]).spec_press_kind(),
                0,
            ) is Some
    }

    /// Every button of the order has settings for its press kind, with at least one action.
    pub open spec fn has_actions_for_order(&self) -> bool {
        &&& self.has_settings_for_order()
        &&& forall|i: int|
            0 <= i < self.order@.len() ==> self.settings@[self.spec_settings_index(
                #[trigger] self.order@[i],
            )->0].available_actions@.len() > 0
    }

    pub open spec fn spec_settings_index(&self, button: Button) -> Option<int> {
        find_press_kind(self.settings@, button.spec_press_kind(), 0)
    }

    pub open spec fn spec_position(&self, button: Button) -> Option<int> {
        find_button(self.order@, button, 0)
    }

    /// The settings of the press kind of `button`: the first entry with that press kind.
    pub fn button_settings(&self, button: Button) -> (r: Option<&ButtonSettings>)
        ensures
            match self.spec_settings_index(button) {
                Some(i) => r == Some(&self.settings@[i]),
                None => r is None,
            },
    {
        let kind = button.press_kind();
        let mut i: usize = 0;
        while i < self.settings.len()
            invariant
                i <= self.settings@.len(),
                kind == button.spec_press_kind(),
                find_press_kind(self.settings@, kind, 0) == find_press_kind(
                    self.settings@,
                    kind,
                    i as int,
                ),
            decreases self.settings@.len() - i,
        {
            if self.settings[i].press_kind == kind {
                return Some(&self.settings[i]);
            }
            i = i + 1;
        }
        None
    }

    /// Where `button` is in the order.
    pub fn position(&self, button: Button) -> (r: Option<usize>)
        ensures
            match r {
                Some(p) => self.spec_position(button) == Some(p as int),
                None => self.spec_position(button) is None,
            },
    {
        let mut i: usize = 0;
        while i < self.order.len()
            invariant
                i <= self.order@.len(),
                find_button(self.order@, button, 0) == find_button(self.order@, button, i as int),
            decreases self.order@.len() - i,
        {
            if self.order[i] == button {
                return Some(i);
            }
            i = i + 1;
        }
        None
    }

    /// Where the button with the press kind of `button` on the other side is in the order.
    fn other_side_position(&self, button: Button) -> (r: Option<usize>)
        ensures
            match r {
                Some(p) => find_other_side(self.order@, button, 0) == Some(p as int),
                None => find_other_side(self.order@, button, 0) is None,
            },
    {
        let kind = button.press_kind();
        let side = button.side();
        let mut i: usize = 0;
        while i < self.order.len()
            invariant
                i <= self.order@.len(),
                kind == button.spec_press_kind(),
                side == button.spec_side(),
                find_other_side(self.order@, button, 0) == find_other_side(
                    self.order@,
                    button,
                    i as int,
                ),
            decreases self.order@.len() - i,
        {
            let b = self.order[i];
            if b.press_kind() == kind && b.side() != side {
                return Some(i);
            }
            i = i + 1;
        }
        None
    }

    /// The status a button has before the device reports one: enabled, with the first of its
    /// available actions.
    pub open spec fn spec_default_status(settings: ButtonSettings) -> ButtonStatus {
        let id = settings.available_actions@[0].id;
        ButtonStatus {
            enabled: match settings.parse_settings.enabled_flag_kind {
                EnabledFlagKind::Absent => None,
                EnabledFlagKind::Single => Some(EnabledStatus::Single(true)),
                EnabledFlagKind::TwsLowBits => Some(
                    EnabledStatus::Tws { connected: true, disconnected: true },
                ),
            },
            action: match settings.parse_settings.action_kind {
                ActionKind::Single => ActionStatus::Single(id),
                ActionKind::TwsLowBits => ActionStatus::Tws { connected: id, disconnected: id },
            },
        }
    }

    fn default_status(settings: &ButtonSettings) -> (r: ButtonStatus)
        requires
            settings.available_actions@.len() > 0,
        ensures
            r == Self::spec_default_status(*settings),
    {
        let id = settings.available_actions[0].id;
        ButtonStatus {
            enabled: match settings.parse_settings.enabled_flag_kind {
                EnabledFlagKind::Absent => None,
                EnabledFlagKind::Single => Some(EnabledStatus::Single(true)),
                EnabledFlagKind::TwsLowBits => Some(
                    EnabledStatus::Tws { connected: true, disconnected: true },
                ),
            },
            action: match settings.parse_settings.action_kind {
                ActionKind::Single => ActionStatus::Single(id),
                ActionKind::TwsLowBits => ActionStatus::Tws { connected: id, disconnected: id },
            },
        }
    }

    /// The default status of every button of the order.
    pub fn default_status_collection(&self) -> (r: ButtonStatusCollection)
        requires
            self.has_actions_for_order(),
        ensures
            r.statuses@.len() == self.order@.len(),
            forall|i: int|
                0 <= i < self.order@.len() ==> #[trigger] r.statuses@[i]
                    == Self::spec_default_status(
                    self.settings@[self.spec_settings_index(self.order@[i])->0],
                ),
    {
        let mut statuses: Vec<ButtonStatus> = Vec::new();
        let mut i: usize = 0;
        while i < self.order.len()
            invariant
                i <= self.order@.len(),
                statuses@.len() == i,
                self.has_actions_for_order(),
                forall|k: int|
                    0 <= k < i ==> #[trigger] statuses@[k] == Self::spec_default_status(
                        self.settings@[self.spec_settings_index(self.order@[k])->0],
                    ),
            decreases self.order@.len() - i,
        {
            let button = self.order[i];
            proof {
                assert(find_press_kind(self.settings@, self.order@[i as int].spec_press_kind(), 0)
                    is Some);
                lemma_find_press_kind_bounds(self.settings@, button.spec_press_kind(), 0);
            }
            let settings = self.button_settings(button).unwrap();
            statuses.push(Self::default_status(settings));
            i = i + 1;
        }
        ButtonStatusCollection::new(statuses)
    }

    /// How each button of the order is stored.
    pub fn parse_settings(&self) -> (r: Vec<ButtonParseSettings>)
        requires
            self.has_settings_for_order(),
        ensures
            r@.len() == self.order@.len(),
            forall|i: int|
                0 <= i < self.order@.len() ==> #[trigger] r@[i] == self.settings@[self.spec_settings_index(
                    self.order@[i],
                )->0].parse_settings,
    {
        let mut r: Vec<ButtonParseSettings> = Vec::new();
        let mut i: usize = 0;
        while i < self.order.len()
            invariant
                i <= self.order@.len(),
                r@.len() == i,
                self.has_settings_for_order(),
                forall|k: int|
                    0 <= k < i ==> #[trigger] r@[k] == self.settings@[self.spec_settings_index(
                        self.order@[k],
                    )->0].parse_settings,
            decreases self.order@.len() - i,
        {
            let button = self.order[i];
            proof {
                assert(find_press_kind(self.settings@, self.order@[i as int].spec_press_kind(), 0)
                    is Some);
                lemma_find_press_kind_bounds(self.settings@, button.spec_press_kind(), 0);
            }
            let settings = self.button_settings(button).unwrap();
            r.push(settings.parse_settings);
            i = i + 1;
        }
        r
    }
}

/// The options of a button's select: the names of its available actions.
pub open spec fn spec_action_names(actions: Seq<ButtonAction>) -> Seq<Seq<char>> {
    actions.map_values(|a: ButtonAction| a.name@)
}

fn action_names(actions: &Vec<ButtonAction>) -> (r: Vec<String>)
    ensures
        r.deep_view() == spec_action_names(actions@),
{
    let mut r: Vec<String> = Vec::new();
    let mut i: usize = 0;
    while i < actions.len()
        invariant
            i <= actions@.len(),
            r@.len() == i,
            forall|k: int| 0 <= k < i ==> (#[trigger] r@[k])@ == actions@[k].name@,
        decreases actions@.len() - i,
    {
        r.push(owned(actions[i].name));
        i = i + 1;
    }
    assert(r.deep_view() =~= spec_action_names(actions@));
    r
}

/// The optional action named by an optional string value, among `actions`. A name that is no
/// available action's counts as no action.
pub open spec fn spec_action_from_value(actions: Seq<ButtonAction>, value: Value) -> Result<
    Option<ButtonAction>,
    (),
> {
    let by_name = |name: Seq<char>|
        match find_action_name(actions, name, 0) {
            Some(k) => Some(actions[k]),
            None => None,
        };
    match value {
        Value::String(s) => Ok(by_name(s@)),
        Value::OptionalString(Some(s)) => Ok(by_name(s@)),
        Value::OptionalString(None) => Ok(None),
        _ => Err(()),
    }
}

/// Shows each button press of a device as a select of its available actions, and changes them.
pub struct ButtonConfigurationSettingHandler {
    settings: ButtonConfigurationSettings,
}

impl ButtonConfigurationSettingHandler {
    pub closed spec fn spec_configuration(&self) -> ButtonConfigurationSettings {
        self.settings
    }

    pub fn new(settings: ButtonConfigurationSettings) -> (r: Self)
        ensures
            r.spec_configuration() == settings,
    {
        ButtonConfigurationSettingHandler { settings }
    }

    /// The setting ids of the buttons, in the device's order.
    pub fn settings(&self) -> (r: Vec<SettingId>)
        ensures
            r@ == self.spec_configuration().order@.map_values(|b: Button| b.spec_setting_id()),
    {
        let mut r: Vec<SettingId> = Vec::new();
        let mut i: usize = 0;
        while i < self.settings.order.len()
            invariant
                i <= self.settings.order@.len(),
                r@ == self.settings.order@.map_values(|b: Button| b.spec_setting_id()).subrange(
                    0,
                    i as int,
                ),
            decreases self.settings.order@.len() - i,
        {
            r.push(self.settings.order[i].setting_id());
            i = i + 1;
            assert(r@ =~= self.settings.order@.map_values(|b: Button| b.spec_setting_id()).subrange(
                0,
                i as int,
            ));
        }
        assert(r@ =~= self.settings.order@.map_values(|b: Button| b.spec_setting_id()));
        r
    }

    /// What the setting of a button shows: a select of the available actions with the current
    /// one chosen; an optional select if the press can be disabled or its current action is
    /// not an available one.
    pub open spec fn spec_get(
        settings: ButtonConfigurationSettings,
        statuses: Seq<ButtonStatus>,
        tws_status: TwsStatus,
        setting_id: SettingId,
    ) -> Option<SettingView> {
        match Button::spec_from_setting_id(setting_id) {
            None => None,
            Some(button) => match settings.spec_position(button) {
                None => None,
                Some(pos) => {
                    let bs = settings.settings@[settings.spec_settings_index(button)->0];
                    let actions = bs.available_actions@;
                    let options = spec_action_names(actions);
                    let value = match statuses[pos].spec_current_action_id(tws_status) {
                        Some(id) => match find_action_id(actions, id, 0) {
                            Some(k) => Some(actions[k].name@),
                            None => None,
                        },
                        None => None,
                    };
                    if bs.disable_mode == ButtonDisableMode::NotDisablable && value is Some {
                        Some(SettingView::Select { options, value: value->0 })
                    } else {
                        Some(SettingView::OptionalSelect { options, value })
                    }
                },
            },
        }
    }

    pub fn get(&self, statuses: &ButtonStatusCollection, tws_status: &TwsStatus, setting_id: &SettingId) -> (r: Option<Setting>)
        requires
            self.spec_configuration().is_well_formed(),
            statuses.statuses@.len() == self.spec_configuration().order@.len(),
        ensures
            match Self::spec_get(
                self.spec_configuration(),
                statuses.statuses@,
                *tws_status,
                *setting_id,
            ) {
                Some(v) => r matches Some(s) && s@ == v,
                None => r is None,
            },
    {
        let button = Button::from_setting_id(*setting_id)?;
        let position = self.settings.position(button)?;
        proof {
            lemma_find_button_bounds(self.settings.order@, button, 0);
            assert(find_press_kind(
                self.settings.settings@,
                self.settings.order@[position as int].spec_press_kind(),
                0,
            ) is Some);
            lemma_find_press_kind_bounds(self.settings.settings@, button.spec_press_kind(), 0);
        }
        let status = statuses.statuses[position];
        let button_settings = self.settings.button_settings(button).unwrap();
        let options = action_names(&button_settings.available_actions);
        let value: Option<String> = match status.current_action_id(*tws_status) {
            Some(id) => match position_of_action_id(&button_settings.available_actions, id) {
                Some(k) => {
                    proof {
                        lemma_find_action_id_bounds(button_settings.available_actions@, id, 0);
                    }
                    Some(owned(button_settings.available_actions[k].name))
                },
                None => None,
            },
            None => None,
        };
        if button_settings.disable_mode == ButtonDisableMode::NotDisablable && value.is_some() {
            Some(Setting::Select { setting: Select { options }, value: value.unwrap() })
        } else {
            Some(Setting::OptionalSelect { setting: Select { options }, value })
        }
    }

    /// The statuses after choosing `action` (or no action) for `button`. Depending on the
    /// press kind's disable mode, no action is ignored, disables just this press, or disables
    /// the same press kind on the other side as well; choosing an action while the other side
    /// is disabled enables the other side too, keeping its own action if it has one.
    pub open spec fn spec_set(
        settings: ButtonConfigurationSettings,
        statuses: Seq<ButtonStatus>,
        tws_status: TwsStatus,
        button: Button,
        action: Option<ButtonAction>,
    ) -> Seq<ButtonStatus> {
        let pos = settings.spec_position(button)->0;
        let bs = settings.settings@[settings.spec_settings_index(button)->0];
        let status = statuses[pos];
        let id = match action {
            Some(a) => Some(a.id),
            None => None,
        };
        match bs.disable_mode {
            ButtonDisableMode::NotDisablable => match action {
                Some(a) => statuses.update(
                    pos,
                    status.spec_with_current_action_id(tws_status, Some(a.id)),
                ),
                None => statuses,
            },
            ButtonDisableMode::IndividualDisable => statuses.update(
                pos,
                status.spec_with_current_action_id(tws_status, id),
            ),
            ButtonDisableMode::DisablingOneSideDisablesOther => {
                let s1 = statuses.update(pos, status.spec_with_current_action_id(tws_status, id));
                let other = find_other_side(settings.order@, button, 0)->0;
                let other_status = s1[other];
                if !other_status.spec_is_enabled(tws_status) {
                    match action {
                        Some(a) => {
                            let cur = other_status.action.spec_current(tws_status);
                            s1.update(
                                other,
                                other_status.spec_with_current_action_id(
                                    tws_status,
                                    Some(
                                        if cur != NO_ACTION {
                                            cur
                                        } else {
                                            a.id
                                        },
                                    ),
                                ),
                            )
                        },
                        None => s1,
                    }
                } else if action is None {
                    s1.update(other, other_status.spec_with_current_action_id(tws_status, None))
                } else {
                    s1
                }
            },
        }
    }

    /// Changes the action of the setting's button to the one named by `value`.
    pub fn set(
        &self,
        statuses: &mut ButtonStatusCollection,
        tws_status: &TwsStatus,
        setting_id: &SettingId,
        value: Value,
    ) -> (r: Result<(), SettingHandlerError>)
        requires
            self.spec_configuration().is_well_formed(),
            old(statuses).statuses@.len() == self.spec_configuration().order@.len(),
            Button::spec_from_setting_id(*setting_id) is Some,
        ensures
            ({
                let button = Button::spec_from_setting_id(*setting_id)->0;
                let config = self.spec_configuration();
                match config.spec_position(button) {
                    None => r matches Err(SettingHandlerError::MissingData)
                        && final(statuses).statuses@ == old(statuses).statuses@,
                    Some(_) => match spec_action_from_value(
                        config.settings@[config.spec_settings_index(button)->0].available_actions@,
                        value,
                    ) {
                        Err(_) => r is Err && final(statuses).statuses@
                            == old(statuses).statuses@,
                        Ok(action) => r is Ok && final(statuses).statuses@ == Self::spec_set(
                            config,
                            old(statuses).statuses@,
                            *tws_status,
                            button,
                            action,
                        ),
                    },
                }
            }),
    {
        let button = Button::from_setting_id(*setting_id).unwrap();
        let position = match self.settings.position(button) {
            Some(p) => p,
            None => return Err(SettingHandlerError::MissingData),
        };
        proof {
            lemma_find_button_bounds(self.settings.order@, button, 0);
            assert(find_press_kind(
                self.settings.settings@,
                self.settings.order@[position as int].spec_press_kind(),
                0,
            ) is Some);
            lemma_find_press_kind_bounds(self.settings.settings@, button.spec_press_kind(), 0);
        }
        let button_settings = self.settings.button_settings(button).unwrap();
        let maybe_name = value.try_as_optional_str()?;
        let maybe_action: Option<ButtonAction> = match maybe_name {
            Some(name) => match position_of_action_name(&button_settings.available_actions, name) {
                Some(k) => {
                    proof {
                        lemma_find_action_name_bounds(button_settings.available_actions@, name@, 0);
                    }
                    Some(button_settings.available_actions[k])
                },
                None => None,
            },
            None => None,
        };
        let status = statuses.statuses[position];
        let tws = *tws_status;
        match button_settings.disable_mode {
            ButtonDisableMode::NotDisablable => {
                if let Some(action) = maybe_action {
                    statuses.statuses.set(
                        position,
                        status.with_current_action_id(tws, Some(action.id)),
                    );
                }
            },
            ButtonDisableMode::IndividualDisable => {
                let id = match maybe_action {
                    Some(a) => Some(a.id),
                    None => None,
                };
                statuses.statuses.set(position, status.with_current_action_id(tws, id));
            },
            ButtonDisableMode::DisablingOneSideDisablesOther => {
                let id = match maybe_action {
                    Some(a) => Some(a.id),
                    None => None,
                };
                statuses.statuses.set(position, status.with_current_action_id(tws, id));
                proof {
                    assert(find_other_side(
                        self.settings.order@,
                        self.settings.order@[position as int],
                        0,
                    ) is Some);
                    lemma_find_other_side_bounds(self.settings.order@, button, 0);
                }
                let other = self.settings.other_side_position(button).unwrap();
                let other_status = statuses.statuses[other];
                if !other_status.is_enabled(tws) {
                    if let Some(action) = maybe_action {
                        let current_action_id = other_status.action.current(tws);
                        statuses.statuses.set(
                            other,
                            other_status.with_current_action_id(
                                tws,
                                Some(
                                    if current_action_id != NO_ACTION {
                                        current_action_id
                                    } else {
                                        action.id
                                    },
                                ),
                            ),
                        );
                    }
                } else if maybe_action.is_none() {
                    statuses.statuses.set(other, other_status.with_current_action_id(tws, None));
                }
            },
        }
        Ok(())
    }
}

/// Choosing an available action for a button press and reading the setting back shows that
/// action.
pub proof fn lemma_button_setting_set_then_get(
    settings: ButtonConfigurationSettings,
    statuses: Seq<ButtonStatus>,
    tws_status: TwsStatus,
    setting_id: SettingId,
    action: ButtonAction,
)
    requires
        settings.is_well_formed(),
        statuses.len() == settings.order@.len(),
        Button::spec_from_setting_id(setting_id) matches Some(b) && settings.spec_position(b) is Some,
        action.id != NO_ACTION,
        ({
            let b = Button::spec_from_setting_id(setting_id)->0;
            let actions = settings.settings@[settings.spec_settings_index(b)->0].available_actions@;
            find_action_id(actions, action.id, 0) matches Some(k) && actions[k] == action
        }),
    ensures
        ({
            let b = Button::spec_from_setting_id(setting_id)->0;
            let after = ButtonConfigurationSettingHandler::spec_set(
                settings,
                statuses,
                tws_status,
                b,
                Some(action),
            );
            match ButtonConfigurationSettingHandler::spec_get(
                settings,
                after,
                tws_status,
                setting_id,
            ) {
                Some(SettingView::Select { value, .. }) => value == action.name@,
                Some(SettingView::OptionalSelect { value, .. }) => value == Some(action.name@),
                _ => false,
            }
        }),
{
    let b = Button::spec_from_setting_id(setting_id)->0;
    let pos = settings.spec_position(b)->0;
    lemma_find_button_bounds(settings.order@, b, 0);
    assert(find_press_kind(settings.settings@, settings.order@[pos].spec_press_kind(), 0) is Some);
    lemma_find_press_kind_bounds(settings.settings@, b.spec_press_kind(), 0);
    let bs = settings.settings@[settings.spec_settings_index(b)->0];
    let status = statuses[pos];
    lemma_with_current_action_id(status, tws_status, Some(action.id));
    if bs.disable_mode == ButtonDisableMode::DisablingOneSideDisablesOther {
        assert(find_other_side(settings.order@, settings.order@[pos], 0) is Some);
        lemma_find_other_side_bounds(settings.order@, b, 0);
        let other = find_other_side(settings.order@, b, 0)->0;
        lemma_find_other_side_is_other(settings.order@, b, 0);
        assert(other != pos);
    }
}

proof fn lemma_find_other_side_is_other(s: Seq<Button>, button: Button, j: int)
    ensures
        find_other_side(s, button, j) matches Some(i) ==> s[i].spec_side() != button.spec_side(),
    decreases s.len() - j,
{
    if 0 <= j < s.len() && !(s[j].spec_press_kind() == button.spec_press_kind()
        && s[j].spec_side() != button.spec_side()) {
        lemma_find_other_side_is_other(s, button, j + 1);
    }
}

/// What a change of the button configuration consists of.
#[derive(Debug, Clone, Copy, PartialEq, Eq, Structural)]
pub enum ButtonConfigurationChange {
    /// Set all buttons to the target at once; afterwards the state is the target.
    SetAll,
    /// Change one button: send its new action byte and then its new enabled byte, where given;
    /// afterwards the button's status in the state is the target's.
    Single { index: usize, button_id: u8, side: ButtonSide, action: Option<u8>, enabled: Option<u8> },
}

/// Number of positions from `i` on where the two status lists differ.
pub open spec fn count_changes(current: Seq<ButtonStatus>, target: Seq<ButtonStatus>, i: int) -> nat
    decreases target.len() - i,
{
    if i < 0 || i >= target.len() {
        0
    } else {
        (if current[i] != target[i] {
            1nat
        } else {
            0nat
        }) + count_changes(current, target, i + 1)
    }
}

/// The single-button changes from position `i` on.
pub open spec fn single_changes(
    buttons: Seq<(Button, u8, ButtonParseSettings)>,
    current: Seq<ButtonStatus>,
    target: Seq<ButtonStatus>,
    i: int,
) -> Seq<ButtonConfigurationChange>
    decreases target.len() - i,
{
    if i < 0 || i >= target.len() {
        seq![]
    } else {
        let rest = single_changes(buttons, current, target, i + 1);
        let (button, button_id, parse) = buttons[i];
        let cur = current[i];
        let tgt = target[i];
        if cur != tgt {
            seq![
                ButtonConfigurationChange::Single {
                    index: i as usize,
                    button_id,
                    side: button.spec_side(),
                    action: if cur.action != tgt.action {
                        Some(tgt.action.spec_byte(parse.action_kind))
                    } else {
                        None
                    },
                    enabled: match tgt.enabled {
                        Some(e) => if cur.enabled != tgt.enabled {
                            Some(e.spec_byte(parse.enabled_flag_kind))
                        } else {
                            None
                        },
                        None => None,
                    },
                },
            ] + rest
        } else {
            rest
        }
    }
}

/// Moves the device's button configuration to a target: all at once when more than one button
/// changes and the device supports that, else button by button.
pub struct ButtonConfigurationStateModifier<P> {
    packet_io: P,
    supports_set_all_packet: bool,
    buttons: Vec<(Button, u8, ButtonParseSettings)>,
}

impl<P> ButtonConfigurationStateModifier<P> {
    /// Each button of the order, with its button id and how it is stored.
    pub closed spec fn spec_buttons(&self) -> Seq<(Button, u8, ButtonParseSettings)> {
        self.buttons@
    }

    pub closed spec fn spec_supports_set_all_packet(&self) -> bool {
        self.supports_set_all_packet
    }

    pub fn new(packet_io: P, settings: &ButtonConfigurationSettings) -> (r: Self)
        requires
            settings.is_well_formed(),
        ensures
            r.spec_packet_io() == packet_io,
            r.spec_supports_set_all_packet() == settings.supports_set_all_packet,
            r.spec_buttons().len() == settings.order@.len(),
            forall|i: int|
                0 <= i < settings.order@.len() ==> {
                    let bs = settings.settings@[settings.spec_settings_index(
                        settings.order@[i],
                    )->0];
                    #[trigger] r.spec_buttons()[i] == (
                        settings.order@[i],
                        bs.button_id,
                        bs.parse_settings,
                    )
                },
    {
        let mut buttons: Vec<(Button, u8, ButtonParseSettings)> = Vec::new();
        let mut i: usize = 0;
        while i < settings.order.len()
            invariant
                i <= settings.order@.len(),
                settings.is_well_formed(),
                buttons@.len() == i,
                forall|k: int|
                    0 <= k < i ==> {
                        let bs = settings.settings@[settings.spec_settings_index(
                            settings.order@[k],
                        )->0];
                        #[trigger] buttons@[k] == (settings.order@[k], bs.button_id, bs.parse_settings)
                    },
            decreases settings.order@.len() - i,
        {
            let button = settings.order[i];
            proof {
                assert(find_press_kind(
                    settings.settings@,
                    settings.order@[i as int].spec_press_kind(),
                    0,
                ) is Some);
                lemma_find_press_kind_bounds(settings.settings@, button.spec_press_kind(), 0);
            }
            let bs = settings.button_settings(button).unwrap();
            buttons.push((button, bs.button_id, bs.parse_settings));
            i = i + 1;
        }
        ButtonConfigurationStateModifier {
            packet_io,
            supports_set_all_packet: settings.supports_set_all_packet,
            buttons,
        }
    }

    pub closed spec fn spec_packet_io(&self) -> P {
        self.packet_io
    }

    pub fn packet_io(&self) -> (r: &P)
        ensures
            *r == self.spec_packet_io(),
    {
        &self.packet_io
    }

    /// The changes to make, in order.
    pub open spec fn spec_plan(&self, current: Seq<ButtonStatus>, target: Seq<ButtonStatus>) -> Seq<
        ButtonConfigurationChange,
    > {
        let n = count_changes(current, target, 0);
        if n == 0 {
            seq![]
        } else if self.spec_supports_set_all_packet() && n > 1 {
            seq![ButtonConfigurationChange::SetAll]
        } else {
            single_changes(self.spec_buttons(), current, target, 0)
        }
    }

    /// How many buttons the modifier moves: the length that the statuses it plans on have.
    pub fn button_count(&self) -> (r: usize)
        ensures
            r == self.spec_buttons().len(),
    {
        self.buttons.len()
    }

    /// The statuses once the device has acknowledged `change`: all of the target's after a
    /// change of all buttons, else the current ones with the changed button's status taken
    /// from the target.
    pub fn acknowledge(
        &self,
        current: &ButtonStatusCollection,
        target: &ButtonStatusCollection,
        change: &ButtonConfigurationChange,
    ) -> (r: ButtonStatusCollection)
        requires
            current.statuses@.len() == target.statuses@.len(),
            change matches ButtonConfigurationChange::Single { index, .. } ==> index
                < target.statuses@.len(),
        ensures
            r.statuses@ == match *change {
                ButtonConfigurationChange::SetAll => target.statuses@,
                ButtonConfigurationChange::Single { index, .. } => current.statuses@.update(
                    index as int,
                    target.statuses@[index as int],
                ),
            },
    {
        match change {
            ButtonConfigurationChange::SetAll => {
                let mut statuses: Vec<ButtonStatus> = Vec::new();
                let mut i: usize = 0;
                while i < target.statuses.len()
                    invariant
                        i <= target.statuses@.len(),
                        statuses@ == target.statuses@.subrange(0, i as int),
                    decreases target.statuses@.len() - i,
                {
                    statuses.push(target.statuses[i]);
                    i = i + 1;
                    assert(statuses@ =~= target.statuses@.subrange(0, i as int));
                }
                assert(statuses@ =~= target.statuses@);
                ButtonStatusCollection { statuses }
            },
            ButtonConfigurationChange::Single { index, .. } => {
                let mut statuses: Vec<ButtonStatus> = Vec::new();
                let mut i: usize = 0;
                while i < current.statuses.len()
                    invariant
                        i <= current.statuses@.len(),
                        current.statuses@.len() == target.statuses@.len(),
                        *index < current.statuses@.len(),
                        statuses@ == current.statuses@.update(
                            *index as int,
                            target.statuses@[*index as int],
                        ).subrange(0, i as int),
                    decreases current.statuses@.len() - i,
                {
                    if i == *index {
                        statuses.push(target.statuses[i]);
                    } else {
                        statuses.push(current.statuses[i]);
                    }
                    i = i + 1;
                    assert(statuses@ =~= current.statuses@.update(
                        *index as int,
                        target.statuses@[*index as int],
                    ).subrange(0, i as int));
                }
                assert(statuses@ =~= current.statuses@.update(
                    *index as int,
                    target.statuses@[*index as int],
                ));
                ButtonStatusCollection { statuses }
            },
        }
    }

    pub fn plan(&self, current: &ButtonStatusCollection, target: &ButtonStatusCollection) -> (r: Vec<
        ButtonConfigurationChange,
    >)
        requires
            current.statuses@.len() == target.statuses@.len(),
            target.statuses@.len() == self.spec_buttons().len(),
        ensures
            r@ == self.spec_plan(current.statuses@, target.statuses@),
    {
        let n = target.statuses.len();
        let ghost cur = current.statuses@;
        let ghost tgt = target.statuses@;
        let mut changes: usize = 0;
        let mut i: usize = 0;
        while i < n
            invariant
                i <= n,
                n == tgt.len(),
                cur.len() == tgt.len(),
                cur == current.statuses@,
                tgt == target.statuses@,
                changes + count_changes(cur, tgt, i as int) == count_changes(cur, tgt, 0),
                changes <= i,
            decreases n - i,
        {
            if current.statuses[i] != target.statuses[i] {
                changes = changes + 1;
            }
            i = i + 1;
        }
        if changes == 0 {
            return Vec::new();
        }
        if self.supports_set_all_packet && changes > 1 {
            let mut r: Vec<ButtonConfigurationChange> = Vec::new();
            r.push(ButtonConfigurationChange::SetAll);
            assert(r@ =~= self.spec_plan(cur, tgt));
            return r;
        }
        let mut r: Vec<ButtonConfigurationChange> = Vec::new();
        let mut i: usize = 0;
        while i < n
            invariant
                i <= n,
                n == tgt.len(),
                cur.len() == tgt.len(),
                cur == current.statuses@,
                tgt == target.statuses@,
                n == self.spec_buttons().len(),
                self.buttons@ == self.spec_buttons(),
                r@ + single_changes(self.spec_buttons(), cur, tgt, i as int) == single_changes(
                    self.spec_buttons(),
                    cur,
                    tgt,
                    0,
                ),
            decreases n - i,
        {
            let c = current.statuses[i];
            let t = target.statuses[i];
            if c != t {
                let (button, button_id, parse) = self.buttons[i];
                let action = if c.action != t.action {
                    Some(t.action.byte(parse.action_kind))
                } else {
                    None
                };
                let enabled = match t.enabled {
                    Some(e) => if c.enabled != t.enabled {
                        Some(e.byte(parse.enabled_flag_kind))
                    } else {
                        None
                    },
                    None => None,
                };
                r.push(
                    ButtonConfigurationChange::Single {
                        index: i,
                        button_id,
                        side: button.side(),
                        action,
                        enabled,
                    },
                );
            }
            i = i + 1;
            assert(r@ + single_changes(self.spec_buttons(), cur, tgt, i as int) =~= single_changes(
                self.spec_buttons(),
                cur,
                tgt,
                0,
            ));
        }
        assert(r@ =~= single_changes(self.spec_buttons(), cur, tgt, 0));
        r
    }
}

/// Each action's id and name, in order.
pub open spec fn spec_action_entries(actions: Seq<ButtonAction>) -> Seq<(u8, Seq<char>)> {
    actions.map_values(|a: ButtonAction| (a.id, a.name@))
}

/// Volume up and down, previous and next song, and play/pause: the actions that the official
/// app offers for single presses.
pub fn common_actions_minimal() -> (r: Vec<ButtonAction>)
    ensures
        spec_action_entries(r@) == seq![
            (0u8, "VolumeUp"@),
            (1u8, "VolumeDown"@),
            (2u8, "PreviousSong"@),
            (3u8, "NextSong"@),
            (6u8, "PlayPause"@),
        ],
{
    let r = vec![
        ButtonAction { id: 0, name: "VolumeUp" },
        ButtonAction { id: 1, name: "VolumeDown" },
        ButtonAction { id: 2, name: "PreviousSong" },
        ButtonAction { id: 3, name: "NextSong" },
        ButtonAction { id: 6, name: "PlayPause" },
    ];
    assert(spec_action_entries(r@) =~= seq![
        (0u8, "VolumeUp"@),
        (1u8, "VolumeDown"@),
        (2u8, "PreviousSong"@),
        (3u8, "NextSong"@),
        (6u8, "PlayPause"@),
    ]);
    r
}

/// The ids and names of the common actions and game mode.
pub open spec fn spec_common_actions_with_game_mode() -> Seq<(u8, Seq<char>)> {
    seq![
        (0u8, "VolumeUp"@),
        (1u8, "VolumeDown"@),
        (2u8, "PreviousSong"@),
        (3u8, "NextSong"@),
        (4u8, "AmbientSoundMode"@),
        (5u8, "VoiceAssistant"@),
        (6u8, "PlayPause"@),
        (9u8, "GameMode"@),
    ]
}

/// The ids and names of every common action but game mode.
pub open spec fn spec_common_actions() -> Seq<(u8, Seq<char>)> {
    spec_common_actions_with_game_mode().take(7)
}

/// The common actions and game mode.
pub fn common_actions_with_game_mode() -> (r: Vec<ButtonAction>)
    ensures
        spec_action_entries(r@) == spec_common_actions_with_game_mode(),
{
    let r = vec![
        ButtonAction { id: 0, name: "VolumeUp" },
        ButtonAction { id: 1, name: "VolumeDown" },
        ButtonAction { id: 2, name: "PreviousSong" },
        ButtonAction { id: 3, name: "NextSong" },
        ButtonAction { id: 4, name: "AmbientSoundMode" },
        ButtonAction { id: 5, name: "VoiceAssistant" },
        ButtonAction { id: 6, name: "PlayPause" },
        ButtonAction { id: 9, name: "GameMode" },
    ];
    assert(spec_action_entries(r@) =~= spec_common_actions_with_game_mode());
    r
}

/// Every common action but game mode.
pub fn common_actions() -> (r: Vec<ButtonAction>)
    ensures
        spec_action_entries(r@) == spec_common_actions(),
{
    let mut r = common_actions_with_game_mode();
    let ghost all = r@;
    r.truncate(7);
    assert(spec_action_entries(r@) =~= spec_action_entries(all).take(7));
    r
}

/// The common actions without the ambient sound mode switch.
pub fn common_actions_without_sound_modes() -> (r: Vec<ButtonAction>)
    ensures
        spec_action_entries(r@) == seq![
            (0u8, "VolumeUp"@),
            (1u8, "VolumeDown"@),
            (2u8, "PreviousSong"@),
            (3u8, "NextSong"@),
            (5u8, "VoiceAssistant"@),
            (6u8, "PlayPause"@),
        ],
{
    let r = vec![
        ButtonAction { id: 0, name: "VolumeUp" },
        ButtonAction { id: 1, name: "VolumeDown" },
        ButtonAction { id: 2, name: "PreviousSong" },
        ButtonAction { id: 3, name: "NextSong" },
        ButtonAction { id: 5, name: "VoiceAssistant" },
        ButtonAction { id: 6, name: "PlayPause" },
    ];
    assert(spec_action_entries(r@) =~= seq![
        (0u8, "VolumeUp"@),
        (1u8, "VolumeDown"@),
        (2u8, "PreviousSong"@),
        (3u8, "NextSong"@),
        (5u8, "VoiceAssistant"@),
        (6u8, "PlayPause"@),
    ]);
    r
}

/// A settings entry as plain values: button id, press kind, how it is stored, how it is
/// disabled, and the ids and names of its actions.
pub open spec fn spec_settings_entry(s: ButtonSettings) -> (
    u8,
    ButtonPressKind,
    ButtonParseSettings,
    ButtonDisableMode,
    Seq<(u8, Seq<char>)>,
) {
    (s.button_id, s.press_kind, s.parse_settings, s.disable_mode, spec_action_entries(s.available_actions@))
}

/// The settings table of the common button layout.
pub open spec fn spec_common_settings_entries() -> Seq<
    (u8, ButtonPressKind, ButtonParseSettings, ButtonDisableMode, Seq<(u8, Seq<char>)>),
> {
    seq![
        (
            0u8,
            ButtonPressKind::Double,
            ButtonParseSettings {
                enabled_flag_kind: EnabledFlagKind::Single,
                action_kind: ActionKind::TwsLowBits,
            },
            ButtonDisableMode::NotDisablable,
            spec_common_actions(),
        ),
        (
            1u8,
            ButtonPressKind::Long,
            ButtonParseSettings {
                enabled_flag_kind: EnabledFlagKind::Single,
                action_kind: ActionKind::TwsLowBits,
            },
            ButtonDisableMode::NotDisablable,
            spec_common_actions(),
        ),
        (
            2u8,
            ButtonPressKind::Single,
            ButtonParseSettings {
                enabled_flag_kind: EnabledFlagKind::Single,
                action_kind: ActionKind::Single,
            },
            ButtonDisableMode::DisablingOneSideDisablesOther,
            spec_common_actions(),
        ),
    ]
}

/// The button layout of most devices: double and long presses of each earbud, then single
/// presses; settable all at once; disabled through the enabled flag.
pub fn common_settings() -> (r: ButtonConfigurationSettings)
    ensures
        r.is_well_formed(),
        r.supports_set_all_packet,
        r.use_enabled_flag_to_disable,
        r.order@ == seq![
            Button::LeftDoublePress,
            Button::LeftLongPress,
            Button::RightDoublePress,
            Button::RightLongPress,
            Button::LeftSinglePress,
            Button::RightSinglePress,
        ],
        r.settings@.map_values(|s: ButtonSettings| spec_settings_entry(s))
            == spec_common_settings_entries(),
{
    let settings = vec![
        ButtonSettings {
            parse_settings: ButtonParseSettings {
                enabled_flag_kind: EnabledFlagKind::Single,
                action_kind: ActionKind::TwsLowBits,
            },
            button_id: 0,
            press_kind: ButtonPressKind::Double,
            available_actions: common_actions(),
            disable_mode: ButtonDisableMode::NotDisablable,
        },
        ButtonSettings {
            parse_settings: ButtonParseSettings {
                enabled_flag_kind: EnabledFlagKind::Single,
                action_kind: ActionKind::TwsLowBits,
            },
            button_id: 1,
            press_kind: ButtonPressKind::Long,
            available_actions: common_actions(),
            disable_mode: ButtonDisableMode::NotDisablable,
        },
        ButtonSettings {
            parse_settings: ButtonParseSettings {
                enabled_flag_kind: EnabledFlagKind::Single,
                action_kind: ActionKind::Single,
            },
            button_id: 2,
            press_kind: ButtonPressKind::Single,
            available_actions: common_actions(),
            disable_mode: ButtonDisableMode::DisablingOneSideDisablesOther,
        },
    ];
    let order = vec![
        Button::LeftDoublePress,
        Button::LeftLongPress,
        Button::RightDoublePress,
        Button::RightLongPress,
        Button::LeftSinglePress,
        Button::RightSinglePress,
    ];
    let r = ButtonConfigurationSettings {
        supports_set_all_packet: true,
        use_enabled_flag_to_disable: true,
        order,
        settings,
    };
    proof {
        reveal_with_fuel(find_press_kind, 4);
        reveal_with_fuel(find_other_side, 7);
        assert(spec_common_actions().len() == 7);
        assert forall|i: int| 0 <= i < r.order@.len() implies find_press_kind(
            r.settings@,
            (#[trigger] r.order@[i]).spec_press_kind(),
            0,
        ) is Some && find_other_side(r.order@, r.order@[i], 0) is Some by {
            assert(0 <= i < 6);
        }
        assert forall|i: int| 0 <= i < r.settings@.len() implies (
        #[trigger] r.settings@[i]).available_actions@.len() > 0 by {
            assert(spec_action_entries(r.settings@[i].available_actions@).len() == 7);
        }
    }
    assert(r.order@ =~= seq![
        Button::LeftDoublePress,
        Button::LeftLongPress,
        Button::RightDoublePress,
        Button::RightLongPress,
        Button::LeftSinglePress,
        Button::RightSinglePress,
    ]);
    assert(r.settings@.map_values(|s: ButtonSettings| spec_settings_entry(s))
        =~= spec_common_settings_entries());
    r
}

} // verus!
