//! Soundcore A3959: sound modes, their wire format and the plan that changes them safely.

use vstd::prelude::*;

use crate::structures::{
    ButtonAction, TwsStatus, AdaptiveNoiseCanceling, AmbientSoundMode, ManualNoiseCanceling, TransparencyMode, WindNoise,
    manual_adaptive_noise_canceling_byte, spec_manual_adaptive_byte, spec_take_manual_adaptive,
    take_manual_adaptive_noise_canceling,
};
use crate::structures::NoiseCancelingMode as SceneMode;
use crate::packet::{Command, Direction, Packet, PacketParseError, spec_packet_bytes};
use crate::settings::{Setting, SettingHandlerError, SettingId, SettingView, Value};
use crate::dual_connections::{DualConnections, DualConnectionsDevice};
use crate::equalizer::EqualizerConfiguration;
use crate::reset_buttons::ResetButtonConfigurationPending;
use crate::structures::{
    AmbientSoundModeCycle, AutoPowerOff, DualBattery, DualFirmwareVersion, GamingMode, SerialNumber,
};

verus! {

/// Which flavour of noise canceling the A3959 applies.
#[derive(Debug, Clone, Copy, PartialEq, Eq, Hash, Structural)]
pub enum NoiseCancelingMode {
    Manual,
    Adaptive,
    MultiScene,
}

impl NoiseCancelingMode {
    pub open spec fn spec_byte(self) -> u8 {
        match self {
            NoiseCancelingMode::Manual => 0,
            NoiseCancelingMode::Adaptive => 1,
            NoiseCancelingMode::MultiScene => 2,
        }
    }

    pub open spec fn spec_from_byte(byte: u8) -> Self {
        if byte == 1 {
            NoiseCancelingMode::Adaptive
        } else if byte == 2 {
            NoiseCancelingMode::MultiScene
        } else {
            NoiseCancelingMode::Manual
        }
    }

    pub fn byte(&self) -> (r: u8)
        ensures
            r == self.spec_byte(),
    {
        match self {
            NoiseCancelingMode::Manual => 0,
            NoiseCancelingMode::Adaptive => 1,
            NoiseCancelingMode::MultiScene => 2,
        }
    }

    pub fn take(byte: u8) -> (r: Self)
        ensures
            r == Self::spec_from_byte(byte),
    {
        if byte == 1 {
            NoiseCancelingMode::Adaptive
        } else if byte == 2 {
            NoiseCancelingMode::MultiScene
        } else {
            NoiseCancelingMode::Manual
        }
    }
}

/// Everything about the A3959's sound modes.
#[derive(Debug, Clone, Copy, PartialEq, Eq, Hash, Structural)]
pub struct SoundModes {
    pub ambient_sound_mode: AmbientSoundMode,
    pub manual_noise_canceling: ManualNoiseCanceling,
    pub adaptive_noise_canceling: AdaptiveNoiseCanceling,
    pub transparency_mode: TransparencyMode,
    pub noise_canceling_mode: NoiseCancelingMode,
    pub wind_noise: WindNoise,
    pub noise_canceling_adaptive_sensitivity_level: u8,
    pub multi_scene_anc: SceneMode,
}

/// Length of the sound modes block on the wire.
pub const SOUND_MODES_LEN: usize = 7;

impl SoundModes {
    /// Levels and flags that the wire format carries without loss.
    pub open spec fn fits_wire(self) -> bool {
        &&& self.manual_noise_canceling.level < 16
        &&& self.adaptive_noise_canceling.level < 16
    }

    /// The seven bytes of the block: ambient sound mode, manual and adaptive levels, the
    /// ambient sound mode again, noise canceling mode, wind noise, adaptive sensitivity and
    /// scene. The transparency mode is not among them.
    pub open spec fn spec_bytes(self) -> Seq<u8> {
        seq![
            self.ambient_sound_mode.spec_id(),
            spec_manual_adaptive_byte(
                self.manual_noise_canceling.level,
                self.adaptive_noise_canceling.level,
            ),
            self.ambient_sound_mode.spec_id(),
            self.noise_canceling_mode.spec_byte(),
            self.wind_noise.spec_byte(),
            self.noise_canceling_adaptive_sensitivity_level,
            self.multi_scene_anc.spec_id(),
        ]
    }

    /// Reads the block from the first seven bytes of `s`; the third byte, which repeats the
    /// ambient sound mode, is not read, and the transparency mode reads as fully transparent.
    pub open spec fn spec_take(s: Seq<u8>) -> Option<SoundModes> {
        if s.len() < 7 {
            None
        } else {
            Some(
                SoundModes {
                    ambient_sound_mode: AmbientSoundMode::spec_from_id(s[0]),
                    manual_noise_canceling: spec_take_manual_adaptive(s[1]).0,
                    adaptive_noise_canceling: spec_take_manual_adaptive(s[1]).1,
                    transparency_mode: TransparencyMode::FullyTransparent,
                    noise_canceling_mode: NoiseCancelingMode::spec_from_byte(s[3]),
                    wind_noise: WindNoise::spec_from_byte(s[4]),
                    noise_canceling_adaptive_sensitivity_level: s[5],
                    multi_scene_anc: SceneMode::spec_from_id(s[6]),
                },
            )
        }
    }

    pub fn bytes(&self) -> (r: [u8; 7])
        ensures
            r@ == self.spec_bytes(),
    {
        let r = [
            self.ambient_sound_mode.id(),
            manual_adaptive_noise_canceling_byte(
                self.manual_noise_canceling,
                self.adaptive_noise_canceling,
            ),
            self.ambient_sound_mode.id(),
            self.noise_canceling_mode.byte(),
            self.wind_noise.byte(),
            self.noise_canceling_adaptive_sensitivity_level,
            self.multi_scene_anc.id(),
        ];
        assert(r@ =~= self.spec_bytes());
        r
    }

    /// Parses the block from the start of `input`; the bytes after it are left alone.
    pub fn take(input: &[u8]) -> (r: Option<SoundModes>)
        ensures
            r == Self::spec_take(input@),
    {
        if input.len() < 7 {
            return None;
        }
        let (manual, adaptive) = take_manual_adaptive_noise_canceling(input[1]);
        Some(
            SoundModes {
                ambient_sound_mode: AmbientSoundMode::from_id(input[0]),
                manual_noise_canceling: manual,
                adaptive_noise_canceling: adaptive,
                transparency_mode: TransparencyMode::FullyTransparent,
                noise_canceling_mode: NoiseCancelingMode::take(input[3]),
                wind_noise: WindNoise::take(input[4]),
                noise_canceling_adaptive_sensitivity_level: input[5],
                multi_scene_anc: SceneMode::from_id(input[6]),
            },
        )
    }
}

/// Reading back the bytes of a block gives the block again, but for the transparency mode,
/// which the block does not carry and which reads as fully transparent.
pub proof fn lemma_sound_modes_roundtrip(modes: SoundModes)
    requires
        modes.fits_wire(),
    ensures
        SoundModes::spec_take(modes.spec_bytes()) == Some(
            SoundModes { transparency_mode: TransparencyMode::FullyTransparent, ..modes },
        ),
{
    crate::structures::lemma_manual_adaptive_roundtrip(
        modes.manual_noise_canceling.level,
        modes.adaptive_noise_canceling.level,
    );
    modes.wind_noise.lemma_byte_roundtrip();
    modes.ambient_sound_mode.lemma_id_roundtrip();
}

// ---------------------------------------------------------------------------------------------
// Change plan
// ---------------------------------------------------------------------------------------------

/// A single step the device accepts: a setting that belongs to a sub-mode may only change
/// while that sub-mode is active before and after the step.
pub open spec fn is_valid_transition(from: SoundModes, to: SoundModes) -> bool {
    let nc = AmbientSoundMode::NoiseCanceling;
    let stays_nc = from.ambient_sound_mode == nc && to.ambient_sound_mode == nc;
    &&& (from.transparency_mode != to.transparency_mode || from.wind_noise != to.wind_noise)
        ==> from.ambient_sound_mode == AmbientSoundMode::Transparency
        && to.ambient_sound_mode == AmbientSoundMode::Transparency
    &&& from.noise_canceling_mode != to.noise_canceling_mode ==> stays_nc
    &&& (from.adaptive_noise_canceling != to.adaptive_noise_canceling
        || from.noise_canceling_adaptive_sensitivity_level
        != to.noise_canceling_adaptive_sensitivity_level) ==> stays_nc
        && from.noise_canceling_mode == NoiseCancelingMode::Adaptive
        && to.noise_canceling_mode == NoiseCancelingMode::Adaptive
    &&& from.manual_noise_canceling != to.manual_noise_canceling ==> stays_nc
        && from.noise_canceling_mode == NoiseCancelingMode::Manual
        && to.noise_canceling_mode == NoiseCancelingMode::Manual
    &&& from.multi_scene_anc != to.multi_scene_anc ==> stays_nc
        && from.noise_canceling_mode == NoiseCancelingMode::MultiScene
        && to.noise_canceling_mode == NoiseCancelingMode::MultiScene
}

/// Every step of `plan`, starting from `from`, is a valid transition.
pub open spec fn is_valid_plan(from: SoundModes, plan: Seq<SoundModes>) -> bool {
    &&& plan.len() > 0 ==> is_valid_transition(from, plan[0])
    &&& forall|i: int|
        0 <= i < plan.len() - 1 ==> #[trigger] is_valid_transition(plan[i], plan[i + 1])
}

/// Steps that switch to `mode` if not already there.
pub open spec fn steps_to_ambient(cur: SoundModes, mode: AmbientSoundMode) -> Seq<SoundModes> {
    if cur.ambient_sound_mode != mode {
        seq![SoundModes { ambient_sound_mode: mode, ..cur }]
    } else {
        seq![]
    }
}

pub open spec fn with_ambient(cur: SoundModes, mode: AmbientSoundMode) -> SoundModes {
    SoundModes { ambient_sound_mode: mode, ..cur }
}

/// Steps that enter noise canceling and then the noise canceling sub-mode `mode`.
pub open spec fn steps_to_nc_mode(cur: SoundModes, mode: NoiseCancelingMode) -> Seq<SoundModes> {
    let nc = with_ambient(cur, AmbientSoundMode::NoiseCanceling);
    steps_to_ambient(cur, AmbientSoundMode::NoiseCanceling) + if nc.noise_canceling_mode
        != mode {
        seq![SoundModes { noise_canceling_mode: mode, ..nc }]
    } else {
        seq![]
    }
}

pub open spec fn with_nc_mode(cur: SoundModes, mode: NoiseCancelingMode) -> SoundModes {
    SoundModes {
        noise_canceling_mode: mode,
        ..with_ambient(cur, AmbientSoundMode::NoiseCanceling)
    }
}

/// Stage 1: adaptive level and sensitivity, set from within adaptive noise canceling.
pub open spec fn adaptive_stage(cur: SoundModes, to: SoundModes) -> (Seq<SoundModes>, SoundModes) {
    if cur.adaptive_noise_canceling != to.adaptive_noise_canceling
        || cur.noise_canceling_adaptive_sensitivity_level
        != to.noise_canceling_adaptive_sensitivity_level {
        let c = SoundModes {
            adaptive_noise_canceling: to.adaptive_noise_canceling,
            noise_canceling_adaptive_sensitivity_level: to.noise_canceling_adaptive_sensitivity_level,
            ..with_nc_mode(cur, NoiseCancelingMode::Adaptive)
        };
        (steps_to_nc_mode(cur, NoiseCancelingMode::Adaptive).push(c), c)
    } else {
        (seq![], cur)
    }
}

/// Stage 2: manual level, set from within manual noise canceling.
pub open spec fn manual_stage(cur: SoundModes, to: SoundModes) -> (Seq<SoundModes>, SoundModes) {
    if cur.manual_noise_canceling != to.manual_noise_canceling {
        let c = SoundModes {
            manual_noise_canceling: to.manual_noise_canceling,
            ..with_nc_mode(cur, NoiseCancelingMode::Manual)
        };
        (steps_to_nc_mode(cur, NoiseCancelingMode::Manual).push(c), c)
    } else {
        (seq![], cur)
    }
}

/// Stage 3: multi-scene environment, set from within multi-scene noise canceling.
pub open spec fn scene_stage(cur: SoundModes, to: SoundModes) -> (Seq<SoundModes>, SoundModes) {
    if cur.multi_scene_anc != to.multi_scene_anc {
        let c = SoundModes {
            multi_scene_anc: to.multi_scene_anc,
            ..with_nc_mode(cur, NoiseCancelingMode::MultiScene)
        };
        (steps_to_nc_mode(cur, NoiseCancelingMode::MultiScene).push(c), c)
    } else {
        (seq![], cur)
    }
}

/// Stage 4: the noise canceling sub-mode itself, set from within noise canceling.
pub open spec fn nc_mode_stage(cur: SoundModes, to: SoundModes) -> (Seq<SoundModes>, SoundModes) {
    if cur.noise_canceling_mode != to.noise_canceling_mode {
        let c = SoundModes {
            noise_canceling_mode: to.noise_canceling_mode,
            ..with_ambient(cur, AmbientSoundMode::NoiseCanceling)
        };
        (steps_to_ambient(cur, AmbientSoundMode::NoiseCanceling).push(c), c)
    } else {
        (seq![], cur)
    }
}

/// Stage 5: transparency flavour and wind noise, set from within transparency.
pub open spec fn transparency_stage(cur: SoundModes, to: SoundModes) -> (
    Seq<SoundModes>,
    SoundModes,
) {
    if cur.transparency_mode != to.transparency_mode || cur.wind_noise != to.wind_noise {
        let c = SoundModes {
            transparency_mode: to.transparency_mode,
            wind_noise: to.wind_noise,
            ..with_ambient(cur, AmbientSoundMode::Transparency)
        };
        (steps_to_ambient(cur, AmbientSoundMode::Transparency).push(c), c)
    } else {
        (seq![], cur)
    }
}

/// Stage 6: the ambient sound mode itself.
pub open spec fn ambient_stage(cur: SoundModes, to: SoundModes) -> (Seq<SoundModes>, SoundModes) {
    if cur.ambient_sound_mode != to.ambient_sound_mode {
        let c = with_ambient(cur, to.ambient_sound_mode);
        (seq![c], c)
    } else {
        (seq![], cur)
    }
}

/// The plan: the six stages in order, from the setting with the most prerequisites to the one
/// with the fewest, so that later stages never undo earlier ones.
pub open spec fn spec_change_plan(from: SoundModes, to: SoundModes) -> Seq<SoundModes> {
    let (s1, c1) = adaptive_stage(from, to);
    let (s2, c2) = manual_stage(c1, to);
    let (s3, c3) = scene_stage(c2, to);
    let (s4, c4) = nc_mode_stage(c3, to);
    let (s5, c5) = transparency_stage(c4, to);
    let (s6, c6) = ambient_stage(c5, to);
    s1 + s2 + s3 + s4 + s5 + s6
}

/// Pushes the steps that reach ambient mode `mode`, updating `current` along the way.
fn push_ambient(sequence: &mut Vec<SoundModes>, current: &mut SoundModes, mode: AmbientSoundMode)
    ensures
        final(sequence)@ == old(sequence)@ + steps_to_ambient(*old(current), mode),
        *final(current) == with_ambient(*old(current), mode),
{
    if current.ambient_sound_mode != mode {
        current.ambient_sound_mode = mode;
        sequence.push(*current);
    }
    assert(final(sequence)@ =~= old(sequence)@ + steps_to_ambient(*old(current), mode));
}

/// Pushes the steps that reach noise canceling sub-mode `mode`.
fn push_nc_mode(sequence: &mut Vec<SoundModes>, current: &mut SoundModes, mode: NoiseCancelingMode)
    ensures
        final(sequence)@ == old(sequence)@ + steps_to_nc_mode(*old(current), mode),
        *final(current) == with_nc_mode(*old(current), mode),
{
    let ghost start = sequence@;
    let ghost cur0 = *current;
    push_ambient(sequence, current, AmbientSoundMode::NoiseCanceling);
    let ghost mid = sequence@;
    if current.noise_canceling_mode != mode {
        current.noise_canceling_mode = mode;
        sequence.push(*current);
    }
    assert(sequence@ =~= start + steps_to_nc_mode(cur0, mode));
}

/// Runs one stage: appends its steps to `sequence` and moves `current` to its end state.
fn run_adaptive_stage(sequence: &mut Vec<SoundModes>, current: &mut SoundModes, to: SoundModes)
    ensures
        final(sequence)@ == old(sequence)@ + adaptive_stage(*old(current), to).0,
        *final(current) == adaptive_stage(*old(current), to).1,
{
    let ghost start = sequence@;
    if current.adaptive_noise_canceling != to.adaptive_noise_canceling
        || current.noise_canceling_adaptive_sensitivity_level
        != to.noise_canceling_adaptive_sensitivity_level {
        push_nc_mode(sequence, current, NoiseCancelingMode::Adaptive);
        current.adaptive_noise_canceling = to.adaptive_noise_canceling;
        current.noise_canceling_adaptive_sensitivity_level =
            to.noise_canceling_adaptive_sensitivity_level;
        sequence.push(*current);
    }
    assert(sequence@ =~= start + adaptive_stage(*old(current), to).0);
}

fn run_manual_stage(sequence: &mut Vec<SoundModes>, current: &mut SoundModes, to: SoundModes)
    ensures
        final(sequence)@ == old(sequence)@ + manual_stage(*old(current), to).0,
        *final(current) == manual_stage(*old(current), to).1,
{
    let ghost start = sequence@;
    if current.manual_noise_canceling != to.manual_noise_canceling {
        push_nc_mode(sequence, current, NoiseCancelingMode::Manual);
        current.manual_noise_canceling = to.manual_noise_canceling;
        sequence.push(*current);
    }
    assert(sequence@ =~= start + manual_stage(*old(current), to).0);
}

fn run_scene_stage(sequence: &mut Vec<SoundModes>, current: &mut SoundModes, to: SoundModes)
    ensures
        final(sequence)@ == old(sequence)@ + scene_stage(*old(current), to).0,
        *final(current) == scene_stage(*old(current), to).1,
{
    let ghost start = sequence@;
    if current.multi_scene_anc != to.multi_scene_anc {
        push_nc_mode(sequence, current, NoiseCancelingMode::MultiScene);
        current.multi_scene_anc = to.multi_scene_anc;
        sequence.push(*current);
    }
    assert(sequence@ =~= start + scene_stage(*old(current), to).0);
}

fn run_nc_mode_stage(sequence: &mut Vec<SoundModes>, current: &mut SoundModes, to: SoundModes)
    ensures
        final(sequence)@ == old(sequence)@ + nc_mode_stage(*old(current), to).0,
        *final(current) == nc_mode_stage(*old(current), to).1,
{
    let ghost start = sequence@;
    if current.noise_canceling_mode != to.noise_canceling_mode {
        push_ambient(sequence, current, AmbientSoundMode::NoiseCanceling);
        current.noise_canceling_mode = to.noise_canceling_mode;
        sequence.push(*current);
    }
    assert(sequence@ =~= start + nc_mode_stage(*old(current), to).0);
}

fn run_transparency_stage(
    sequence: &mut Vec<SoundModes>,
    current: &mut SoundModes,
    to: SoundModes,
)
    ensures
        final(sequence)@ == old(sequence)@ + transparency_stage(*old(current), to).0,
        *final(current) == transparency_stage(*old(current), to).1,
{
    let ghost start = sequence@;
    if current.transparency_mode != to.transparency_mode || current.wind_noise != to.wind_noise {
        push_ambient(sequence, current, AmbientSoundMode::Transparency);
        current.transparency_mode = to.transparency_mode;
        current.wind_noise = to.wind_noise;
        sequence.push(*current);
    }
    assert(sequence@ =~= start + transparency_stage(*old(current), to).0);
}

fn run_ambient_stage(sequence: &mut Vec<SoundModes>, current: &mut SoundModes, to: SoundModes)
    ensures
        final(sequence)@ == old(sequence)@ + ambient_stage(*old(current), to).0,
        *final(current) == ambient_stage(*old(current), to).1,
{
    let ghost start = sequence@;
    if current.ambient_sound_mode != to.ambient_sound_mode {
        current.ambient_sound_mode = to.ambient_sound_mode;
        sequence.push(*current);
    }
    assert(sequence@ =~= start + ambient_stage(*old(current), to).0);
}

/// Creates a plan to get from `from` to `to` without invalid transitions: for example the
/// manual noise canceling level can't change while in normal mode.
pub fn create_change_plan(from: SoundModes, to: SoundModes) -> (plan: Vec<SoundModes>)
    ensures
        plan@ == spec_change_plan(from, to),
{
    let mut sequence: Vec<SoundModes> = Vec::new();
    let mut current = from;
    run_adaptive_stage(&mut sequence, &mut current, to);
    run_manual_stage(&mut sequence, &mut current, to);
    run_scene_stage(&mut sequence, &mut current, to);
    run_nc_mode_stage(&mut sequence, &mut current, to);
    run_transparency_stage(&mut sequence, &mut current, to);
    run_ambient_stage(&mut sequence, &mut current, to);
    assert(sequence@ =~= spec_change_plan(from, to));
    sequence
}

/// `steps` taken from `start` finish in `end` (an empty plan finishes where it starts).
pub open spec fn ends_at(start: SoundModes, steps: Seq<SoundModes>, end: SoundModes) -> bool {
    if steps.len() == 0 {
        start == end
    } else {
        steps.last() == end
    }
}

proof fn lemma_valid_concat(
    a: SoundModes,
    s1: Seq<SoundModes>,
    b: SoundModes,
    s2: Seq<SoundModes>,
    c: SoundModes,
)
    requires
        is_valid_plan(a, s1),
        ends_at(a, s1, b),
        is_valid_plan(b, s2),
        ends_at(b, s2, c),
    ensures
        is_valid_plan(a, s1 + s2),
        ends_at(a, s1 + s2, c),
{
    let s = s1 + s2;
    assert forall|i: int| 0 <= i < s.len() - 1 implies #[trigger] is_valid_transition(
        s[i],
        s[i + 1],
    ) by {
        if i + 1 < s1.len() {
            assert(s[i] == s1[i] && s[i + 1] == s1[i + 1]);
        } else if i + 1 == s1.len() {
            assert(s[i] == s1.last() && s[i + 1] == s2[0]);
        } else {
            assert(s[i] == s2[i - s1.len()] && s[i + 1] == s2[i - s1.len() + 1]);
        }
    }
    if s1.len() == 0 {
        assert(s =~= s2);
    }
}

proof fn lemma_adaptive_stage(cur: SoundModes, to: SoundModes)
    ensures
        is_valid_plan(cur, adaptive_stage(cur, to).0),
        ends_at(cur, adaptive_stage(cur, to).0, adaptive_stage(cur, to).1),
        adaptive_stage(cur, to).0.len() <= 3,
        adaptive_stage(cur, to).0.len() > 0 ==> adaptive_stage(cur, to).1.ambient_sound_mode
            == AmbientSoundMode::NoiseCanceling,
        adaptive_stage(cur, to).1.adaptive_noise_canceling == to.adaptive_noise_canceling,
        adaptive_stage(cur, to).1.noise_canceling_adaptive_sensitivity_level
            == to.noise_canceling_adaptive_sensitivity_level,
        adaptive_stage(cur, to).1.manual_noise_canceling == cur.manual_noise_canceling,
        adaptive_stage(cur, to).1.multi_scene_anc == cur.multi_scene_anc,
        adaptive_stage(cur, to).1.transparency_mode == cur.transparency_mode,
        adaptive_stage(cur, to).1.wind_noise == cur.wind_noise,
{
}

proof fn lemma_manual_stage(cur: SoundModes, to: SoundModes)
    ensures
        is_valid_plan(cur, manual_stage(cur, to).0),
        ends_at(cur, manual_stage(cur, to).0, manual_stage(cur, to).1),
        manual_stage(cur, to).0.len() <= (if cur.ambient_sound_mode
            == AmbientSoundMode::NoiseCanceling {
            2int
        } else {
            3int
        }),
        manual_stage(cur, to).0.len() > 0 ==> manual_stage(cur, to).1.ambient_sound_mode
            == AmbientSoundMode::NoiseCanceling,
        cur.ambient_sound_mode == AmbientSoundMode::NoiseCanceling ==> manual_stage(
            cur,
            to,
        ).1.ambient_sound_mode == AmbientSoundMode::NoiseCanceling,
        manual_stage(cur, to).1.manual_noise_canceling == to.manual_noise_canceling,
        manual_stage(cur, to).1.adaptive_noise_canceling == cur.adaptive_noise_canceling,
        manual_stage(cur, to).1.noise_canceling_adaptive_sensitivity_level
            == cur.noise_canceling_adaptive_sensitivity_level,
        manual_stage(cur, to).1.multi_scene_anc == cur.multi_scene_anc,
        manual_stage(cur, to).1.transparency_mode == cur.transparency_mode,
        manual_stage(cur, to).1.wind_noise == cur.wind_noise,
{
}

proof fn lemma_scene_stage(cur: SoundModes, to: SoundModes)
    ensures
        is_valid_plan(cur, scene_stage(cur, to).0),
        ends_at(cur, scene_stage(cur, to).0, scene_stage(cur, to).1),
        scene_stage(cur, to).0.len() <= (if cur.ambient_sound_mode
            == AmbientSoundMode::NoiseCanceling {
            2int
        } else {
            3int
        }),
        scene_stage(cur, to).0.len() > 0 ==> scene_stage(cur, to).1.ambient_sound_mode
            == AmbientSoundMode::NoiseCanceling,
        cur.ambient_sound_mode == AmbientSoundMode::NoiseCanceling ==> scene_stage(
            cur,
            to,
        ).1.ambient_sound_mode == AmbientSoundMode::NoiseCanceling,
        scene_stage(cur, to).1.multi_scene_anc == to.multi_scene_anc,
        scene_stage(cur, to).1.manual_noise_canceling == cur.manual_noise_canceling,
        scene_stage(cur, to).1.adaptive_noise_canceling == cur.adaptive_noise_canceling,
        scene_stage(cur, to).1.noise_canceling_adaptive_sensitivity_level
            == cur.noise_canceling_adaptive_sensitivity_level,
        scene_stage(cur, to).1.transparency_mode == cur.transparency_mode,
        scene_stage(cur, to).1.wind_noise == cur.wind_noise,
{
}

proof fn lemma_nc_mode_stage(cur: SoundModes, to: SoundModes)
    ensures
        is_valid_plan(cur, nc_mode_stage(cur, to).0),
        ends_at(cur, nc_mode_stage(cur, to).0, nc_mode_stage(cur, to).1),
        nc_mode_stage(cur, to).0.len() <= (if cur.ambient_sound_mode
            == AmbientSoundMode::NoiseCanceling {
            1int
        } else {
            2int
        }),
        nc_mode_stage(cur, to).1.noise_canceling_mode == to.noise_canceling_mode,
        nc_mode_stage(cur, to).1.multi_scene_anc == cur.multi_scene_anc,
        nc_mode_stage(cur, to).1.manual_noise_canceling == cur.manual_noise_canceling,
        nc_mode_stage(cur, to).1.adaptive_noise_canceling == cur.adaptive_noise_canceling,
        nc_mode_stage(cur, to).1.noise_canceling_adaptive_sensitivity_level
            == cur.noise_canceling_adaptive_sensitivity_level,
        nc_mode_stage(cur, to).1.transparency_mode == cur.transparency_mode,
        nc_mode_stage(cur, to).1.wind_noise == cur.wind_noise,
{
}

proof fn lemma_transparency_stage(cur: SoundModes, to: SoundModes)
    ensures
        is_valid_plan(cur, transparency_stage(cur, to).0),
        ends_at(cur, transparency_stage(cur, to).0, transparency_stage(cur, to).1),
        transparency_stage(cur, to).0.len() <= 2,
        transparency_stage(cur, to).1.transparency_mode == to.transparency_mode,
        transparency_stage(cur, to).1.wind_noise == to.wind_noise,
        transparency_stage(cur, to).1.noise_canceling_mode == cur.noise_canceling_mode,
        transparency_stage(cur, to).1.multi_scene_anc == cur.multi_scene_anc,
        transparency_stage(cur, to).1.manual_noise_canceling == cur.manual_noise_canceling,
        transparency_stage(cur, to).1.adaptive_noise_canceling == cur.adaptive_noise_canceling,
        transparency_stage(cur, to).1.noise_canceling_adaptive_sensitivity_level
            == cur.noise_canceling_adaptive_sensitivity_level,
{
}

proof fn lemma_ambient_stage(cur: SoundModes, to: SoundModes)
    ensures
        is_valid_plan(cur, ambient_stage(cur, to).0),
        ends_at(cur, ambient_stage(cur, to).0, ambient_stage(cur, to).1),
        ambient_stage(cur, to).0.len() <= 1,
        ambient_stage(cur, to).1 == with_ambient(cur, to.ambient_sound_mode),
{
}

/// The change plan is a chain of valid transitions that ends exactly in the target; it is
/// empty precisely when nothing has to change, and it never takes more than eleven steps.
pub proof fn lemma_change_plan_is_valid(from: SoundModes, to: SoundModes)
    ensures
        spec_change_plan(from, to).len() == 0 <==> from == to,
        spec_change_plan(from, to).len() > 0 ==> spec_change_plan(from, to).last() == to,
        is_valid_plan(from, spec_change_plan(from, to)),
        spec_change_plan(from, to).len() <= 11,
{
    let (s1, c1) = adaptive_stage(from, to);
    let (s2, c2) = manual_stage(c1, to);
    let (s3, c3) = scene_stage(c2, to);
    let (s4, c4) = nc_mode_stage(c3, to);
    let (s5, c5) = transparency_stage(c4, to);
    let (s6, c6) = ambient_stage(c5, to);
    lemma_adaptive_stage(from, to);
    lemma_manual_stage(c1, to);
    lemma_scene_stage(c2, to);
    lemma_nc_mode_stage(c3, to);
    lemma_transparency_stage(c4, to);
    lemma_ambient_stage(c5, to);
    lemma_valid_concat(from, s1, c1, s2, c2);
    lemma_valid_concat(from, s1 + s2, c2, s3, c3);
    lemma_valid_concat(from, s1 + s2 + s3, c3, s4, c4);
    lemma_valid_concat(from, s1 + s2 + s3 + s4, c4, s5, c5);
    lemma_valid_concat(from, s1 + s2 + s3 + s4 + s5, c5, s6, c6);
    assert(c6 == to);
    if from == to {
        assert(s1.len() == 0 && s2.len() == 0 && s3.len() == 0);
        assert(s4.len() == 0 && s5.len() == 0 && s6.len() == 0);
    }
}

// ---------------------------------------------------------------------------------------------
// Buttons
// ---------------------------------------------------------------------------------------------

/// The nibble of an optional action: its id, or 0xF for no action.
pub open spec fn spec_action_nibble(action: Option<ButtonAction>) -> u8 {
    match action {
        Some(a) => a.spec_id(),
        None => 15,
    }
}

fn action_nibble(action: Option<ButtonAction>) -> (r: u8)
    ensures
        r == spec_action_nibble(action),
        r < 16,
{
    match action {
        Some(a) => a.id(),
        None => 15,
    }
}

/// The actions of one button press: one for when the earbuds are connected to each other and
/// one for when they are not.
#[derive(Debug, Clone, Copy, PartialEq, Eq, Hash, Structural)]
pub struct TwsButtonAction {
    pub tws_connected_action: Option<ButtonAction>,
    pub tws_disconnected_action: Option<ButtonAction>,
}

impl TwsButtonAction {
    /// High nibble: the disconnected action; low nibble: the connected action.
    pub open spec fn spec_byte(self) -> u8 {
        (spec_action_nibble(self.tws_disconnected_action) * 16 + spec_action_nibble(
            self.tws_connected_action,
        )) as u8
    }

    pub open spec fn spec_from_byte(byte: u8) -> Self {
        TwsButtonAction {
            tws_connected_action: ButtonAction::spec_from_id(byte % 16),
            tws_disconnected_action: ButtonAction::spec_from_id(byte / 16),
        }
    }

    pub fn bytes(&self) -> (r: [u8; 1])
        ensures
            r@ == seq![self.spec_byte()],
    {
        let r = [action_nibble(self.tws_disconnected_action) * 16 + action_nibble(
            self.tws_connected_action,
        )];
        assert(r@ =~= seq![self.spec_byte()]);
        r
    }

    /// Parses the first byte of `input`.
    pub fn take(input: &[u8]) -> (r: Option<Self>)
        ensures
            input@.len() == 0 ==> r is None,
            input@.len() > 0 ==> r == Some(Self::spec_from_byte(input@[0])),
    {
        if input.len() == 0 {
            None
        } else {
            Some(Self::from_byte(input[0]))
        }
    }

    pub fn from_byte(byte: u8) -> (r: Self)
        ensures
            r == Self::spec_from_byte(byte),
    {
        TwsButtonAction {
            tws_connected_action: ButtonAction::from_id(byte % 16),
            tws_disconnected_action: ButtonAction::from_id(byte / 16),
        }
    }

    pub open spec fn spec_active_action(self, is_tws_connected: bool) -> Option<ButtonAction> {
        if is_tws_connected {
            self.tws_connected_action
        } else {
            self.tws_disconnected_action
        }
    }

    /// The action in effect for the given connection state of the earbuds.
    pub fn active_action(&self, is_tws_connected: bool) -> (r: Option<ButtonAction>)
        ensures
            r == self.spec_active_action(is_tws_connected),
    {
        if is_tws_connected {
            self.tws_connected_action
        } else {
            self.tws_disconnected_action
        }
    }

    /// Sets the action for the given connection state; the other one is kept.
    pub fn set_action(&mut self, action: Option<ButtonAction>, is_tws_connected: bool)
        ensures
            is_tws_connected ==> *final(self) == (TwsButtonAction {
                tws_connected_action: action,
                ..*old(self)
            }),
            !is_tws_connected ==> *final(self) == (TwsButtonAction {
                tws_disconnected_action: action,
                ..*old(self)
            }),
    {
        if is_tws_connected {
            self.tws_connected_action = action;
        } else {
            self.tws_disconnected_action = action;
        }
    }
}

/// Reading back the byte of a pair of actions gives the pair again.
pub proof fn lemma_tws_button_action_roundtrip(action: TwsButtonAction)
    ensures
        TwsButtonAction::spec_from_byte(action.spec_byte()) == action,
{
    match action.tws_connected_action {
        Some(a) => a.lemma_id_and_name_roundtrip(),
        None => {},
    }
    match action.tws_disconnected_action {
        Some(a) => a.lemma_id_and_name_roundtrip(),
        None => {},
    }
    let d = spec_action_nibble(action.tws_disconnected_action);
    let c = spec_action_nibble(action.tws_connected_action);
    assert(d < 16 && c < 16);
    assert((d * 16 + c) % 16 == c && (d * 16 + c) / 16 == d) by (nonlinear_arith)
        requires
            d < 16,
            c < 16,
    ;
}

/// After setting the action for one connection state, that state shows the new action and the
/// other state shows what it showed before.
pub proof fn lemma_set_then_active_action(
    before: TwsButtonAction,
    after: TwsButtonAction,
    action: Option<ButtonAction>,
    is_tws_connected: bool,
)
    requires
        is_tws_connected ==> after == (TwsButtonAction {
            tws_connected_action: action,
            ..before
        }),
        !is_tws_connected ==> after == (TwsButtonAction {
            tws_disconnected_action: action,
            ..before
        }),
    ensures
        after.spec_active_action(is_tws_connected) == action,
        after.spec_active_action(!is_tws_connected) == before.spec_active_action(
            !is_tws_connected,
        ),
{
}

/// One press of one earbud's button.
#[derive(Debug, Clone, Copy, PartialEq, Eq, Hash, Structural)]
pub enum Button {
    LeftSinglePress,
    RightSinglePress,
    LeftDoublePress,
    RightDoublePress,
    LeftTriplePress,
    RightTriplePress,
    LeftLongPress,
    RightLongPress,
}

impl Button {
    /// Position of the button in the configuration, which is also its order on the wire.
    pub open spec fn spec_index(self) -> int {
        match self {
            Button::LeftSinglePress => 0,
            Button::RightSinglePress => 1,
            Button::LeftDoublePress => 2,
            Button::RightDoublePress => 3,
            Button::LeftTriplePress => 4,
            Button::RightTriplePress => 5,
            Button::LeftLongPress => 6,
            Button::RightLongPress => 7,
        }
    }

    pub open spec fn spec_at(index: int) -> Button {
        if index == 0 {
            Button::LeftSinglePress
        } else if index == 1 {
            Button::RightSinglePress
        } else if index == 2 {
            Button::LeftDoublePress
        } else if index == 3 {
            Button::RightDoublePress
        } else if index == 4 {
            Button::LeftTriplePress
        } else if index == 5 {
            Button::RightTriplePress
        } else if index == 6 {
            Button::LeftLongPress
        } else {
            Button::RightLongPress
        }
    }

    pub fn at(index: usize) -> (r: Button)
        requires
            index < 8,
        ensures
            r == Self::spec_at(index as int),
            r.spec_index() == index,
    {
        if index == 0 {
            Button::LeftSinglePress
        } else if index == 1 {
            Button::RightSinglePress
        } else if index == 2 {
            Button::LeftDoublePress
        } else if index == 3 {
            Button::RightDoublePress
        } else if index == 4 {
            Button::LeftTriplePress
        } else if index == 5 {
            Button::RightTriplePress
        } else if index == 6 {
            Button::LeftLongPress
        } else {
            Button::RightLongPress
        }
    }

    /// Side byte (0 left, 1 right) followed by the press kind byte (0 double, 1 long,
    /// 2 single, 3 triple).
    pub open spec fn spec_bytes(self) -> Seq<u8> {
        match self {
            Button::LeftSinglePress => seq![0u8, 2u8],
            Button::RightSinglePress => seq![1u8, 2u8],
            Button::LeftDoublePress => seq![0u8, 0u8],
            Button::RightDoublePress => seq![1u8, 0u8],
            Button::LeftTriplePress => seq![0u8, 3u8],
            Button::RightTriplePress => seq![1u8, 3u8],
            Button::LeftLongPress => seq![0u8, 1u8],
            Button::RightLongPress => seq![1u8, 1u8],
        }
    }

    pub fn bytes(&self) -> (r: [u8; 2])
        ensures
            r@ == self.spec_bytes(),
    {
        let r = match self {
            Button::LeftSinglePress => [0u8, 2u8],
            Button::RightSinglePress => [1u8, 2u8],
            Button::LeftDoublePress => [0u8, 0u8],
            Button::RightDoublePress => [1u8, 0u8],
            Button::LeftTriplePress => [0u8, 3u8],
            Button::RightTriplePress => [1u8, 3u8],
            Button::LeftLongPress => [0u8, 1u8],
            Button::RightLongPress => [1u8, 1u8],
        };
        assert(r@ =~= self.spec_bytes());
        r
    }
}

/// The actions of all eight button presses.
#[derive(Debug, Clone, Copy, PartialEq, Eq, Hash, Structural)]
pub struct MultiButtonConfiguration {
    pub left_single_click: TwsButtonAction,
    pub right_single_click: TwsButtonAction,
    pub left_double_click: TwsButtonAction,
    pub right_double_click: TwsButtonAction,
    pub left_triple_click: TwsButtonAction,
    pub right_triple_click: TwsButtonAction,
    pub left_long_press: TwsButtonAction,
    pub right_long_press: TwsButtonAction,
}

impl MultiButtonConfiguration {
    pub open spec fn spec_get(self, button: Button) -> TwsButtonAction {
        match button {
            Button::LeftSinglePress => self.left_single_click,
            Button::RightSinglePress => self.right_single_click,
            Button::LeftDoublePress => self.left_double_click,
            Button::RightDoublePress => self.right_double_click,
            Button::LeftTriplePress => self.left_triple_click,
            Button::RightTriplePress => self.right_triple_click,
            Button::LeftLongPress => self.left_long_press,
            Button::RightLongPress => self.right_long_press,
        }
    }

    pub open spec fn spec_with(self, button: Button, action: TwsButtonAction) -> Self {
        match button {
            Button::LeftSinglePress => MultiButtonConfiguration {
                left_single_click: action,
                ..self
            },
            Button::RightSinglePress => MultiButtonConfiguration {
                right_single_click: action,
                ..self
            },
            Button::LeftDoublePress => MultiButtonConfiguration {
                left_double_click: action,
                ..self
            },
            Button::RightDoublePress => MultiButtonConfiguration {
                right_double_click: action,
                ..self
            },
            Button::LeftTriplePress => MultiButtonConfiguration {
                left_triple_click: action,
                ..self
            },
            Button::RightTriplePress => MultiButtonConfiguration {
                right_triple_click: action,
                ..self
            },
            Button::LeftLongPress => MultiButtonConfiguration { left_long_press: action, ..self },
            Button::RightLongPress => MultiButtonConfiguration {
                right_long_press: action,
                ..self
            },
        }
    }

    pub fn get_button(&self, button: Button) -> (r: TwsButtonAction)
        ensures
            r == self.spec_get(button),
    {
        match button {
            Button::LeftSinglePress => self.left_single_click,
            Button::RightSinglePress => self.right_single_click,
            Button::LeftDoublePress => self.left_double_click,
            Button::RightDoublePress => self.right_double_click,
            Button::LeftTriplePress => self.left_triple_click,
            Button::RightTriplePress => self.right_triple_click,
            Button::LeftLongPress => self.left_long_press,
            Button::RightLongPress => self.right_long_press,
        }
    }

    pub fn set_button(&mut self, button: Button, action: TwsButtonAction)
        ensures
            *final(self) == old(self).spec_with(button, action),
    {
        match button {
            Button::LeftSinglePress => self.left_single_click = action,
            Button::RightSinglePress => self.right_single_click = action,
            Button::LeftDoublePress => self.left_double_click = action,
            Button::RightDoublePress => self.right_double_click = action,
            Button::LeftTriplePress => self.left_triple_click = action,
            Button::RightTriplePress => self.right_triple_click = action,
            Button::LeftLongPress => self.left_long_press = action,
            Button::RightLongPress => self.right_long_press = action,
        }
    }

    /// One byte per button, in button order.
    pub open spec fn spec_bytes(self) -> Seq<u8> {
        Seq::new(8, |i: int| self.spec_get(Button::spec_at(i)).spec_byte())
    }

    pub open spec fn spec_take(s: Seq<u8>) -> Option<Self> {
        if s.len() < 8 {
            None
        } else {
            Some(
                MultiButtonConfiguration {
                    left_single_click: TwsButtonAction::spec_from_byte(s[0]),
                    right_single_click: TwsButtonAction::spec_from_byte(s[1]),
                    left_double_click: TwsButtonAction::spec_from_byte(s[2]),
                    right_double_click: TwsButtonAction::spec_from_byte(s[3]),
                    left_triple_click: TwsButtonAction::spec_from_byte(s[4]),
                    right_triple_click: TwsButtonAction::spec_from_byte(s[5]),
                    left_long_press: TwsButtonAction::spec_from_byte(s[6]),
                    right_long_press: TwsButtonAction::spec_from_byte(s[7]),
                },
            )
        }
    }

    pub fn bytes(&self) -> (r: Vec<u8>)
        ensures
            r@ == self.spec_bytes(),
    {
        let mut r: Vec<u8> = Vec::new();
        let mut i: usize = 0;
        while i < 8
            invariant
                i <= 8,
                r@ == self.spec_bytes().subrange(0, i as int),
            decreases 8 - i,
        {
            let b = self.get_button(Button::at(i)).bytes();
            r.push(b[0]);
            i = i + 1;
            assert(r@ =~= self.spec_bytes().subrange(0, i as int));
        }
        assert(r@ =~= self.spec_bytes());
        r
    }

    /// Parses the first eight bytes of `input`.
    pub fn take(input: &[u8]) -> (r: Option<Self>)
        ensures
            r == Self::spec_take(input@),
    {
        if input.len() < 8 {
            return None;
        }
        Some(
            MultiButtonConfiguration {
                left_single_click: TwsButtonAction::from_byte(input[0]),
                right_single_click: TwsButtonAction::from_byte(input[1]),
                left_double_click: TwsButtonAction::from_byte(input[2]),
                right_double_click: TwsButtonAction::from_byte(input[3]),
                left_triple_click: TwsButtonAction::from_byte(input[4]),
                right_triple_click: TwsButtonAction::from_byte(input[5]),
                left_long_press: TwsButtonAction::from_byte(input[6]),
                right_long_press: TwsButtonAction::from_byte(input[7]),
            },
        )
    }
}

/// Reading back the bytes of a button configuration gives the configuration again.
pub proof fn lemma_multi_button_roundtrip(config: MultiButtonConfiguration)
    ensures
        MultiButtonConfiguration::spec_take(config.spec_bytes()) == Some(config),
{
    lemma_tws_button_action_roundtrip(config.left_single_click);
    lemma_tws_button_action_roundtrip(config.right_single_click);
    lemma_tws_button_action_roundtrip(config.left_double_click);
    lemma_tws_button_action_roundtrip(config.right_double_click);
    lemma_tws_button_action_roundtrip(config.left_triple_click);
    lemma_tws_button_action_roundtrip(config.right_triple_click);
    lemma_tws_button_action_roundtrip(config.left_long_press);
    lemma_tws_button_action_roundtrip(config.right_long_press);
    let s = config.spec_bytes();
    assert(s[0] == config.left_single_click.spec_byte());
    assert(s[1] == config.right_single_click.spec_byte());
    assert(s[2] == config.left_double_click.spec_byte());
    assert(s[3] == config.right_double_click.spec_byte());
    assert(s[4] == config.left_triple_click.spec_byte());
    assert(s[5] == config.right_triple_click.spec_byte());
    assert(s[6] == config.left_long_press.spec_byte());
    assert(s[7] == config.right_long_press.spec_byte());
}

// ---------------------------------------------------------------------------------------------
// Packets
// ---------------------------------------------------------------------------------------------

/// Outbound packet that sets all sound modes at once.
#[derive(Debug, Clone, Copy, PartialEq, Eq, Hash, Structural)]
pub struct A3959SetSoundModes {
    pub sound_modes: SoundModes,
}

impl A3959SetSoundModes {
    pub open spec fn spec_command() -> Command {
        Command([0x06, 0x81])
    }

    pub fn command(&self) -> (r: Command)
        ensures
            r == Self::spec_command(),
    {
        Command([0x06, 0x81])
    }

    pub fn body(&self) -> (r: Vec<u8>)
        ensures
            r@ == self.sound_modes.spec_bytes(),
    {
        let b = self.sound_modes.bytes();
        let mut r: Vec<u8> = Vec::new();
        let mut i: usize = 0;
        while i < 7
            invariant
                i <= 7,
                r@ == b@.subrange(0, i as int),
            decreases 7 - i,
        {
            r.push(b[i]);
            i = i + 1;
            assert(r@ =~= b@.subrange(0, i as int));
        }
        assert(r@ =~= b@);
        r
    }

    pub fn to_packet(&self) -> (r: Packet)
        ensures
            r.direction == Direction::Outbound,
            r.command == Self::spec_command(),
            r.body@ == self.sound_modes.spec_bytes(),
    {
        Packet::new(Direction::Outbound, self.command(), self.body())
    }
}

/// The seven byte command prefix of the older packet format: direction prefix and command.
pub open spec fn spec_full_command(command: Command) -> Seq<u8> {
    Direction::Outbound.spec_prefix() + seq![command.0[0], command.0[1]]
}

/// Outbound packet that sets all sound modes, in the format that names its command by the
/// full seven byte prefix.
#[derive(Debug, Clone, Copy, PartialEq, Eq, Hash, Structural)]
pub struct A3959SetSoundModesPacket {
    pub sound_modes: SoundModes,
}

impl A3959SetSoundModesPacket {
    pub fn command(&self) -> (r: [u8; 7])
        ensures
            r@ == spec_full_command(A3959SetSoundModes::spec_command()),
    {
        let r = [0x08u8, 0xEEu8, 0x00u8, 0x00u8, 0x00u8, 0x06u8, 0x81u8];
        assert(r@ =~= spec_full_command(A3959SetSoundModes::spec_command()));
        r
    }

    pub fn body(&self) -> (r: Vec<u8>)
        ensures
            r@ == self.sound_modes.spec_bytes(),
    {
        A3959SetSoundModes { sound_modes: self.sound_modes }.body()
    }

    /// The complete frame.
    pub fn bytes(&self) -> (r: Vec<u8>)
        ensures
            r@ == spec_packet_bytes(
                Direction::Outbound,
                A3959SetSoundModes::spec_command(),
                self.sound_modes.spec_bytes(),
            ),
    {
        A3959SetSoundModes { sound_modes: self.sound_modes }.to_packet().bytes_with_checksum()
    }
}

/// Inbound packet that reports the sound modes.
#[derive(Debug, Clone, Copy, PartialEq, Eq, Hash, Structural)]
pub struct A3959SoundModes {
    pub sound_modes: SoundModes,
}

/// A body that is exactly one sound modes block.
pub open spec fn spec_take_sound_modes_body(body: Seq<u8>) -> Option<SoundModes> {
    if body.len() == SOUND_MODES_LEN {
        SoundModes::spec_take(body)
    } else {
        None
    }
}

impl A3959SoundModes {
    pub open spec fn spec_command() -> Command {
        Command([0x06, 0x01])
    }

    pub fn command() -> (r: Command)
        ensures
            r == Self::spec_command(),
    {
        Command([0x06, 0x01])
    }

    /// Parses a body that holds exactly one sound modes block.
    pub fn take(body: &[u8]) -> (r: Option<Self>)
        ensures
            r == (match spec_take_sound_modes_body(body@) {
                Some(m) => Some(A3959SoundModes { sound_modes: m }),
                None => None,
            }),
    {
        if body.len() != SOUND_MODES_LEN {
            return None;
        }
        match SoundModes::take(body) {
            Some(sound_modes) => Some(A3959SoundModes { sound_modes }),
            None => None,
        }
    }
}

/// Inbound sound modes update in the older packet format.
#[derive(Debug, Clone, Copy, PartialEq, Eq, Hash, Structural)]
pub struct A3959SoundModesUpdatePacket {
    pub sound_modes: SoundModes,
}

impl A3959SoundModesUpdatePacket {
    pub fn command() -> (r: Command)
        ensures
            r == A3959SoundModes::spec_command(),
    {
        Command([0x06, 0x01])
    }

    /// Parses a body that holds exactly one sound modes block.
    pub fn take(body: &[u8]) -> (r: Option<Self>)
        ensures
            r == (match spec_take_sound_modes_body(body@) {
                Some(m) => Some(A3959SoundModesUpdatePacket { sound_modes: m }),
                None => None,
            }),
    {
        match A3959SoundModes::take(body) {
            Some(p) => Some(A3959SoundModesUpdatePacket { sound_modes: p.sound_modes }),
            None => None,
        }
    }
}

/// Outbound packet that sets the actions of one button press.
#[derive(Debug, Clone, Copy, PartialEq, Eq, Hash, Structural)]
pub struct ButtonConfiguration {
    button: Button,
    action: TwsButtonAction,
}

impl ButtonConfiguration {
    pub closed spec fn spec_button(self) -> Button {
        self.button
    }

    pub closed spec fn spec_action(self) -> TwsButtonAction {
        self.action
    }

    pub open spec fn spec_command() -> Command {
        Command([0x04, 0x81])
    }

    pub open spec fn spec_body(self) -> Seq<u8> {
        self.spec_button().spec_bytes().push(self.spec_action().spec_byte())
    }

    pub fn new(button: Button, action: TwsButtonAction) -> (r: Self)
        ensures
            r.spec_button() == button,
            r.spec_action() == action,
    {
        ButtonConfiguration { button, action }
    }

    pub fn button(&self) -> (r: Button)
        ensures
            r == self.spec_button(),
    {
        self.button
    }

    pub fn action(&self) -> (r: TwsButtonAction)
        ensures
            r == self.spec_action(),
    {
        self.action
    }

    pub fn command(&self) -> (r: Command)
        ensures
            r == Self::spec_command(),
    {
        Command([0x04, 0x81])
    }

    /// The button's two bytes followed by the action byte.
    pub fn body(&self) -> (r: Vec<u8>)
        ensures
            r@ == self.spec_body(),
    {
        let b = self.button.bytes();
        let a = self.action.bytes();
        let mut r: Vec<u8> = Vec::new();
        r.push(b[0]);
        r.push(b[1]);
        r.push(a[0]);
        assert(r@ =~= self.spec_body());
        r
    }

    pub fn to_packet(&self) -> (r: Packet)
        ensures
            r.direction == Direction::Outbound,
            r.command == Self::spec_command(),
            r.body@ == self.spec_body(),
    {
        Packet::new(Direction::Outbound, self.command(), self.body())
    }
}

/// Outbound packet that sets all eight button presses at once.
#[derive(Debug, Clone, Copy, PartialEq, Eq, Hash, Structural)]
pub struct A3959SetMultiButtonConfiguration {
    button_configuration: MultiButtonConfiguration,
}

impl A3959SetMultiButtonConfiguration {
    pub closed spec fn spec_configuration(self) -> MultiButtonConfiguration {
        self.button_configuration
    }

    pub open spec fn spec_command() -> Command {
        Command([0x04, 0x84])
    }

    pub fn new(button_configuration: MultiButtonConfiguration) -> (r: Self)
        ensures
            r.spec_configuration() == button_configuration,
    {
        A3959SetMultiButtonConfiguration { button_configuration }
    }

    pub fn command(&self) -> (r: Command)
        ensures
            r == Self::spec_command(),
    {
        Command([0x04, 0x84])
    }

    pub fn body(&self) -> (r: Vec<u8>)
        ensures
            r@ == self.spec_configuration().spec_bytes(),
    {
        self.button_configuration.bytes()
    }

    pub fn to_packet(&self) -> (r: Packet)
        ensures
            r.direction == Direction::Outbound,
            r.command == Self::spec_command(),
            r.body@ == self.spec_configuration().spec_bytes(),
    {
        Packet::new(Direction::Outbound, self.command(), self.body())
    }
}

/// Outbound packet that sets all eight button presses, in the format that names its command by
/// the full seven byte prefix.
#[derive(Debug, Clone, Copy, PartialEq, Eq, Hash, Structural)]
pub struct A3959SetMultiButtonConfigurationPacket {
    button_configuration: MultiButtonConfiguration,
}

impl A3959SetMultiButtonConfigurationPacket {
    pub closed spec fn spec_configuration(self) -> MultiButtonConfiguration {
        self.button_configuration
    }

    pub fn new(button_configuration: MultiButtonConfiguration) -> (r: Self)
        ensures
            r.spec_configuration() == button_configuration,
    {
        A3959SetMultiButtonConfigurationPacket { button_configuration }
    }

    pub fn command(&self) -> (r: [u8; 7])
        ensures
            r@ == spec_full_command(A3959SetMultiButtonConfiguration::spec_command()),
    {
        let r = [0x08u8, 0xEEu8, 0x00u8, 0x00u8, 0x00u8, 0x04u8, 0x84u8];
        assert(r@ =~= spec_full_command(A3959SetMultiButtonConfiguration::spec_command()));
        r
    }

    pub fn body(&self) -> (r: Vec<u8>)
        ensures
            r@ == self.spec_configuration().spec_bytes(),
    {
        self.button_configuration.bytes()
    }

    /// The complete frame.
    pub fn bytes(&self) -> (r: Vec<u8>)
        ensures
            r@ == spec_packet_bytes(
                Direction::Outbound,
                A3959SetMultiButtonConfiguration::spec_command(),
                self.spec_configuration().spec_bytes(),
            ),
    {
        A3959SetMultiButtonConfiguration::new(self.button_configuration).to_packet().bytes_with_checksum()
    }
}

// ---------------------------------------------------------------------------------------------
// Packet handling, state changes and settings
// ---------------------------------------------------------------------------------------------

/// Applies inbound sound modes packets to the state.
pub struct SoundModesPacketHandler {}

impl SoundModesPacketHandler {
    pub fn command() -> (r: Command)
        ensures
            r == A3959SoundModes::spec_command(),
    {
        A3959SoundModes::command()
    }

    /// Replaces the sound modes with the ones in `packet`. The returned flag is the result of
    /// comparing the received sound modes with the previous ones for equality.
    pub fn handle_packet(&self, state: &mut SoundModes, packet: &Packet) -> (r: Result<
        bool,
        PacketParseError,
    >)
        ensures
            match spec_take_sound_modes_body(packet.body@) {
                Some(m) => *final(state) == m && r == Ok::<bool, PacketParseError>(
                    m == *old(state),
                ),
                None => *final(state) == *old(state) && r == Err::<bool, PacketParseError>(
                    PacketParseError::InvalidBody,
                ),
            },
    {
        match A3959SoundModes::take(packet.body.as_slice()) {
            Some(p) => {
                let modified = p.sound_modes == *state;
                *state = p.sound_modes;
                Ok(modified)
            },
            None => Err(PacketParseError::InvalidBody),
        }
    }
}

/// Moves the device's sound modes to a target through valid transitions. `P` is the handle
/// through which the caller sends packets.
pub struct SoundModesStateModifier<P> {
    packet_io: P,
}

/// The packets that carry out a change plan, one per step.
pub open spec fn spec_sound_modes_packets(current: SoundModes, target: SoundModes) -> Seq<
    A3959SetSoundModes,
> {
    spec_change_plan(current, target).map_values(|m: SoundModes| A3959SetSoundModes { sound_modes: m })
}

impl<P> SoundModesStateModifier<P> {
    pub closed spec fn spec_packet_io(&self) -> P {
        self.packet_io
    }

    pub fn new(packet_io: P) -> (r: Self)
        ensures
            r.spec_packet_io() == packet_io,
    {
        SoundModesStateModifier { packet_io }
    }

    pub fn packet_io(&self) -> (r: &P)
        ensures
            *r == self.spec_packet_io(),
    {
        &self.packet_io
    }

    /// The packets to send, in order; after each one the state becomes its sound modes.
    pub fn plan(&self, current: SoundModes, target: SoundModes) -> (r: Vec<A3959SetSoundModes>)
        ensures
            r@ == spec_sound_modes_packets(current, target),
            current == target ==> r@.len() == 0,
    {
        proof {
            lemma_change_plan_is_valid(current, target);
        }
        let steps = create_change_plan(current, target);
        let mut r: Vec<A3959SetSoundModes> = Vec::new();
        let mut i: usize = 0;
        while i < steps.len()
            invariant
                i <= steps@.len(),
                steps@ == spec_change_plan(current, target),
                r@ == spec_sound_modes_packets(current, target).subrange(0, i as int),
            decreases steps@.len() - i,
        {
            r.push(A3959SetSoundModes { sound_modes: steps[i] });
            i = i + 1;
            assert(r@ =~= spec_sound_modes_packets(current, target).subrange(0, i as int));
        }
        assert(r@ =~= spec_sound_modes_packets(current, target));
        r
    }
}

/// What came of sending one packet of a sound modes change.
#[derive(Debug, Clone, Copy, PartialEq, Eq, Structural)]
pub enum SendOutcome {
    /// The device answered the packet.
    Acknowledged,
    /// The packet could not be sent or was not answered.
    Failed,
}

/// A sound modes change under way: the steps of its plan, how many the device has
/// acknowledged, and whether a send failed. Sending stops at the first failure; the state is
/// always the last step that the device acknowledged, or the starting state before any.
pub struct SoundModesChange {
    start: SoundModes,
    steps: Vec<SoundModes>,
    acknowledged: usize,
    failed: bool,
}

impl SoundModesChange {
    pub closed spec fn spec_start(&self) -> SoundModes {
        self.start
    }

    pub closed spec fn spec_steps(&self) -> Seq<SoundModes> {
        self.steps@
    }

    /// How many steps the device has acknowledged.
    pub closed spec fn spec_acknowledged(&self) -> nat {
        self.acknowledged as nat
    }

    pub closed spec fn spec_failed(&self) -> bool {
        self.failed
    }

    pub open spec fn is_well_formed(&self) -> bool {
        self.spec_acknowledged() <= self.spec_steps().len()
    }

    /// The device's sound modes as far as it has acknowledged them.
    pub open spec fn spec_state(&self) -> SoundModes {
        if self.spec_acknowledged() == 0 {
            self.spec_start()
        } else {
            self.spec_steps()[self.spec_acknowledged() - 1]
        }
    }

    /// Whether nothing more is to be sent: every step was acknowledged, or one failed.
    pub open spec fn spec_is_finished(&self) -> bool {
        self.spec_failed() || self.spec_acknowledged() == self.spec_steps().len()
    }

    /// Starts the change from `current` to `target` along the change plan.
    pub fn new(current: SoundModes, target: SoundModes) -> (r: Self)
        ensures
            r.is_well_formed(),
            r.spec_start() == current,
            r.spec_steps() == spec_change_plan(current, target),
            r.spec_acknowledged() == 0,
            !r.spec_failed(),
    {
        let steps = create_change_plan(current, target);
        SoundModesChange { start: current, steps, acknowledged: 0, failed: false }
    }

    /// The device's sound modes as far as it has acknowledged them.
    pub fn state(&self) -> (r: SoundModes)
        requires
            self.is_well_formed(),
        ensures
            r == self.spec_state(),
    {
        if self.acknowledged == 0 {
            self.start
        } else {
            self.steps[self.acknowledged - 1]
        }
    }

    /// The packet to send next: the first step not yet acknowledged, unless the change is
    /// finished.
    pub fn next_packet(&self) -> (r: Option<A3959SetSoundModes>)
        requires
            self.is_well_formed(),
        ensures
            if self.spec_is_finished() {
                r is None
            } else {
                r == Some(
                    A3959SetSoundModes { sound_modes: self.spec_steps()[self.spec_acknowledged() as int] },
                )
            },
    {
        if self.failed || self.acknowledged == self.steps.len() {
            None
        } else {
            Some(A3959SetSoundModes { sound_modes: self.steps[self.acknowledged] })
        }
    }

    /// Takes in what came of sending the next packet: an acknowledged step becomes the state;
    /// a failure ends the change and leaves the state at the last acknowledged step. The result
    /// is the packet to send next, if any.
    pub fn on_outcome(&mut self, outcome: SendOutcome) -> (r: Option<A3959SetSoundModes>)
        requires
            old(self).is_well_formed(),
            !old(self).spec_is_finished(),
        ensures
            final(self).is_well_formed(),
            final(self).spec_start() == old(self).spec_start(),
            final(self).spec_steps() == old(self).spec_steps(),
            match outcome {
                SendOutcome::Acknowledged => {
                    &&& final(self).spec_acknowledged() == old(self).spec_acknowledged() + 1
                    &&& !final(self).spec_failed()
                    &&& final(self).spec_state() == old(self).spec_steps()[old(self).spec_acknowledged() as int]
                },
                SendOutcome::Failed => {
                    &&& final(self).spec_acknowledged() == old(self).spec_acknowledged()
                    &&& final(self).spec_failed()
                    &&& final(self).spec_state() == old(self).spec_state()
                },
            },
            if final(self).spec_is_finished() {
                r is None
            } else {
                r == Some(
                    A3959SetSoundModes {
                        sound_modes: final(self).spec_steps()[final(self).spec_acknowledged() as int],
                    },
                )
            },
    {
        match outcome {
            SendOutcome::Acknowledged => {
                let n = self.steps.len();
                assert(self.acknowledged < n);
                self.acknowledged = self.acknowledged + 1;
            },
            SendOutcome::Failed => {
                self.failed = true;
            },
        }
        self.next_packet()
    }
}

/// Whatever the device answers, the state of a sound modes change is the starting state or a
/// step of its plan; once every step is acknowledged it is the target.
pub proof fn lemma_sound_modes_change_ends_at_target(change: SoundModesChange, target: SoundModes)
    requires
        change.is_well_formed(),
        change.spec_steps() == spec_change_plan(change.spec_start(), target),
    ensures
        change.spec_state() == change.spec_start() || change.spec_steps().contains(change.spec_state()),
        change.spec_acknowledged() == change.spec_steps().len() ==> change.spec_state() == target,
{
    lemma_change_plan_is_valid(change.spec_start(), target);
    if change.spec_acknowledged() > 0 {
        assert(change.spec_steps()[change.spec_acknowledged() - 1] == change.spec_state());
    }
}

/// The buttons from index `i` on whose actions differ between `current` and `target`, each
/// with its target actions.
pub open spec fn spec_button_changes(
    current: MultiButtonConfiguration,
    target: MultiButtonConfiguration,
    i: int,
) -> Seq<(Button, TwsButtonAction)>
    decreases 8 - i,
{
    if i >= 8 || i < 0 {
        seq![]
    } else {
        let button = Button::spec_at(i);
        let rest = spec_button_changes(current, target, i + 1);
        if target.spec_get(button) != current.spec_get(button) {
            seq![(button, target.spec_get(button))] + rest
        } else {
            rest
        }
    }
}

/// Moves the device's button configuration to a target one press at a time.
pub struct ButtonConfigurationStateModifier<P> {
    packet_io: P,
}

impl<P> ButtonConfigurationStateModifier<P> {
    pub closed spec fn spec_packet_io(&self) -> P {
        self.packet_io
    }

    pub fn new(packet_io: P) -> (r: Self)
        ensures
            r.spec_packet_io() == packet_io,
    {
        ButtonConfigurationStateModifier { packet_io }
    }

    pub fn packet_io(&self) -> (r: &P)
        ensures
            *r == self.spec_packet_io(),
    {
        &self.packet_io
    }

    /// One packet per button whose actions differ, in button order; after each one that
    /// button's actions in the state become the target's.
    pub fn plan(
        &self,
        current: MultiButtonConfiguration,
        target: MultiButtonConfiguration,
    ) -> (r: Vec<ButtonConfiguration>)
        ensures
            r@.len() == spec_button_changes(current, target, 0).len(),
            forall|j: int|
                0 <= j < r@.len() ==> (#[trigger] r@[j]).spec_button() == spec_button_changes(
                    current,
                    target,
                    0,
                )[j].0 && r@[j].spec_action() == spec_button_changes(current, target, 0)[j].1,
    {
        let mut r: Vec<ButtonConfiguration> = Vec::new();
        let ghost mut done: Seq<(Button, TwsButtonAction)> = seq![];
        let mut i: usize = 0;
        while i < 8
            invariant
                i <= 8,
                done + spec_button_changes(current, target, i as int) == spec_button_changes(
                    current,
                    target,
                    0,
                ),
                r@.len() == done.len(),
                forall|j: int|
                    0 <= j < r@.len() ==> (#[trigger] r@[j]).spec_button() == done[j].0
                        && r@[j].spec_action() == done[j].1,
            decreases 8 - i,
        {
            let button = Button::at(i);
            let action = target.get_button(button);
            if action != current.get_button(button) {
                r.push(ButtonConfiguration::new(button, action));
                proof {
                    done = done.push((button, action));
                }
            }
            i = i + 1;
            assert(done + spec_button_changes(current, target, i as int) =~= spec_button_changes(
                current,
                target,
                0,
            ));
        }
        assert(done =~= spec_button_changes(current, target, 0));
        r
    }
}

/// The button a setting is about.
pub open spec fn spec_button_of_setting(id: SettingId) -> Option<Button> {
    match id {
        SettingId::LeftSinglePress => Some(Button::LeftSinglePress),
        SettingId::LeftDoublePress => Some(Button::LeftDoublePress),
        SettingId::LeftTriplePress => Some(Button::LeftTriplePress),
        SettingId::LeftLongPress => Some(Button::LeftLongPress),
        SettingId::RightSinglePress => Some(Button::RightSinglePress),
        SettingId::RightDoublePress => Some(Button::RightDoublePress),
        SettingId::RightTriplePress => Some(Button::RightTriplePress),
        SettingId::RightLongPress => Some(Button::RightLongPress),
        _ => None,
    }
}

fn button_of_setting(id: SettingId) -> (r: Option<Button>)
    ensures
        r == spec_button_of_setting(id),
{
    match id {
        SettingId::LeftSinglePress => Some(Button::LeftSinglePress),
        SettingId::LeftDoublePress => Some(Button::LeftDoublePress),
        SettingId::LeftTriplePress => Some(Button::LeftTriplePress),
        SettingId::LeftLongPress => Some(Button::LeftLongPress),
        SettingId::RightSinglePress => Some(Button::RightSinglePress),
        SettingId::RightDoublePress => Some(Button::RightDoublePress),
        SettingId::RightTriplePress => Some(Button::RightTriplePress),
        SettingId::RightLongPress => Some(Button::RightLongPress),
        _ => None,
    }
}

/// Shows each button press as an optional select of actions: the action for the current
/// connection state of the earbuds.
pub struct ButtonConfigurationSettingHandler {}

impl ButtonConfigurationSettingHandler {
    pub fn new() -> Self {
        ButtonConfigurationSettingHandler {}
    }

    pub open spec fn spec_settings() -> Seq<SettingId> {
        seq![
            SettingId::LeftSinglePress,
            SettingId::LeftDoublePress,
            SettingId::LeftTriplePress,
            SettingId::LeftLongPress,
            SettingId::RightSinglePress,
            SettingId::RightDoublePress,
            SettingId::RightTriplePress,
            SettingId::RightLongPress,
        ]
    }

    pub fn settings(&self) -> (r: Vec<SettingId>)
        ensures
            r@ == Self::spec_settings(),
    {
        let r = vec![
            SettingId::LeftSinglePress,
            SettingId::LeftDoublePress,
            SettingId::LeftTriplePress,
            SettingId::LeftLongPress,
            SettingId::RightSinglePress,
            SettingId::RightDoublePress,
            SettingId::RightTriplePress,
            SettingId::RightLongPress,
        ];
        assert(r@ =~= Self::spec_settings());
        r
    }

    pub open spec fn spec_get(
        config: MultiButtonConfiguration,
        tws_status: TwsStatus,
        setting_id: SettingId,
    ) -> Option<SettingView> {
        match spec_button_of_setting(setting_id) {
            Some(button) => Some(
                SettingView::OptionalSelect {
                    options: ButtonAction::spec_all_names(),
                    value: ButtonAction::spec_optional_name(
                        config.spec_get(button).spec_active_action(tws_status.is_connected),
                    ),
                },
            ),
            None => None,
        }
    }

    pub fn get(
        &self,
        config: &MultiButtonConfiguration,
        tws_status: &TwsStatus,
        setting_id: &SettingId,
    ) -> (r: Option<Setting>)
        ensures
            match Self::spec_get(*config, *tws_status, *setting_id) {
                Some(v) => r matches Some(s) && s@ == v,
                None => r is None,
            },
    {
        let button = button_of_setting(*setting_id)?;
        Some(
            ButtonAction::optional_select(
                config.get_button(button).active_action(tws_status.is_connected),
            ),
        )
    }

    /// The configuration after choosing `action` for `button` in the current connection state.
    pub open spec fn spec_set(
        config: MultiButtonConfiguration,
        tws_status: TwsStatus,
        button: Button,
        action: Option<ButtonAction>,
    ) -> MultiButtonConfiguration {
        let old_action = config.spec_get(button);
        config.spec_with(
            button,
            if tws_status.is_connected {
                TwsButtonAction { tws_connected_action: action, ..old_action }
            } else {
                TwsButtonAction { tws_disconnected_action: action, ..old_action }
            },
        )
    }

    /// Chooses the action named by `value` (or no action) for the setting's button, in the
    /// current connection state of the earbuds. A value that names no action changes nothing.
    pub fn set(
        &self,
        config: &mut MultiButtonConfiguration,
        tws_status: &TwsStatus,
        setting_id: &SettingId,
        value: Value,
    ) -> (r: Result<(), SettingHandlerError>)
        requires
            spec_button_of_setting(*setting_id) is Some,
        ensures
            match ButtonAction::spec_from_value(value) {
                Ok(action) => r is Ok && *final(config) == Self::spec_set(
                    *old(config),
                    *tws_status,
                    spec_button_of_setting(*setting_id)->0,
                    action,
                ),
                Err(_) => r is Err && *final(config) == *old(config),
            },
    {
        let button = button_of_setting(*setting_id).unwrap();
        let action = ButtonAction::try_from_value(&value)?;
        let mut tws_action = config.get_button(button);
        tws_action.set_action(action, tws_status.is_connected);
        config.set_button(button, tws_action);
        Ok(())
    }
}

/// Choosing an action for a button press and reading the setting back shows that action.
pub proof fn lemma_button_setting_set_then_get(
    config: MultiButtonConfiguration,
    tws_status: TwsStatus,
    setting_id: SettingId,
    action: Option<ButtonAction>,
)
    requires
        spec_button_of_setting(setting_id) is Some,
    ensures
        ButtonConfigurationSettingHandler::spec_get(
            ButtonConfigurationSettingHandler::spec_set(
                config,
                tws_status,
                spec_button_of_setting(setting_id)->0,
                action,
            ),
            tws_status,
            setting_id,
        ) == Some(
            SettingView::OptionalSelect {
                options: ButtonAction::spec_all_names(),
                value: ButtonAction::spec_optional_name(action),
            },
        ),
{
}

/// What a state update of the A3959 carries.
#[derive(Debug, Clone, PartialEq, Eq)]
pub struct A3959StateUpdate {
    pub tws_status: TwsStatus,
    pub dual_battery: DualBattery,
    pub dual_firmware_version: DualFirmwareVersion,
    pub serial_number: SerialNumber,
    pub equalizer_configuration: EqualizerConfiguration,
    pub button_configuration: MultiButtonConfiguration,
    pub ambient_sound_mode_cycle: AmbientSoundModeCycle,
    pub sound_modes: SoundModes,
    pub touch_tone: bool,
    pub auto_power_off: AutoPowerOff,
    pub low_battery_prompt: bool,
    pub gaming_mode: Option<GamingMode>,
    pub dual_connections_enabled: bool,
}

/// The state of an A3959.
#[derive(Debug, Clone, PartialEq, Eq)]
pub struct A3959State {
    pub tws_status: TwsStatus,
    pub dual_battery: DualBattery,
    pub dual_firmware_version: DualFirmwareVersion,
    pub serial_number: SerialNumber,
    pub equalizer_configuration: EqualizerConfiguration,
    pub button_configuration: MultiButtonConfiguration,
    pub ambient_sound_mode_cycle: AmbientSoundModeCycle,
    pub sound_modes: SoundModes,
    pub auto_power_off: AutoPowerOff,
    pub touch_tone: bool,
    pub low_battery_prompt: bool,
    pub dual_connections: DualConnections,
    pub gaming_mode: Option<GamingMode>,
    pub button_reset_pending: ResetButtonConfigurationPending,
}

impl A3959State {
    /// The state from a state update and the known host devices, with no reset pending.
    pub fn new(packet: A3959StateUpdate, dual_connections_devices: Vec<DualConnectionsDevice>) -> (r:
        Self)
        ensures
            r.tws_status == packet.tws_status,
            r.dual_battery == packet.dual_battery,
            r.dual_firmware_version == packet.dual_firmware_version,
            r.serial_number == packet.serial_number,
            r.equalizer_configuration == packet.equalizer_configuration,
            r.button_configuration == packet.button_configuration,
            r.ambient_sound_mode_cycle == packet.ambient_sound_mode_cycle,
            r.sound_modes == packet.sound_modes,
            r.auto_power_off == packet.auto_power_off,
            r.touch_tone == packet.touch_tone,
            r.low_battery_prompt == packet.low_battery_prompt,
            r.gaming_mode == packet.gaming_mode,
            r.dual_connections == (DualConnections {
                is_enabled: packet.dual_connections_enabled,
                devices: dual_connections_devices,
            }),
            !r.button_reset_pending.0,
    {
        A3959State {
            tws_status: packet.tws_status,
            dual_battery: packet.dual_battery,
            dual_firmware_version: packet.dual_firmware_version,
            serial_number: packet.serial_number,
            equalizer_configuration: packet.equalizer_configuration,
            button_configuration: packet.button_configuration,
            ambient_sound_mode_cycle: packet.ambient_sound_mode_cycle,
            sound_modes: packet.sound_modes,
            auto_power_off: packet.auto_power_off,
            touch_tone: packet.touch_tone,
            low_battery_prompt: packet.low_battery_prompt,
            gaming_mode: packet.gaming_mode,
            dual_connections: DualConnections {
                is_enabled: packet.dual_connections_enabled,
                devices: dual_connections_devices,
            },
            button_reset_pending: ResetButtonConfigurationPending(false),
        }
    }

    /// Takes over everything a state update carries, the on/off switch of dual connections
    /// among it; the known host devices and a pending reset stay.
    pub fn update(&mut self, packet: A3959StateUpdate)
        ensures
            final(self).tws_status == packet.tws_status,
            final(self).dual_battery == packet.dual_battery,
            final(self).dual_firmware_version == packet.dual_firmware_version,
            final(self).serial_number == packet.serial_number,
            final(self).equalizer_configuration == packet.equalizer_configuration,
            final(self).button_configuration == packet.button_configuration,
            final(self).ambient_sound_mode_cycle == packet.ambient_sound_mode_cycle,
            final(self).sound_modes == packet.sound_modes,
            final(self).touch_tone == packet.touch_tone,
            final(self).auto_power_off == packet.auto_power_off,
            final(self).low_battery_prompt == packet.low_battery_prompt,
            final(self).gaming_mode == packet.gaming_mode,
            final(self).dual_connections.is_enabled == packet.dual_connections_enabled,
            final(self).dual_connections.devices == old(self).dual_connections.devices,
            final(self).button_reset_pending == old(self).button_reset_pending,
    {
        self.tws_status = packet.tws_status;
        self.dual_battery = packet.dual_battery;
        self.dual_firmware_version = packet.dual_firmware_version;
        self.serial_number = packet.serial_number;
        self.equalizer_configuration = packet.equalizer_configuration;
        self.button_configuration = packet.button_configuration;
        self.ambient_sound_mode_cycle = packet.ambient_sound_mode_cycle;
        self.sound_modes = packet.sound_modes;
        self.touch_tone = packet.touch_tone;
        self.auto_power_off = packet.auto_power_off;
        self.low_battery_prompt = packet.low_battery_prompt;
        self.gaming_mode = packet.gaming_mode;
        self.dual_connections.is_enabled = packet.dual_connections_enabled;
    }
}

/// The action of the press that each button setting is about: the left or right earbud's
/// single, double, triple or long press.
pub open spec fn spec_press_of_setting(
    config: MultiButtonConfiguration,
    setting_id: SettingId,
) -> Option<TwsButtonAction> {
    match setting_id {
        SettingId::LeftSinglePress => Some(config.left_single_click),
        SettingId::LeftDoublePress => Some(config.left_double_click),
        SettingId::LeftTriplePress => Some(config.left_triple_click),
        SettingId::LeftLongPress => Some(config.left_long_press),
        SettingId::RightSinglePress => Some(config.right_single_click),
        SettingId::RightDoublePress => Some(config.right_double_click),
        SettingId::RightTriplePress => Some(config.right_triple_click),
        SettingId::RightLongPress => Some(config.right_long_press),
        _ => None,
    }
}

/// Each button setting shows the action in effect of its own press (same earbud, same press
/// kind), and choosing an action for it changes that press alone, in the current connection
/// state only.
pub proof fn lemma_each_button_setting_is_its_own_press(
    config: MultiButtonConfiguration,
    tws_status: TwsStatus,
    setting_id: SettingId,
    action: Option<ButtonAction>,
)
    ensures
        match spec_press_of_setting(config, setting_id) {
            Some(press) => ButtonConfigurationSettingHandler::spec_get(config, tws_status, setting_id)
                == Some(
                SettingView::OptionalSelect {
                    options: ButtonAction::spec_all_names(),
                    value: ButtonAction::spec_optional_name(
                        press.spec_active_action(tws_status.is_connected),
                    ),
                },
            ),
            None => ButtonConfigurationSettingHandler::spec_get(config, tws_status, setting_id) is None,
        },
        spec_button_of_setting(setting_id) is Some ==> ({
            let after = ButtonConfigurationSettingHandler::spec_set(
                config,
                tws_status,
                spec_button_of_setting(setting_id)->0,
                action,
            );
            let press = spec_press_of_setting(config, setting_id)->0;
            &&& spec_press_of_setting(after, setting_id) == Some(
                if tws_status.is_connected {
                    TwsButtonAction { tws_connected_action: action, ..press }
                } else {
                    TwsButtonAction { tws_disconnected_action: action, ..press }
                },
            )
            &&& forall|other: SettingId|
                other != setting_id ==> #[trigger] spec_press_of_setting(after, other)
                    == spec_press_of_setting(config, other)
        }),
{
}

} // verus!
