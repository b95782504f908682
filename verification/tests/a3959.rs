use openscq30_lib::a3959::{
    SendOutcome, SoundModesChange, create_change_plan, A3959SetSoundModes, A3959SetSoundModesPacket, A3959SoundModes, Button,
    ButtonConfiguration, MultiButtonConfiguration, NoiseCancelingMode, SoundModes,
    TwsButtonAction,
};
use openscq30_lib::structures::{
    AdaptiveNoiseCanceling, AmbientSoundMode, ButtonAction, ManualNoiseCanceling,
    NoiseCancelingMode as SceneMode, TransparencyMode, WindNoise,
};

fn example_sound_modes() -> SoundModes {
    SoundModes {
        ambient_sound_mode: AmbientSoundMode::NoiseCanceling,
        manual_noise_canceling: ManualNoiseCanceling::new(5),
        adaptive_noise_canceling: AdaptiveNoiseCanceling::new(5),
        transparency_mode: TransparencyMode::FullyTransparent,
        noise_canceling_mode: NoiseCancelingMode::MultiScene,
        wind_noise: WindNoise {
            is_suppression_enabled: true,
            is_detected: false,
        },
        noise_canceling_adaptive_sensitivity_level: 0,
        multi_scene_anc: SceneMode::Outdoor,
    }
}

#[test]
fn set_sound_modes_it_matches_an_example_packet() {
    const EXPECTED: &[u8] = &[8, 238, 0, 0, 0, 6, 129, 17, 0, 0, 85, 0, 2, 1, 0, 1, 231];
    let packet = A3959SetSoundModes {
        sound_modes: example_sound_modes(),
    };
    assert_eq!(EXPECTED, packet.to_packet().bytes_with_checksum());
}

#[test]
fn set_sound_modes_packet_it_matches_an_example_packet() {
    const EXPECTED: &[u8] = &[8, 238, 0, 0, 0, 6, 129, 17, 0, 0, 85, 0, 2, 1, 0, 1, 231];
    let packet = A3959SetSoundModesPacket {
        sound_modes: example_sound_modes(),
    };
    assert_eq!(EXPECTED, packet.bytes());
}

#[test]
fn sound_modes_body_parses_back() {
    let modes = example_sound_modes();
    let parsed = A3959SoundModes::take(&modes.bytes()).unwrap();
    assert_eq!(parsed.sound_modes, modes);
    // a body that is longer than one block is refused
    let mut longer = modes.bytes().to_vec();
    longer.push(0);
    assert!(A3959SoundModes::take(&longer).is_none());
}

fn is_change_valid(from: SoundModes, to: SoundModes) -> bool {
    let nc = AmbientSoundMode::NoiseCanceling;
    if from.transparency_mode != to.transparency_mode || from.wind_noise != to.wind_noise {
        if from.ambient_sound_mode != AmbientSoundMode::Transparency
            || from.ambient_sound_mode != to.ambient_sound_mode
        {
            return false;
        }
    }
    if from.noise_canceling_mode != to.noise_canceling_mode
        && (from.ambient_sound_mode != nc || from.ambient_sound_mode != to.ambient_sound_mode)
    {
        return false;
    }
    let requires_mode = |mode: NoiseCancelingMode| {
        from.ambient_sound_mode == nc
            && to.ambient_sound_mode == nc
            && from.noise_canceling_mode == mode
            && to.noise_canceling_mode == mode
    };
    if (from.adaptive_noise_canceling != to.adaptive_noise_canceling
        || from.noise_canceling_adaptive_sensitivity_level
            != to.noise_canceling_adaptive_sensitivity_level)
        && !requires_mode(NoiseCancelingMode::Adaptive)
    {
        return false;
    }
    if from.manual_noise_canceling != to.manual_noise_canceling
        && !requires_mode(NoiseCancelingMode::Manual)
    {
        return false;
    }
    if from.multi_scene_anc != to.multi_scene_anc && !requires_mode(NoiseCancelingMode::MultiScene)
    {
        return false;
    }
    true
}

#[test]
fn change_plan_from_transparency_to_manual_noise_canceling() {
    let from = SoundModes {
        ambient_sound_mode: AmbientSoundMode::Transparency,
        noise_canceling_mode: NoiseCancelingMode::Adaptive,
        ..example_sound_modes()
    };
    let to = SoundModes {
        ambient_sound_mode: AmbientSoundMode::Normal,
        manual_noise_canceling: ManualNoiseCanceling::new(3),
        adaptive_noise_canceling: AdaptiveNoiseCanceling::new(2),
        transparency_mode: TransparencyMode::VocalMode,
        noise_canceling_mode: NoiseCancelingMode::MultiScene,
        wind_noise: WindNoise {
            is_suppression_enabled: false,
            is_detected: true,
        },
        noise_canceling_adaptive_sensitivity_level: 4,
        multi_scene_anc: SceneMode::Indoor,
    };
    let plan = create_change_plan(from, to);
    assert!(!plan.is_empty());
    assert!(plan.len() <= 11);
    assert_eq!(*plan.last().unwrap(), to);
    assert!(is_change_valid(from, plan[0]));
    for pair in plan.windows(2) {
        assert!(is_change_valid(pair[0], pair[1]));
    }
    // adaptive first: enter noise canceling, then set the adaptive values
    assert_eq!(plan[0].ambient_sound_mode, AmbientSoundMode::NoiseCanceling);
    assert_eq!(plan[1].adaptive_noise_canceling, AdaptiveNoiseCanceling::new(2));
}

#[test]
fn change_plan_is_empty_without_changes() {
    let modes = example_sound_modes();
    assert!(create_change_plan(modes, modes).is_empty());
}

#[test]
fn tws_button_action_byte_roundtrip() {
    let action = TwsButtonAction {
        tws_connected_action: Some(ButtonAction::PlayPause),
        tws_disconnected_action: None,
    };
    assert_eq!(action.bytes(), [0xF6]);
    assert_eq!(TwsButtonAction::take(&[0xF6]), Some(action));
    assert_eq!(
        TwsButtonAction::take(&[0x19]),
        Some(TwsButtonAction {
            tws_connected_action: Some(ButtonAction::GameMode),
            tws_disconnected_action: Some(ButtonAction::VolumeDown),
        })
    );
}

#[test]
fn set_action_changes_only_the_active_side() {
    let mut action = TwsButtonAction {
        tws_connected_action: Some(ButtonAction::VolumeUp),
        tws_disconnected_action: Some(ButtonAction::VolumeDown),
    };
    action.set_action(Some(ButtonAction::NextSong), false);
    assert_eq!(action.active_action(false), Some(ButtonAction::NextSong));
    assert_eq!(action.active_action(true), Some(ButtonAction::VolumeUp));
}

#[test]
fn button_configuration_packet_body() {
    let action = TwsButtonAction {
        tws_connected_action: Some(ButtonAction::VolumeUp),
        tws_disconnected_action: Some(ButtonAction::PlayPause),
    };
    let packet = ButtonConfiguration::new(Button::RightDoublePress, action);
    assert_eq!(packet.body(), vec![1, 0, 0x60]);
    let config = MultiButtonConfiguration::take(&[0x60; 8]).unwrap();
    assert_eq!(config.get_button(Button::LeftLongPress), action);
    assert_eq!(config.bytes(), vec![0x60; 8]);
}

fn change_example() -> (SoundModes, SoundModes) {
    let from = SoundModes {
        ambient_sound_mode: AmbientSoundMode::Transparency,
        noise_canceling_mode: NoiseCancelingMode::Adaptive,
        ..example_sound_modes()
    };
    let to = SoundModes {
        ambient_sound_mode: AmbientSoundMode::Normal,
        manual_noise_canceling: ManualNoiseCanceling::new(3),
        ..from
    };
    (from, to)
}

#[test]
fn sound_modes_change_sends_every_step_when_acknowledged() {
    let (from, to) = change_example();
    let plan = create_change_plan(from, to);
    let mut change = SoundModesChange::new(from, to);
    assert_eq!(change.state(), from);
    let mut sent = Vec::new();
    let mut next = change.next_packet();
    while let Some(packet) = next {
        sent.push(packet.sound_modes);
        next = change.on_outcome(SendOutcome::Acknowledged);
        assert_eq!(change.state(), packet.sound_modes);
    }
    assert_eq!(sent, plan);
    assert_eq!(change.state(), to);
}

#[test]
fn sound_modes_change_stops_at_the_first_failure() {
    let (from, to) = change_example();
    let plan = create_change_plan(from, to);
    assert!(plan.len() >= 3);
    let mut change = SoundModesChange::new(from, to);
    assert_eq!(change.next_packet().unwrap().sound_modes, plan[0]);
    let next = change.on_outcome(SendOutcome::Acknowledged);
    assert_eq!(next.unwrap().sound_modes, plan[1]);
    // the second step fails: nothing more is sent and the state is the first step
    assert!(change.on_outcome(SendOutcome::Failed).is_none());
    assert!(change.next_packet().is_none());
    assert_eq!(change.state(), plan[0]);
}

#[test]
fn sound_modes_change_failing_first_keeps_the_start() {
    let (from, to) = change_example();
    let mut change = SoundModesChange::new(from, to);
    assert!(change.on_outcome(SendOutcome::Failed).is_none());
    assert_eq!(change.state(), from);
}

#[test]
fn sound_modes_change_without_difference_sends_nothing() {
    let modes = example_sound_modes();
    let change = SoundModesChange::new(modes, modes);
    assert!(change.next_packet().is_none());
    assert_eq!(change.state(), modes);
}

#[test]
fn sound_modes_block_repeats_the_ambient_sound_mode() {
    let modes = SoundModes {
        ambient_sound_mode: AmbientSoundMode::Normal,
        transparency_mode: TransparencyMode::VocalMode,
        ..example_sound_modes()
    };
    let bytes = modes.bytes();
    assert_eq!(bytes[2], bytes[0]);
    let parsed = A3959SoundModes::take(&bytes).unwrap().sound_modes;
    assert_eq!(parsed.ambient_sound_mode, AmbientSoundMode::Normal);
    assert_eq!(parsed.transparency_mode, TransparencyMode::FullyTransparent);
}
