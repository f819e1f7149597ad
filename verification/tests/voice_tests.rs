use soundscape::config::SoundResource;
use soundscape::soundscape::{
    manage_source_activity, play, resource_to_sound_source, retire_resources, set_volume,
    step_structure, update, volume_fade, SoundSource, Structure,
};

fn resource(min: i64, max: i64, gain: i64, fade: u32) -> SoundResource {
    SoundResource {
        path: "sound.wav".to_string(),
        min_threshold: min,
        max_threshold: max,
        gain,
        fade_in_steps: Some(fade),
        fade_out_steps: Some(fade),
    }
}

#[test]
fn resource_defaults() {
    let res = SoundResource {
        path: "sound.wav".to_string(),
        min_threshold: 200_000,
        max_threshold: 800_000,
        gain: 0,
        fade_in_steps: None,
        fade_out_steps: None,
    };
    let v = resource_to_sound_source(&res, 7);
    assert_eq!(v.sink_id, 7);
    assert_eq!(v.fade_in_steps, 500);
    assert_eq!(v.fade_out_steps, 500);
    assert_eq!(v.volume, 0);
    assert_eq!(v.volume_updates, 0);
    assert!(!v.is_live);
    assert!(v.is_paused);
}

// A fade over `steps` ticks lands exactly on its target, even when the
// travel does not divide evenly.
#[test]
fn ramp_lands_on_target() {
    let res = resource(200_000, 800_000, 0, 5);
    let mut v = resource_to_sound_source(&res, 0);
    volume_fade(&mut v, 1_000_000, 7);
    assert_eq!(v.volume_updates, 7);
    assert_eq!(v.volume_step, 1_000_000 / 7);
    for _ in 0..7 {
        update(&mut v);
    }
    assert_eq!(v.volume, 1_000_000);
    assert_eq!(v.volume_updates, 0);
    // and back down again
    volume_fade(&mut v, 250_000, 3);
    for _ in 0..3 {
        update(&mut v);
    }
    assert_eq!(v.volume, 250_000);
    assert_eq!(v.volume_updates, 0);
}

#[test]
fn zero_step_fade_is_instant() {
    let res = resource(0, 1, 0, 5);
    let mut v = resource_to_sound_source(&res, 0);
    volume_fade(&mut v, 300_000, 0);
    assert_eq!(v.volume_updates, 1);
    update(&mut v);
    assert_eq!(v.volume, 300_000);
    assert_eq!(v.volume_updates, 0);
}

#[test]
fn update_without_ramp_is_a_no_op() {
    let res = resource(0, 1, 0, 5);
    let mut v = resource_to_sound_source(&res, 0);
    let before = v;
    update(&mut v);
    assert_eq!(v, before);
}

// The activation table: a voice enters the threshold band and goes live
// with a fade-in; leaving the band starts the fade-out.
#[test]
fn activation_follows_the_curve() {
    let res = resource(200_000, 800_000, 0, 5);
    let mut voices = vec![resource_to_sound_source(&res, 0)];
    // five samples inside the band
    for tick in 0..5 {
        manage_source_activity(&mut voices, 500_000, 1_000_000, -1, true);
        assert!(voices[0].is_live);
        if tick == 0 {
            assert_eq!(voices[0].volume_updates, 5);
            assert_eq!(voices[0].volume_target, 1_000_000);
        }
    }
    // then one outside: the voice drops out and fades to silence
    manage_source_activity(&mut voices, 900_000, 1_000_000, -1, true);
    assert!(!voices[0].is_live);
    assert_eq!(voices[0].volume_target, 0);
    assert_eq!(voices[0].volume_updates, 5);
}

// A sleeping schedule forces every live voice out.
#[test]
fn schedule_sleep_silences_voices() {
    let res = resource(200_000, 800_000, 0, 4);
    let mut voices = vec![resource_to_sound_source(&res, 0)];
    manage_source_activity(&mut voices, 500_000, 1_000_000, -1, true);
    assert!(voices[0].is_live);
    manage_source_activity(&mut voices, 500_000, 1_000_000, -1, false);
    assert!(!voices[0].is_live);
    assert_eq!(voices[0].volume_target, 0);
}

// A voice that is not live sees no transition: the fade-out it is already
// running keeps its course instead of restarting each tick.
#[test]
fn fade_out_is_not_restarted() {
    let res = resource(200_000, 800_000, 0, 4);
    let mut voices = vec![resource_to_sound_source(&res, 0)];
    manage_source_activity(&mut voices, 500_000, 1_000_000, -1, true);
    manage_source_activity(&mut voices, 500_000, 1_000_000, -1, false);
    assert_eq!(voices[0].volume_updates, 4);
    for expected in [3u32, 2, 1, 0] {
        manage_source_activity(&mut voices, 500_000, 1_000_000, -1, false);
        assert_eq!(voices[0].volume_updates, expected);
    }
    assert_eq!(voices[0].volume, 0);
}

// The gain is added onto the default level when a voice goes live.
#[test]
fn gain_raises_the_fade_target() {
    let res = resource(200_000, 800_000, 250_000, 4);
    let mut voices = vec![resource_to_sound_source(&res, 0)];
    manage_source_activity(&mut voices, 500_000, 1_000_000, -1, true);
    assert_eq!(voices[0].volume_target, 1_250_000);
}

#[test]
fn retire_moves_and_fades() {
    let res = resource(0, 1_000_000, 0, 6);
    let mut active = vec![resource_to_sound_source(&res, 0), resource_to_sound_source(&res, 1)];
    active[0].volume = 900_000;
    let mut retired: Vec<SoundSource> = Vec::new();
    retire_resources(&mut active, &mut retired);
    assert!(active.is_empty());
    assert_eq!(retired.len(), 2);
    assert_eq!(retired[0].volume_target, 0);
    assert_eq!(retired[0].volume_updates, 6);
    assert_eq!(retired[0].volume_step, -(900_000 / 6));
    assert_eq!(retired[1].volume_updates, 6);
}

#[test]
fn play_and_set_volume_touch_every_sink() {
    let res = resource(0, 1_000_000, 0, 6);
    let mut voices = vec![resource_to_sound_source(&res, 0), resource_to_sound_source(&res, 1)];
    play(&mut voices);
    assert!(voices.iter().all(|v| !v.is_paused));
    set_volume(&mut voices, 750_000);
    assert!(voices.iter().all(|v| v.volume == 750_000));
}

// The curve phase advances by the metro step and wraps past the cycle end:
// with a 100 ms cycle and a 30 ms step the phase walks 30, 60, 90, 0.
#[test]
fn structure_phase_wraps() {
    let mut phase = Structure { duration: 100, step: 0 };
    let mut seen = Vec::new();
    for _ in 0..4 {
        step_structure(&mut phase, 30);
        seen.push(phase.step);
    }
    assert_eq!(seen, vec![30, 60, 90, 0]);
}

// A phase landing exactly on the cycle end stays there; only exceeding it
// wraps.
#[test]
fn structure_phase_boundary() {
    let mut phase = Structure { duration: 90, step: 60 };
    step_structure(&mut phase, 30);
    assert_eq!(phase.step, 90);
    step_structure(&mut phase, 30);
    assert_eq!(phase.step, 0);
}
