use soundscape::config::{Scene, SoundResource};
use soundscape::engine::{EngineAction, EngineState, Role, TickOut};
use soundscape::osc::OscEvent;
use soundscape::soundscape::{load_at, Origin};

fn resource(gain: i64) -> SoundResource {
    SoundResource {
        path: "sound.wav".to_string(),
        min_threshold: 200_000,
        max_threshold: 800_000,
        gain,
        fade_in_steps: Some(5),
        fade_out_steps: Some(5),
    }
}

fn scene(name: &str, duration_ms: i64, cycle_duration_ms: u64, n_resources: usize) -> Scene {
    Scene {
        name: name.to_string(),
        duration_ms,
        cycle_duration_ms,
        resources: (0..n_resources).map(|_| resource(0)).collect(),
    }
}

fn two_scene_master() -> EngineState {
    EngineState::new_engine(
        10,
        1_000_000,
        vec![scene("first", 100, 1000, 1), scene("second", 200, 1000, 2)],
        None,
        false,
        16,
    )
}

// One metro tick plus, when asked for, the update cycle that follows it:
// phase advance, command drain, automation at the given curve value.
fn tick(e: &mut EngineState, vol: i64) -> (TickOut, Vec<EngineAction>, Vec<usize>) {
    let out = e.handle_tick();
    let mut acts = Vec::new();
    let mut dropped = Vec::new();
    if out.run_update {
        e.step_phase();
        acts = e.drain_commands(true);
        dropped = e.run_automation(vol);
    }
    (out, acts, dropped)
}

#[test]
fn initial_commands_in_order() {
    let mut e = two_scene_master();
    assert_eq!(e.elapsed_ms, 0);
    assert!(matches!(e.role, Role::Master));
    assert_eq!(e.master_timeout_ms, -1);
    assert!(e.schedule_live);
    let c1 = e.future_commands.pop().unwrap();
    let c2 = e.future_commands.pop().unwrap();
    let c3 = e.future_commands.pop().unwrap();
    assert_eq!(c1, load_at(0, Origin::Internal, 0));
    assert_eq!(c2.at_tick, 0);
    assert_eq!(c3.at_tick, 0);
    assert_eq!(e.future_commands.pop(), None);
}

// The first update cycle loads the first scene: its voices join the active
// set, the structure curve is replaced, and the master announces the next
// scene to its subscribers.
#[test]
fn first_load_announces_and_adds_voices() {
    let mut e = two_scene_master();
    let (out, acts, _) = tick(&mut e, 0);
    assert_eq!(out.broadcast_alive, Some(10));
    assert!(out.run_update);
    assert_eq!(e.active_voices.len(), 1);
    assert!(acts.contains(&EngineAction::ReplaceStructure(0)));
    assert!(acts.contains(&EngineAction::StartSceneVoice(0, 0, 0)));
    // next scene is 1, due one step after this scene's 100 ms lifetime runs
    // out at 110 ms
    assert!(acts.contains(&EngineAction::BroadcastSceneChange(1, 120)));
}

// Scene rotation: with lifetimes of 100 and 200 ms and a 10 ms metro, the
// first scene retires at 110 ms, the second loads at 120 ms, and after 30
// ticks the active voices are exactly the second scene's.
#[test]
fn rotation_reaches_the_second_scene() {
    let mut e = two_scene_master();
    for t in 1..=30u32 {
        tick(&mut e, 0);
        match t {
            1 => assert_eq!(e.active_voices.len(), 1),
            10 => assert_eq!(e.active_voices.len(), 1),
            11 => assert_eq!(e.active_voices.len(), 0),
            12 => assert_eq!(e.active_voices.len(), 2),
            _ => {},
        }
    }
    assert_eq!(e.elapsed_ms, 300);
    assert_eq!(e.active_voices.len(), 2);
    // the second scene's voices carry fresh sink names
    assert_eq!(e.active_voices[0].sink_id, 1);
    assert_eq!(e.active_voices[1].sink_id, 2);
}

// A master emits one heartbeat per tick carrying its advanced clock.
#[test]
fn master_heartbeats_every_tick() {
    let mut e = two_scene_master();
    let mut alive = Vec::new();
    for _ in 0..3 {
        let out = e.handle_tick();
        alive.push(out.broadcast_alive);
    }
    assert_eq!(alive, vec![Some(10), Some(20), Some(30)]);
}

fn slave_engine() -> EngineState {
    EngineState::new_engine(
        10,
        1_000_000,
        vec![scene("first", 100, 1000, 1), scene("second", 200, 1000, 2)],
        None,
        true,
        16,
    )
}

// Takeover: a slave that hears nothing holds its clock for exactly 101
// ticks of a 10 ms metro; the 101st tick runs the timer below zero and from
// the next tick on the slave advances its own clock.
#[test]
fn slave_takeover_after_101_ticks() {
    let mut e = slave_engine();
    e.handle_osc(OscEvent::MasterAlive(500));
    assert_eq!(e.elapsed_ms, 500);
    assert_eq!(e.master_timeout_ms, 1000);
    for _ in 0..100 {
        let out = e.handle_tick();
        assert!(!out.run_update);
        assert_eq!(out.broadcast_alive, None);
    }
    assert_eq!(e.master_timeout_ms, 0);
    assert_eq!(e.elapsed_ms, 500);
    let out = e.handle_tick();
    assert!(!out.run_update);
    assert!(e.master_timeout_ms < 0);
    assert_eq!(e.elapsed_ms, 500);
    let out2 = e.handle_tick();
    assert!(out2.run_update);
    assert_eq!(e.elapsed_ms, 510);
}

// An autonomous slave executes commands against its own clock: a load
// queued for tick 2000 fires once the self-advanced clock reaches it.
#[test]
fn autonomous_slave_fires_queued_load() {
    let mut e = slave_engine();
    // leave only the autonomously queued load in play
    while e.future_commands.pop().is_some() {}
    e.handle_osc(OscEvent::MasterAlive(500));
    for _ in 0..101 {
        e.handle_tick();
    }
    e.future_commands.push(load_at(0, Origin::Internal, 2000));
    while e.elapsed_ms < 2000 {
        let before = e.active_voices.len();
        tick(&mut e, 0);
        if e.elapsed_ms < 2000 {
            assert_eq!(e.active_voices.len(), before);
        }
    }
    assert_eq!(e.elapsed_ms, 2000);
    assert_eq!(e.active_voices.len(), 1);
}

// A slave with a live master ignores its own rotation's loads but accepts
// remote ones.
#[test]
fn slave_defers_to_live_master() {
    let mut e = slave_engine();
    e.handle_osc(OscEvent::MasterAlive(0));
    // the master is alive, so the slave's clock does not advance on ticks;
    // drive the update cycle directly as heartbeats would
    e.step_phase();
    e.drain_commands(true);
    assert_eq!(e.active_voices.len(), 0);
    e.handle_osc(OscEvent::SceneChange(1, 0));
    e.drain_commands(true);
    assert_eq!(e.active_voices.len(), 2);
}

// The background scene loads under the rotation: its voices play at the
// default level at once, and the master tells its subscribers.
#[test]
fn background_scene_loads_and_plays() {
    let mut e = EngineState::new_engine(
        10,
        800_000,
        vec![scene("first", 100, 1000, 1)],
        Some(scene("background", 100, 1000, 1)),
        false,
        16,
    );
    let (_, acts, _) = tick(&mut e, 0);
    assert!(acts.contains(&EngineAction::BroadcastRefreshBackground));
    // the rotation's voice took sink 0, the background voice sink 1
    assert!(acts.contains(&EngineAction::StartBackgroundVoice(1, 0)));
    assert_eq!(e.background_voices.len(), 1);
    assert!(!e.background_voices[0].is_paused);
    assert_eq!(e.background_voices[0].volume, 800_000);
}

// Retired voices fade out over their own step counts and their sinks are
// handed back once the fade finishes.
#[test]
fn retired_voices_fade_and_drop() {
    let mut e = two_scene_master();
    tick(&mut e, 500_000);  // load first scene; its voice goes live
    let mut all_dropped = Vec::new();
    for _ in 2..=30u32 {
        let (_, _, dropped) = tick(&mut e, 500_000);
        all_dropped.extend(dropped);
    }
    // the first scene's voice retired at 110 ms and finished its 5-step
    // fade-out; its sink came back
    assert!(all_dropped.contains(&0));
    assert!(e.retired_voices.is_empty());
}

// The schedule answer is only taken up when a CheckSchedule command fires.
#[test]
fn check_schedule_updates_liveness() {
    let mut e = two_scene_master();
    e.handle_tick();
    e.step_phase();
    e.drain_commands(false);
    e.run_automation(0);
    assert!(!e.schedule_live);
    // the next check is queued 10 s out; until then the answer is held
    e.handle_tick();
    e.step_phase();
    e.drain_commands(true);
    assert!(!e.schedule_live);
    while e.elapsed_ms < 10_010 {
        e.handle_tick();
        e.step_phase();
        e.drain_commands(true);
    }
    assert!(e.schedule_live);
}

// Determinism: two engines in equal states fed the same ticks, control
// events and curve samples stay bit-equal in clock, phase and voices.
#[test]
fn equal_histories_give_equal_engines() {
    let mut a = two_scene_master();
    let mut b = two_scene_master();
    let vols = [0i64, 500_000, 900_000, 500_000, 100_000];
    for i in 0..40usize {
        let vol = vols[i % vols.len()];
        tick(&mut a, vol);
        tick(&mut b, vol);
    }
    assert_eq!(a.elapsed_ms, b.elapsed_ms);
    assert_eq!(a.structure_phase, b.structure_phase);
    assert_eq!(a.active_voices, b.active_voices);
    assert_eq!(a.retired_voices, b.retired_voices);
    assert_eq!(a.master_timeout_ms, b.master_timeout_ms);
}
