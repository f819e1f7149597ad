//! The scene engine: one node's replication role, logical clock, command
//! queue, voices and curve phase, with the handlers that ticks, control
//! events and update cycles drive.
//!
//! Every handler is a deterministic function of the state and its inputs,
//! stated as such against the ghost model [`EngineModel`]; the event loop
//! around the engine only performs what the handlers decide.

use vstd::prelude::*;

use crate::config::Scene;
use crate::osc::OscEvent;
use crate::queue::CommandQueue;
use crate::queue::first_min_index;
use crate::queue::count_due;
use crate::queue::lemma_count_due_push;
use crate::queue::lemma_count_due_remove;
use crate::soundscape::Cmd;
use crate::soundscape::FutureCmd;
use crate::soundscape::Origin;
use crate::soundscape::SoundSource;
use crate::soundscape::Structure;
use crate::soundscape::add_resources;
use crate::soundscape::check_schedule;
use crate::soundscape::is_cmd_now;
use crate::soundscape::load_at;
use crate::soundscape::play;
use crate::soundscape::play_at;
use crate::soundscape::resources_wf;
use crate::soundscape::retire_at;
use crate::soundscape::retire_resources;
use crate::soundscape::sat_sink_id;
use crate::soundscape::seq_fade_out;
use crate::soundscape::seq_new_voices;
use crate::soundscape::seq_play;
use crate::soundscape::seq_set_volume;
use crate::soundscape::set_volume;
use crate::soundscape::spec_resource_voice;
use crate::soundscape::voice_wf;
use crate::soundscape::voices_wf;
use crate::GAIN_LIMIT;
use crate::MAX_DURATION_MS;
use crate::MAX_ELAPSED_MS;
use crate::MAX_STEP_MS;

verus! {

/// The replication role a node was started with.
#[derive(Debug, Clone, Copy, PartialEq, Eq, Structural)]
pub enum Role {
    /// Advances the shared clock and emits heartbeats and scene changes.
    Master,
    /// Mirrors the master's timeline; takes over on master loss.
    Slave,
}

/// The whole engine state: configuration the node was started with, and the
/// mutable scheduling state the handlers drive.
#[derive(Debug)]
pub struct EngineState {
    /// Tick period, milliseconds.
    pub metro_step_ms: i64,
    /// Base volume applied to live voices, millionths of full scale.
    pub default_level: i64,
    /// The pre-validated scenes, in rotation order.
    pub scenes: Vec<Scene>,
    /// The pre-validated background scene, if one is configured.
    pub background_scene: Option<Scene>,
    pub role: Role,
    /// Engine time, milliseconds.
    pub elapsed_ms: i64,
    /// On a slave: time left until the master is presumed lost; negative
    /// once the slave runs autonomously.
    pub master_timeout_ms: i64,
    /// Whether the daily schedule currently allows audio.
    pub schedule_live: bool,
    pub active_voices: Vec<SoundSource>,
    pub retired_voices: Vec<SoundSource>,
    pub background_voices: Vec<SoundSource>,
    pub future_commands: CommandQueue,
    pub structure_phase: Structure,
    /// The next backend sink name to hand out.
    pub next_sink_id: usize,
}

/// The mathematical shadow of [`EngineState`].
#[verifier::ext_equal]
pub ghost struct EngineModel {
    pub metro_step_ms: i64,
    pub default_level: i64,
    pub scenes: Seq<Scene>,
    pub background_scene: Option<Scene>,
    pub role: Role,
    pub elapsed_ms: i64,
    pub master_timeout_ms: i64,
    pub schedule_live: bool,
    pub active_voices: Seq<SoundSource>,
    pub retired_voices: Seq<SoundSource>,
    pub background_voices: Seq<SoundSource>,
    pub future_commands: Seq<FutureCmd>,
    pub structure_phase: Structure,
    pub next_sink_id: usize,
}

impl View for EngineState {
    type V = EngineModel;

    open spec fn view(&self) -> EngineModel {
        EngineModel {
            metro_step_ms: self.metro_step_ms,
            default_level: self.default_level,
            scenes: self.scenes@,
            background_scene: self.background_scene,
            role: self.role,
            elapsed_ms: self.elapsed_ms,
            master_timeout_ms: self.master_timeout_ms,
            schedule_live: self.schedule_live,
            active_voices: self.active_voices@,
            retired_voices: self.retired_voices@,
            background_voices: self.background_voices@,
            future_commands: self.future_commands@,
            structure_phase: self.structure_phase,
            next_sink_id: self.next_sink_id,
        }
    }
}

/// A scene the engine can rotate through: positive bounded lifetime, bounded
/// cycle, gains within the engine's bound.
pub open spec fn scene_ok(s: Scene) -> bool {
    &&& 1 <= s.duration_ms <= MAX_DURATION_MS
    &&& s.cycle_duration_ms <= MAX_DURATION_MS as u64
    &&& resources_wf(s.resources@)
}

/// A queued command the engine can execute: any load names a real scene.
pub open spec fn cmd_ok(c: FutureCmd, n_scenes: int) -> bool {
    match c.command {
        Cmd::Load(idx, _) => idx < n_scenes,
        _ => true,
    }
}

/// All queued commands are executable.
pub open spec fn cmds_ok(s: Seq<FutureCmd>, n_scenes: int) -> bool {
    forall|i: int| 0 <= i < s.len() ==> cmd_ok(#[trigger] s[i], n_scenes)
}

/// Well-formedness of the engine: bounded clock and period, at least one
/// scene, every scene and voice well-formed, every queued command
/// executable, and the curve phase within its cycle.
pub open spec fn model_wf(m: EngineModel) -> bool {
    &&& 1 <= m.metro_step_ms <= MAX_STEP_MS
    &&& 0 <= m.default_level <= GAIN_LIMIT
    &&& 0 <= m.elapsed_ms <= MAX_ELAPSED_MS
    &&& -MAX_STEP_MS <= m.master_timeout_ms <= 1000
    &&& 1 <= m.scenes.len()
    &&& (forall|i: int| 0 <= i < m.scenes.len() ==> scene_ok(#[trigger] m.scenes[i]))
    &&& (m.background_scene matches Some(b) ==> scene_ok(b))
    &&& voices_wf(m.active_voices)
    &&& voices_wf(m.retired_voices)
    &&& voices_wf(m.background_voices)
    &&& cmds_ok(m.future_commands, m.scenes.len() as int)
    &&& m.structure_phase.step <= m.structure_phase.duration
    &&& m.structure_phase.duration <= MAX_DURATION_MS as u64
}

/// What one tick asks of the surroundings.
#[derive(Debug, Clone, Copy, PartialEq, Eq, Structural)]
pub struct TickOut {
    /// Whether an update cycle should follow this tick.
    pub run_update: bool,
    /// The heartbeat to broadcast to the subscribers, if any.
    pub broadcast_alive: Option<i64>,
}

/// One metro tick: a master, or a slave whose master is lost, advances the
/// clock and asks for an update cycle; a master broadcasts its heartbeat; a
/// slave still counting runs its takeover timer down.
pub open spec fn spec_handle_tick(m: EngineModel) -> (EngineModel, TickOut) {
    let advance = m.role is Master || m.master_timeout_ms < 0;
    let elapsed2 = if advance {
        (m.elapsed_ms + m.metro_step_ms) as i64
    } else {
        m.elapsed_ms
    };
    let timeout2 = if m.role is Slave && m.master_timeout_ms >= 0 {
        (m.master_timeout_ms - m.metro_step_ms) as i64
    } else {
        m.master_timeout_ms
    };
    (
        EngineModel { elapsed_ms: elapsed2, master_timeout_ms: timeout2, ..m },
        TickOut {
            run_update: advance,
            broadcast_alive: if m.role is Master {
                Some(elapsed2)
            } else {
                None
            },
        },
    )
}

impl EngineState {
    /// Handles one metro tick.
    pub fn handle_tick(&mut self) -> (out: TickOut)
        requires
            model_wf(old(self)@),
            old(self)@.elapsed_ms + old(self)@.metro_step_ms <= MAX_ELAPSED_MS,
        ensures
            final(self)@ == spec_handle_tick(old(self)@).0,
            out == spec_handle_tick(old(self)@).1,
            model_wf(final(self)@),
    {
        let mut run_update = false;
        let mut broadcast_alive: Option<i64> = None;
        let is_master = match self.role {
            Role::Master => true,
            Role::Slave => false,
        };
        if is_master || self.master_timeout_ms < 0 {
            self.elapsed_ms = self.elapsed_ms + self.metro_step_ms;
            run_update = true;
        }
        if is_master {
            broadcast_alive = Some(self.elapsed_ms);
        } else {
            if self.master_timeout_ms >= 0 {
                self.master_timeout_ms = self.master_timeout_ms - self.metro_step_ms;
            }
        }
        TickOut { run_update, broadcast_alive }
    }
}

/// One decoded control event: a heartbeat rewinds a slave's takeover timer
/// and syncs its clock; a scene change or background refresh becomes a
/// queued command; the rest is ignored.
pub open spec fn spec_handle_osc(m: EngineModel, event: OscEvent) -> EngineModel {
    match event {
        OscEvent::MasterAlive(new_time) => {
            if m.role is Slave {
                EngineModel { master_timeout_ms: 1000, elapsed_ms: new_time, ..m }
            } else {
                m
            }
        },
        OscEvent::SceneChange(index, delta) => {
            EngineModel {
                future_commands: m.future_commands.push(
                    FutureCmd { command: Cmd::Load(index, Origin::Remote), at_tick: delta },
                ),
                ..m
            }
        },
        OscEvent::RefreshBackground => {
            EngineModel {
                future_commands: m.future_commands.push(
                    FutureCmd { command: Cmd::LoadBackground, at_tick: 0 },
                ),
                ..m
            }
        },
        OscEvent::Volume => m,
        OscEvent::NoAction => m,
    }
}

impl EngineState {
    /// Handles one decoded control event. A heartbeat clock or scene index
    /// from the wire must have been validated against the engine's bounds.
    pub fn handle_osc(&mut self, event: OscEvent)
        requires
            model_wf(old(self)@),
            match event {
                OscEvent::MasterAlive(new_time) => 0 <= new_time <= MAX_ELAPSED_MS,
                OscEvent::SceneChange(index, _) => index < old(self)@.scenes.len(),
                _ => true,
            },
        ensures
            final(self)@ == spec_handle_osc(old(self)@, event),
            model_wf(final(self)@),
    {
        match event {
            OscEvent::MasterAlive(new_time) => {
                let is_master = match self.role {
                    Role::Master => true,
                    Role::Slave => false,
                };
                if !is_master {
                    self.master_timeout_ms = 1000;
                    self.elapsed_ms = new_time;
                }
            },
            OscEvent::SceneChange(index, delta) => {
                self.future_commands.push(
                    crate::soundscape::load_at(index, Origin::Remote, delta),
                );
            },
            OscEvent::RefreshBackground => {
                self.future_commands.push(crate::soundscape::load_background(0));
            },
            OscEvent::Volume => {},
            OscEvent::NoAction => {},
        }
    }
}

/// What the engine asks its surroundings to do while draining commands:
/// control messages to broadcast and backend sinks to create.
#[derive(Debug, Clone, Copy, PartialEq, Eq, Structural)]
pub enum EngineAction {
    /// Tell the subscribers which scene to load at which tick.
    BroadcastSceneChange(usize, i64),
    /// Tell the subscribers to reload their background scene.
    BroadcastRefreshBackground,
    /// The structure curve is now the given scene's: evaluate that scene's
    /// spline against the engine's curve phase from here on.
    ReplaceStructure(usize),
    /// Create the backend sink named first for the given scene and resource
    /// index and append that resource's audio to it.
    StartSceneVoice(usize, usize, usize),
    /// Create the backend sink named first for the given background resource
    /// index and append that resource's audio to it.
    StartBackgroundVoice(usize, usize),
}

/// A `Load`: ignored on a slave with a live master when it came from the
/// node's own rotation; otherwise the scene's voices join the active set,
/// the curve phase restarts on the new cycle, playback and retirement are
/// queued, and whoever owns the rotation queues the next load. A master also
/// broadcasts the scene change.
pub open spec fn spec_apply_load(m: EngineModel, n: usize, origin: Origin) -> (
    EngineModel,
    Seq<EngineAction>,
) {
    if origin is Internal && m.role is Slave && m.master_timeout_ms > 0 {
        (m, Seq::empty())
    } else {
        let scene = m.scenes[n as int];
        let count = scene.resources@.len() as int;
        let t_play = (m.elapsed_ms + m.metro_step_ms) as i64;
        let t_ret = (m.elapsed_ms + scene.duration_ms) as i64;
        let t_next = (m.elapsed_ms + scene.duration_ms + m.metro_step_ms) as i64;
        let next_scene = ((n as int + 1) % (m.scenes.len() as int)) as usize;
        let q1 = m.future_commands.push(FutureCmd { command: Cmd::Play, at_tick: t_play }).push(
            FutureCmd { command: Cmd::Retire, at_tick: t_ret },
        );
        let q2 = if m.role is Master || m.master_timeout_ms < 0 {
            q1.push(FutureCmd { command: Cmd::Load(next_scene, Origin::Internal), at_tick: t_next })
        } else {
            q1
        };
        let starts = seq![EngineAction::ReplaceStructure(n)] + Seq::new(
            count as nat,
            |j: int| EngineAction::StartSceneVoice(sat_sink_id(m.next_sink_id, j), n, j as usize),
        );
        let acts = if m.role is Master {
            starts.push(EngineAction::BroadcastSceneChange(next_scene, t_next))
        } else {
            starts
        };
        (
            EngineModel {
                active_voices: m.active_voices + seq_new_voices(scene, m.next_sink_id),
                structure_phase: Structure { duration: scene.cycle_duration_ms, step: 0 },
                future_commands: q2,
                next_sink_id: sat_sink_id(m.next_sink_id, count),
                ..m
            },
            acts,
        )
    }
}

/// A `LoadBackground`: a master first tells its subscribers; the old
/// background voices move into retirement; a configured background scene
/// comes back as fresh voices, playing at the default level.
pub open spec fn spec_apply_load_background(m: EngineModel) -> (EngineModel, Seq<EngineAction>) {
    let acts0: Seq<EngineAction> = if m.role is Master {
        seq![EngineAction::BroadcastRefreshBackground]
    } else {
        Seq::empty()
    };
    let retired2 = seq_fade_out(m.retired_voices + m.background_voices);
    match m.background_scene {
        Some(scene) => {
            let count = scene.resources@.len() as int;
            let starts = Seq::new(
                count as nat,
                |j: int|
                    EngineAction::StartBackgroundVoice(sat_sink_id(m.next_sink_id, j), j as usize),
            );
            (
                EngineModel {
                    background_voices: seq_set_volume(
                        seq_play(seq_new_voices(scene, m.next_sink_id)),
                        m.default_level,
                    ),
                    retired_voices: retired2,
                    next_sink_id: sat_sink_id(m.next_sink_id, count),
                    ..m
                },
                acts0 + starts,
            )
        },
        None => (
            EngineModel { background_voices: Seq::empty(), retired_voices: retired2, ..m },
            acts0,
        ),
    }
}

/// What one command does to the engine, and the actions it asks for.
pub open spec fn spec_apply_cmd(m: EngineModel, cmd: Cmd, schedule_live_now: bool) -> (
    EngineModel,
    Seq<EngineAction>,
) {
    match cmd {
        Cmd::Play => (
            EngineModel { active_voices: seq_play(m.active_voices), ..m },
            Seq::empty(),
        ),
        Cmd::Load(n, origin) => spec_apply_load(m, n, origin),
        Cmd::LoadBackground => spec_apply_load_background(m),
        Cmd::Retire => (
            EngineModel {
                active_voices: Seq::empty(),
                retired_voices: seq_fade_out(m.retired_voices + m.active_voices),
                ..m
            },
            Seq::empty(),
        ),
        Cmd::CheckSchedule => (
            EngineModel {
                schedule_live: schedule_live_now,
                future_commands: m.future_commands.push(
                    FutureCmd { command: Cmd::CheckSchedule, at_tick: (m.elapsed_ms + 10000) as i64 },
                ),
                ..m
            },
            Seq::empty(),
        ),
    }
}

/// A load names a real scene.
pub open spec fn cmd_in_range(cmd: Cmd, n_scenes: int) -> bool {
    match cmd {
        Cmd::Load(idx, _) => idx < n_scenes,
        _ => true,
    }
}

/// Voices stay well-formed under the sequence transformers the commands
/// apply.
proof fn lemma_seq_voices_wf(v: Seq<SoundSource>)
    requires
        voices_wf(v),
    ensures
        voices_wf(seq_play(v)),
        voices_wf(seq_fade_out(v)),
{
    assert forall|i: int| 0 <= i < v.len() implies voice_wf(#[trigger] seq_fade_out(v)[i]) by {
        crate::soundscape::lemma_fade_wf(v[i], 0, v[i].fade_out_steps);
    }
    assert(forall|i: int| 0 <= i < v.len() ==> voice_wf(#[trigger] seq_play(v)[i]));
}

/// A freshly loaded background set — new voices, playing, at the default
/// level — is well-formed.
proof fn lemma_fresh_background_wf(scene: Scene, base: usize, level: i64)
    requires
        resources_wf(scene.resources@),
        0 <= level <= GAIN_LIMIT,
    ensures
        voices_wf(seq_set_volume(seq_play(seq_new_voices(scene, base)), level)),
{
    let fresh = seq_new_voices(scene, base);
    assert forall|i: int|
        0 <= i < fresh.len() implies voice_wf(
        #[trigger] seq_set_volume(seq_play(fresh), level)[i],
    ) by {
        assert(fresh[i] == spec_resource_voice(scene.resources@[i], sat_sink_id(base, i)));
    }
}

/// Fresh scene voices are well-formed.
proof fn lemma_new_voices_wf(scene: Scene, base: usize)
    requires
        resources_wf(scene.resources@),
    ensures
        voices_wf(seq_new_voices(scene, base)),
        forall|i: int|
            0 <= i < seq_new_voices(scene, base).len() ==> (#[trigger] seq_new_voices(scene, base)[i]).volume_updates == 0,
{
}

/// Applying one executable command preserves well-formedness, holds the
/// clock and the configuration still, and queues only commands that are not
/// yet due.
proof fn lemma_apply_cmd_model(m: EngineModel, cmd: Cmd, schedule_live_now: bool)
    requires
        model_wf(m),
        cmd_in_range(cmd, m.scenes.len() as int),
    ensures
        model_wf(spec_apply_cmd(m, cmd, schedule_live_now).0),
        spec_apply_cmd(m, cmd, schedule_live_now).0.elapsed_ms == m.elapsed_ms,
        spec_apply_cmd(m, cmd, schedule_live_now).0.metro_step_ms == m.metro_step_ms,
        spec_apply_cmd(m, cmd, schedule_live_now).0.scenes == m.scenes,
        spec_apply_cmd(m, cmd, schedule_live_now).0.role == m.role,
        spec_apply_cmd(m, cmd, schedule_live_now).0.master_timeout_ms == m.master_timeout_ms,
        count_due(spec_apply_cmd(m, cmd, schedule_live_now).0.future_commands, m.elapsed_ms)
            == count_due(m.future_commands, m.elapsed_ms),
{
    match cmd {
        Cmd::Play => {
            lemma_seq_voices_wf(m.active_voices);
        },
        Cmd::Load(n, origin) => {
            if !(origin is Internal && m.role is Slave && m.master_timeout_ms > 0) {
                let scene = m.scenes[n as int];
                let count = scene.resources@.len() as int;
                lemma_new_voices_wf(scene, m.next_sink_id);
                let t_play = (m.elapsed_ms + m.metro_step_ms) as i64;
                let t_ret = (m.elapsed_ms + scene.duration_ms) as i64;
                let t_next = (m.elapsed_ms + scene.duration_ms + m.metro_step_ms) as i64;
                let next_scene = ((n as int + 1) % (m.scenes.len() as int)) as usize;
                lemma_count_due_push(
                    m.future_commands,
                    m.elapsed_ms,
                    FutureCmd { command: Cmd::Play, at_tick: t_play },
                );
                let q1a = m.future_commands.push(FutureCmd { command: Cmd::Play, at_tick: t_play });
                lemma_count_due_push(
                    q1a,
                    m.elapsed_ms,
                    FutureCmd { command: Cmd::Retire, at_tick: t_ret },
                );
                let q1 = q1a.push(FutureCmd { command: Cmd::Retire, at_tick: t_ret });
                lemma_count_due_push(
                    q1,
                    m.elapsed_ms,
                    FutureCmd {
                        command: Cmd::Load(next_scene, Origin::Internal),
                        at_tick: t_next,
                    },
                );
                assert(0 <= (n as int + 1) % (m.scenes.len() as int) < m.scenes.len() as int) by (
                nonlinear_arith)
                    requires
                        m.scenes.len() >= 1,
                        n as int >= 0,
                ;
                assert forall|i: int|
                    0 <= i < m.active_voices.len() + count implies voice_wf(
                    #[trigger] (m.active_voices + seq_new_voices(scene, m.next_sink_id))[i],
                ) by {
                    if i < m.active_voices.len() {
                        assert(voice_wf(m.active_voices[i]));
                    } else {
                        assert(voice_wf(seq_new_voices(scene, m.next_sink_id)[i
                            - m.active_voices.len()]));
                    }
                }
            }
        },
        Cmd::LoadBackground => {
            lemma_seq_voices_wf(m.retired_voices + m.background_voices);
            match m.background_scene {
                Some(scene) => {
                    lemma_new_voices_wf(scene, m.next_sink_id);
                    lemma_fresh_background_wf(scene, m.next_sink_id, m.default_level);
                },
                None => {},
            }
        },
        Cmd::Retire => {
            lemma_seq_voices_wf(m.retired_voices + m.active_voices);
        },
        Cmd::CheckSchedule => {
            lemma_count_due_push(
                m.future_commands,
                m.elapsed_ms,
                FutureCmd { command: Cmd::CheckSchedule, at_tick: (m.elapsed_ms + 10000) as i64 },
            );
        },
    }
}

impl EngineState {
    /// Executes one due command against the state, appending the actions it
    /// asks for.
    fn apply_cmd(&mut self, cmd: Cmd, schedule_live_now: bool, actions: &mut Vec<EngineAction>)
        requires
            model_wf(old(self)@),
            cmd_in_range(cmd, old(self)@.scenes.len() as int),
        ensures
            final(self)@ == spec_apply_cmd(old(self)@, cmd, schedule_live_now).0,
            final(actions)@ == old(actions)@ + spec_apply_cmd(
                old(self)@,
                cmd,
                schedule_live_now,
            ).1,
            model_wf(final(self)@),
    {
        proof {
            lemma_apply_cmd_model(old(self)@, cmd, schedule_live_now);
        }
        match cmd {
            Cmd::Play => {
                play(&mut self.active_voices);
                proof {
                    assert(self@ =~= spec_apply_cmd(old(self)@, cmd, schedule_live_now).0);
                    assert(actions@ =~= old(actions)@ + spec_apply_cmd(
                        old(self)@,
                        cmd,
                        schedule_live_now,
                    ).1);
                }
            },
            Cmd::Load(n, origin) => {
                let is_master = match self.role {
                    Role::Master => true,
                    Role::Slave => false,
                };
                let is_internal = match origin {
                    Origin::Internal => true,
                    Origin::Remote => false,
                };
                if is_internal && !is_master && self.master_timeout_ms > 0 {
                    // a live remote master owns the rotation; ignore
                    proof {
                        assert(self@ =~= spec_apply_cmd(old(self)@, cmd, schedule_live_now).0);
                        assert(actions@ =~= old(actions)@ + spec_apply_cmd(
                            old(self)@,
                            cmd,
                            schedule_live_now,
                        ).1);
                    }
                } else {
                    let ghost base = self@.next_sink_id;
                    let scene_duration = self.scenes[n].duration_ms;
                    let cycle = self.scenes[n].cycle_duration_ms;
                    let res_count = self.scenes[n].resources.len();
                    let old_len = self.active_voices.len();
                    actions.push(EngineAction::ReplaceStructure(n));
                    let ghost acts_prefix = actions@;
                    {
                        let scene = &self.scenes[n];
                        add_resources(&mut self.active_voices, scene, &mut self.next_sink_id);
                    }
                    let new_len = self.active_voices.len();
                    for j in iter: 0..res_count
                        invariant
                            res_count == old(self)@.scenes[n as int].resources@.len(),
                            old_len + res_count == new_len,
                            new_len == self.active_voices@.len(),
                            forall|k: int|
                                0 <= k < res_count ==> (#[trigger] self.active_voices@[old_len
                                    + k]).sink_id == sat_sink_id(base, k),
                            actions@.len() == acts_prefix.len() + j,
                            forall|k: int|
                                0 <= k < acts_prefix.len() ==> actions@[k]
                                    == #[trigger] acts_prefix[k],
                            forall|k: int|
                                0 <= k < j ==> actions@[acts_prefix.len() + k]
                                    == EngineAction::StartSceneVoice(
                                    sat_sink_id(base, k),
                                    n,
                                    k as usize,
                                ),
                    {
                        let sink_id = self.active_voices[old_len + j].sink_id;
                        actions.push(EngineAction::StartSceneVoice(sink_id, n, j));
                    }
                    self.structure_phase = Structure { duration: cycle, step: 0 };
                    let t_play = self.elapsed_ms + self.metro_step_ms;
                    self.future_commands.push(play_at(t_play));
                    let t_ret = self.elapsed_ms + scene_duration;
                    self.future_commands.push(retire_at(t_ret));
                    let n_scenes = self.scenes.len();
                    proof {
                        assert(n < n_scenes);
                    }
                    let next_scene = (n + 1) % n_scenes;
                    let t_next = t_ret + self.metro_step_ms;
                    if is_master || self.master_timeout_ms < 0 {
                        self.future_commands.push(load_at(next_scene, Origin::Internal, t_next));
                    }
                    let ghost acts_with_starts = actions@;
                    if is_master {
                        actions.push(EngineAction::BroadcastSceneChange(next_scene, t_next));
                    }
                    proof {
                        let news = Seq::new(
                            res_count as nat,
                            |j: int|
                                EngineAction::StartSceneVoice(
                                    sat_sink_id(base, j),
                                    n,
                                    j as usize,
                                ),
                        );
                        assert(acts_prefix =~= old(actions)@ + seq![
                            EngineAction::ReplaceStructure(n),
                        ]);
                        assert(acts_with_starts =~= acts_prefix + news);
                        assert(acts_with_starts =~= old(actions)@ + (seq![
                            EngineAction::ReplaceStructure(n),
                        ] + news));
                        assert(self@ =~= spec_apply_cmd(old(self)@, cmd, schedule_live_now).0);
                        assert(actions@ =~= old(actions)@ + spec_apply_cmd(
                            old(self)@,
                            cmd,
                            schedule_live_now,
                        ).1);
                    }
                }
            },
            Cmd::LoadBackground => {
                let is_master = match self.role {
                    Role::Master => true,
                    Role::Slave => false,
                };
                if is_master {
                    actions.push(EngineAction::BroadcastRefreshBackground);
                }
                retire_resources(&mut self.background_voices, &mut self.retired_voices);
                let ghost base = self@.next_sink_id;
                let level = self.default_level;
                let ghost acts_prefix = actions@;
                let ghost acts0: Seq<EngineAction> = if old(self)@.role is Master {
                    seq![EngineAction::BroadcastRefreshBackground]
                } else {
                    Seq::<EngineAction>::empty()
                };
                proof {
                    assert(acts_prefix =~= old(actions)@ + acts0);
                }
                match &self.background_scene {
                    Some(scene) => {
                        let res_count = scene.resources.len();
                        add_resources(&mut self.background_voices, scene, &mut self.next_sink_id);
                        for j in iter: 0..res_count
                            invariant
                                res_count == self.background_voices@.len(),
                                forall|k: int|
                                    0 <= k < res_count ==> (#[trigger] self.background_voices@[
                                        k]).sink_id == sat_sink_id(base, k),
                                actions@.len() == acts_prefix.len() + j,
                                forall|k: int|
                                    0 <= k < acts_prefix.len() ==> actions@[k]
                                        == #[trigger] acts_prefix[k],
                                forall|k: int|
                                    0 <= k < j ==> actions@[acts_prefix.len() + k]
                                        == EngineAction::StartBackgroundVoice(
                                        sat_sink_id(base, k),
                                        k as usize,
                                    ),
                        {
                            let sink_id = self.background_voices[j].sink_id;
                            actions.push(EngineAction::StartBackgroundVoice(sink_id, j));
                        }
                        play(&mut self.background_voices);
                        set_volume(&mut self.background_voices, level);
                        proof {
                            let starts = Seq::new(
                                scene.resources@.len(),
                                |j: int|
                                    EngineAction::StartBackgroundVoice(
                                        sat_sink_id(base, j),
                                        j as usize,
                                    ),
                            );
                            assert(actions@ =~= acts_prefix + starts);
                            assert(actions@ =~= old(actions)@ + (acts0 + starts));
                            assert(spec_apply_cmd(old(self)@, cmd, schedule_live_now).1 == acts0
                                + starts);
                        }
                    },
                    None => {},
                }
                proof {
                    assert(self@ =~= spec_apply_cmd(old(self)@, cmd, schedule_live_now).0);
                    assert(actions@ =~= old(actions)@ + spec_apply_cmd(
                        old(self)@,
                        cmd,
                        schedule_live_now,
                    ).1);
                }
            },
            Cmd::Retire => {
                retire_resources(&mut self.active_voices, &mut self.retired_voices);
                proof {
                    assert(self@ =~= spec_apply_cmd(old(self)@, cmd, schedule_live_now).0);
                    assert(actions@ =~= old(actions)@ + spec_apply_cmd(
                        old(self)@,
                        cmd,
                        schedule_live_now,
                    ).1);
                }
            },
            Cmd::CheckSchedule => {
                self.schedule_live = schedule_live_now;
                let t = self.elapsed_ms + 10000;
                self.future_commands.push(check_schedule(t));
                proof {
                    assert(self@ =~= spec_apply_cmd(old(self)@, cmd, schedule_live_now).0);
                    assert(actions@ =~= old(actions)@ + spec_apply_cmd(
                        old(self)@,
                        cmd,
                        schedule_live_now,
                    ).1);
                }
            },
        }
    }
}

/// Whether any queued command has fallen due.
pub open spec fn has_due(m: EngineModel) -> bool {
    m.future_commands.len() > 0 && m.future_commands[first_min_index(m.future_commands)].at_tick
        <= m.elapsed_ms
}

/// Removing a command keeps the rest executable.
proof fn lemma_cmds_ok_remove(s: Seq<FutureCmd>, n_scenes: int, i: int)
    requires
        cmds_ok(s, n_scenes),
        0 <= i < s.len(),
    ensures
        cmds_ok(s.remove(i), n_scenes),
{
    assert forall|j: int| 0 <= j < s.remove(i).len() implies cmd_ok(
        #[trigger] s.remove(i)[j],
        n_scenes,
    ) by {
        if j < i {
            assert(s.remove(i)[j] == s[j]);
        } else {
            assert(s.remove(i)[j] == s[j + 1]);
        }
    }
}

/// Draining to a fixed point: while a due command stands at the head of the
/// queue, pop it, apply it, and collect the actions; every command a handler
/// queues lies strictly in the future, so the due set shrinks.
pub open spec fn spec_drain(m: EngineModel, schedule_live_now: bool) -> (
    EngineModel,
    Seq<EngineAction>,
)
    decreases count_due(m.future_commands, m.elapsed_ms)
        when model_wf(m)
        via spec_drain_decreases
{
    if has_due(m) {
        let i = first_min_index(m.future_commands);
        let c = m.future_commands[i];
        let m1 = EngineModel { future_commands: m.future_commands.remove(i), ..m };
        let step = spec_apply_cmd(m1, c.command, schedule_live_now);
        let rest = spec_drain(step.0, schedule_live_now);
        (rest.0, step.1 + rest.1)
    } else {
        (m, Seq::empty())
    }
}

#[via_fn]
proof fn spec_drain_decreases(m: EngineModel, schedule_live_now: bool) {
    if has_due(m) {
        let i = first_min_index(m.future_commands);
        let c = m.future_commands[i];
        crate::queue::lemma_first_min_index(m.future_commands);
        lemma_count_due_remove(m.future_commands, m.elapsed_ms, i);
        crate::queue::lemma_count_due_bounds(m.future_commands.remove(i), m.elapsed_ms);
        let m1 = EngineModel { future_commands: m.future_commands.remove(i), ..m };
        lemma_cmds_ok_remove(m.future_commands, m.scenes.len() as int, i);
        lemma_apply_cmd_model(m1, c.command, schedule_live_now);
    }
}

/// One drain step from a well-formed state keeps the state well-formed and
/// shrinks the due count by one.
proof fn lemma_drain_step(m: EngineModel, schedule_live_now: bool)
    requires
        model_wf(m),
        has_due(m),
    ensures
        ({
            let i = first_min_index(m.future_commands);
            let m1 = EngineModel { future_commands: m.future_commands.remove(i), ..m };
            &&& 0 <= i < m.future_commands.len()
            &&& cmd_in_range(m.future_commands[i].command, m1.scenes.len() as int)
            &&& model_wf(m1)
            &&& model_wf(spec_apply_cmd(m1, m.future_commands[i].command, schedule_live_now).0)
            &&& count_due(
                spec_apply_cmd(m1, m.future_commands[i].command, schedule_live_now).0.future_commands,
                spec_apply_cmd(m1, m.future_commands[i].command, schedule_live_now).0.elapsed_ms,
            ) == count_due(m.future_commands, m.elapsed_ms) - 1
        }),
        count_due(m.future_commands, m.elapsed_ms) >= 1,
{
    let i = first_min_index(m.future_commands);
    crate::queue::lemma_first_min_index(m.future_commands);
    lemma_count_due_remove(m.future_commands, m.elapsed_ms, i);
    crate::queue::lemma_count_due_bounds(m.future_commands.remove(i), m.elapsed_ms);
    lemma_cmds_ok_remove(m.future_commands, m.scenes.len() as int, i);
    let m1 = EngineModel { future_commands: m.future_commands.remove(i), ..m };
    lemma_apply_cmd_model(m1, m.future_commands[i].command, schedule_live_now);
}

impl EngineState {
    /// Executes every command that has fallen due at the current engine
    /// time, earliest deadline first, draining to a fixed point, and returns
    /// the actions the commands ask for.
    pub fn drain_commands(&mut self, schedule_live_now: bool) -> (actions: Vec<EngineAction>)
        requires
            model_wf(old(self)@),
        ensures
            final(self)@ == spec_drain(old(self)@, schedule_live_now).0,
            actions@ == spec_drain(old(self)@, schedule_live_now).1,
            model_wf(final(self)@),
    {
        let mut actions: Vec<EngineAction> = Vec::new();
        proof {
            crate::queue::lemma_count_due_bounds(self@.future_commands, self@.elapsed_ms);
            assert(actions@ + spec_drain(self@, schedule_live_now).1 =~= spec_drain(
                self@,
                schedule_live_now,
            ).1);
        }
        while is_cmd_now(self.future_commands.peek(), &self.elapsed_ms)
            invariant
                model_wf(self@),
                spec_drain(old(self)@, schedule_live_now).0 == spec_drain(
                    self@,
                    schedule_live_now,
                ).0,
                spec_drain(old(self)@, schedule_live_now).1 == actions@ + spec_drain(
                    self@,
                    schedule_live_now,
                ).1,
            decreases count_due(self@.future_commands, self@.elapsed_ms),
        {
            let ghost pre = self@;
            let ghost acts_pre = actions@;
            proof {
                assert(has_due(pre));
                lemma_drain_step(pre, schedule_live_now);
            }
            let popped = self.future_commands.pop();
            match popped {
                Some(c) => {
                    proof {
                        assert(self@ =~= (EngineModel {
                            future_commands: pre.future_commands.remove(
                                first_min_index(pre.future_commands),
                            ),
                            ..pre
                        }));
                    }
                    self.apply_cmd(c.command, schedule_live_now, &mut actions);
                    proof {
                        let i = first_min_index(pre.future_commands);
                        let m1 = EngineModel {
                            future_commands: pre.future_commands.remove(i),
                            ..pre
                        };
                        let step = spec_apply_cmd(m1, c.command, schedule_live_now);
                        assert(spec_drain(pre, schedule_live_now).0 == spec_drain(
                            step.0,
                            schedule_live_now,
                        ).0);
                        assert(spec_drain(pre, schedule_live_now).1 == step.1 + spec_drain(
                            step.0,
                            schedule_live_now,
                        ).1);
                        assert(acts_pre + (step.1 + spec_drain(step.0, schedule_live_now).1) =~= (
                        acts_pre + step.1) + spec_drain(step.0, schedule_live_now).1);
                    }
                },
                None => {
                    // unreachable: the loop condition saw a due command
                    proof {
                        assert(false);
                    }
                },
            }
        }
        proof {
            assert(!has_due(self@));
            assert(spec_drain(self@, schedule_live_now).0 == self@);
            assert(spec_drain(self@, schedule_live_now).1 =~= Seq::<EngineAction>::empty());
            assert(actions@ + Seq::<EngineAction>::empty() =~= actions@);
        }
        actions
    }
}

/// The curve phase advanced by one tick.
pub open spec fn spec_step_phase(m: EngineModel) -> EngineModel {
    EngineModel {
        structure_phase: crate::soundscape::spec_step_structure(
            m.structure_phase,
            m.metro_step_ms as u64,
        ),
        ..m
    }
}

/// Every voice after one tick of ramp and activation.
pub open spec fn seq_manage(
    v: Seq<SoundSource>,
    vol: i64,
    default_level: i64,
    schedule_live: bool,
) -> Seq<SoundSource> {
    Seq::new(v.len(), |i: int| crate::soundscape::spec_manage_one(v[i], vol, default_level, schedule_live))
}

/// The retired voices that remain after one ramp tick: those whose ramps
/// still run.
pub open spec fn spec_retained(v: Seq<SoundSource>) -> Seq<SoundSource>
    decreases v.len(),
{
    if v.len() == 0 {
        Seq::empty()
    } else {
        let rest = spec_retained(v.drop_last());
        let u = crate::soundscape::spec_update(v.last());
        if u.volume_updates > 0 {
            rest.push(u)
        } else {
            rest
        }
    }
}

/// The sink names of the retired voices whose ramps finish this tick.
pub open spec fn spec_dropped(v: Seq<SoundSource>) -> Seq<usize>
    decreases v.len(),
{
    if v.len() == 0 {
        Seq::empty()
    } else {
        let rest = spec_dropped(v.drop_last());
        let u = crate::soundscape::spec_update(v.last());
        if u.volume_updates > 0 {
            rest
        } else {
            rest.push(u.sink_id)
        }
    }
}

/// One automation pass at curve value `volume`: ramp and activation over the
/// active and background voices, a ramp tick over the retired voices, and
/// the voices whose fade-out finished dropped.
pub open spec fn spec_run_automation(m: EngineModel, volume: i64) -> (EngineModel, Seq<usize>) {
    (
        EngineModel {
            active_voices: seq_manage(m.active_voices, volume, m.default_level, m.schedule_live),
            background_voices: seq_manage(
                m.background_voices,
                volume,
                m.default_level,
                m.schedule_live,
            ),
            retired_voices: spec_retained(m.retired_voices),
            ..m
        },
        spec_dropped(m.retired_voices),
    )
}

/// The voices that survive the retired-ramp tick are well-formed.
proof fn lemma_retained_wf(v: Seq<SoundSource>)
    requires
        voices_wf(v),
    ensures
        voices_wf(spec_retained(v)),
    decreases v.len(),
{
    if v.len() > 0 {
        assert(voices_wf(v.drop_last()));
        lemma_retained_wf(v.drop_last());
        crate::soundscape::lemma_update_wf(v.last());
    }
}

impl EngineState {
    /// Advances the curve phase by one tick, wrapping at the cycle's end.
    pub fn step_phase(&mut self)
        requires
            model_wf(old(self)@),
        ensures
            final(self)@ == spec_step_phase(old(self)@),
            model_wf(final(self)@),
    {
        let inc = self.metro_step_ms as u64;
        crate::soundscape::step_structure(&mut self.structure_phase, inc);
        proof {
            assert(self@ =~= spec_step_phase(old(self)@));
        }
    }

    /// Runs one automation pass against the current curve value: ramps and
    /// activation on the active and background voices, the fade ramps of the
    /// retired voices, and removal of those that finished fading. Returns the
    /// sink names of the removed voices so their sinks can be torn down.
    pub fn run_automation(&mut self, volume: i64) -> (dropped: Vec<usize>)
        requires
            model_wf(old(self)@),
        ensures
            final(self)@ == spec_run_automation(old(self)@, volume).0,
            dropped@ == spec_run_automation(old(self)@, volume).1,
            model_wf(final(self)@),
    {
        let level = self.default_level;
        let timer = self.master_timeout_ms;
        let live = self.schedule_live;
        crate::soundscape::manage_source_activity(
            &mut self.active_voices,
            volume,
            level,
            timer,
            live,
        );
        crate::soundscape::manage_source_activity(
            &mut self.background_voices,
            volume,
            level,
            timer,
            live,
        );
        let ghost old_retired = self.retired_voices@;
        let n = self.retired_voices.len();
        let mut kept: Vec<SoundSource> = Vec::new();
        let mut dropped: Vec<usize> = Vec::new();
        for i in 0..n
            invariant
                n == self.retired_voices@.len(),
                self.retired_voices@ == old_retired,
                voices_wf(old_retired),
                kept@ == spec_retained(old_retired.subrange(0, i as int)),
                dropped@ == spec_dropped(old_retired.subrange(0, i as int)),
                voices_wf(kept@),
        {
            let ghost pre = old_retired.subrange(0, i as int);
            let mut v = self.retired_voices[i];
            crate::soundscape::update(&mut v);
            if v.volume_updates > 0 {
                kept.push(v);
            } else {
                dropped.push(v.sink_id);
            }
            proof {
                let cur = old_retired.subrange(0, i + 1);
                assert(cur.drop_last() =~= pre);
                assert(cur.last() == old_retired[i as int]);
            }
        }
        self.retired_voices = kept;
        proof {
            assert(old_retired.subrange(0, n as int) =~= old_retired);
            lemma_retained_wf(old_retired);
            assert(self@ =~= spec_run_automation(old(self)@, volume).0);
            assert(self@.active_voices =~= seq_manage(
                old(self)@.active_voices,
                volume,
                old(self)@.default_level,
                old(self)@.schedule_live,
            ));
        }
        dropped
    }

    /// A fresh engine: clock at zero, the daily schedule presumed live, the
    /// curve phase on the first scene's cycle, and the opening commands —
    /// load the first scene, load the background, check the schedule — all
    /// due at tick zero. A fallback slave starts with a full takeover timer;
    /// a master carries the spent-timer sentinel.
    pub fn new_engine(
        metro_step_ms: i64,
        default_level: i64,
        scenes: Vec<Scene>,
        background_scene: Option<Scene>,
        is_fallback_slave: bool,
        voice_limit: usize,
    ) -> (r: EngineState)
        requires
            1 <= metro_step_ms <= MAX_STEP_MS,
            0 <= default_level <= GAIN_LIMIT,
            1 <= scenes@.len(),
            forall|i: int| 0 <= i < scenes@.len() ==> scene_ok(#[trigger] scenes@[i]),
            background_scene matches Some(b) ==> scene_ok(b),
        ensures
            model_wf(r@),
            r@.metro_step_ms == metro_step_ms,
            r@.default_level == default_level,
            r@.scenes == scenes@,
            r@.background_scene == background_scene,
            r@.role == (if is_fallback_slave {
                Role::Slave
            } else {
                Role::Master
            }),
            r@.master_timeout_ms == (if is_fallback_slave {
                1000int
            } else {
                -1int
            }),
            r@.elapsed_ms == 0,
            r@.schedule_live == true,
            r@.active_voices == Seq::<SoundSource>::empty(),
            r@.retired_voices == Seq::<SoundSource>::empty(),
            r@.background_voices == Seq::<SoundSource>::empty(),
            r@.future_commands == seq![
                FutureCmd { command: Cmd::Load(0, Origin::Internal), at_tick: 0 },
                FutureCmd { command: Cmd::LoadBackground, at_tick: 0 },
                FutureCmd { command: Cmd::CheckSchedule, at_tick: 0 },
            ],
            r@.structure_phase == (Structure { duration: scenes@[0].cycle_duration_ms, step: 0 }),
            r@.next_sink_id == 0,
    {
        let mut future_commands = CommandQueue::with_capacity(128);
        future_commands.push(load_at(0, Origin::Internal, 0));
        future_commands.push(crate::soundscape::load_background(0));
        future_commands.push(check_schedule(0));
        let structure_phase = crate::soundscape::structure_from_scene(&scenes[0]);
        let (role, master_timeout_ms): (Role, i64) = if is_fallback_slave {
            (Role::Slave, 1000)
        } else {
            (Role::Master, -1)
        };
        let r = EngineState {
            metro_step_ms,
            default_level,
            scenes,
            background_scene,
            role,
            elapsed_ms: 0,
            master_timeout_ms,
            schedule_live: true,
            active_voices: Vec::with_capacity(voice_limit),
            retired_voices: Vec::with_capacity(voice_limit),
            background_voices: Vec::new(),
            future_commands,
            structure_phase,
            next_sink_id: 0,
        };
        proof {
            assert(r@.future_commands =~= seq![
                FutureCmd { command: Cmd::Load(0, Origin::Internal), at_tick: 0 },
                FutureCmd { command: Cmd::LoadBackground, at_tick: 0 },
                FutureCmd { command: Cmd::CheckSchedule, at_tick: 0 },
            ]);
        }
        r
    }
}

/// One event as the loop sees it: a metro tick, a decoded control message,
/// or an update cycle carrying the curve value sampled after the drain and
/// the wall-clock schedule answer of the moment.
#[derive(Debug, Clone, Copy, PartialEq, Eq, Structural)]
pub enum EngineEvent {
    Tick,
    Control(OscEvent),
    Update(i64, bool),
}

/// One full update cycle: phase advance, drain, then automation at the
/// sampled curve value.
pub open spec fn spec_update_cycle(m: EngineModel, volume: i64, schedule_live_now: bool) -> EngineModel {
    spec_run_automation(spec_drain(spec_step_phase(m), schedule_live_now).0, volume).0
}

/// What one event does to the engine.
pub open spec fn spec_step_event(m: EngineModel, e: EngineEvent) -> EngineModel {
    match e {
        EngineEvent::Tick => spec_handle_tick(m).0,
        EngineEvent::Control(ev) => spec_handle_osc(m, ev),
        EngineEvent::Update(volume, schedule_live_now) => spec_update_cycle(
            m,
            volume,
            schedule_live_now,
        ),
    }
}

/// A whole event history folded over the engine.
pub open spec fn spec_run(m: EngineModel, events: Seq<EngineEvent>) -> EngineModel
    decreases events.len(),
{
    if events.len() == 0 {
        m
    } else {
        spec_step_event(spec_run(m, events.drop_last()), events.last())
    }
}

/// Law: tick determinism. Two engines in equal states fed the same event
/// history — the same ticks, control messages, curve samples and schedule
/// answers — end in equal states: the same clock, curve phase and voice
/// sets, bit for bit.
pub proof fn lemma_run_deterministic(m1: EngineModel, m2: EngineModel, events: Seq<EngineEvent>)
    requires
        m1 == m2,
    ensures
        spec_run(m1, events) == spec_run(m2, events),
        spec_run(m1, events).elapsed_ms == spec_run(m2, events).elapsed_ms,
        spec_run(m1, events).structure_phase == spec_run(m2, events).structure_phase,
        spec_run(m1, events).active_voices.len() == spec_run(m2, events).active_voices.len(),
{
}

/// `n` metro ticks in a row, with no control traffic in between.
pub open spec fn spec_tick_n(m: EngineModel, n: nat) -> EngineModel
    decreases n,
{
    if n == 0 {
        m
    } else {
        spec_handle_tick(spec_tick_n(m, (n - 1) as nat)).0
    }
}

/// While a slave's timer is still counting, `k` silent ticks leave its clock
/// alone and run the timer down by `k` steps.
proof fn lemma_slave_countdown(m: EngineModel, k: nat)
    requires
        m.role is Slave,
        m.master_timeout_ms == 1000,
        m.metro_step_ms == 10,
        0 <= m.elapsed_ms <= MAX_ELAPSED_MS,
        k <= 101,
    ensures
        spec_tick_n(m, k) == (EngineModel {
            master_timeout_ms: (1000 - 10 * k) as i64,
            ..m
        }),
    decreases k,
{
    if k > 0 {
        lemma_slave_countdown(m, (k - 1) as nat);
    }
}

/// Law: takeover. A slave started with a full 1000 ms timer and a 10 ms
/// metro that hears no heartbeat crosses below zero at exactly the 101st
/// tick, holding its clock still until then; from the next tick on it
/// advances its own clock by one step per tick.
pub proof fn lemma_takeover(m: EngineModel)
    requires
        m.role is Slave,
        m.master_timeout_ms == 1000,
        m.metro_step_ms == 10,
        0 <= m.elapsed_ms,
        m.elapsed_ms + 10 <= MAX_ELAPSED_MS,
    ensures
        spec_tick_n(m, 100).master_timeout_ms >= 0,
        spec_tick_n(m, 101).master_timeout_ms < 0,
        spec_tick_n(m, 101).elapsed_ms == m.elapsed_ms,
        spec_handle_tick(spec_tick_n(m, 101)).0.elapsed_ms == m.elapsed_ms + 10,
{
    lemma_slave_countdown(m, 100);
    lemma_slave_countdown(m, 101);
    assert(spec_tick_n(m, 101) == spec_handle_tick(spec_tick_n(m, 100)).0);
}

} // verus!
