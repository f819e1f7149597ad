//! Per-voice state and lifecycle, the structure-curve phase, and the command
//! vocabulary of the scene engine.
//!
//! A voice ramps its volume linearly over a fixed number of ticks; the ramp
//! is carried as a per-tick step plus the target, and the final tick lands on
//! the target exactly. Volumes are fixed-point millionths of full scale.

use vstd::prelude::*;

use crate::config::Scene;
use crate::config::SoundResource;
use crate::GAIN_LIMIT;
use crate::VOLUME_LIMIT;

verus! {

use vstd::pervasive::VecAdditionalExecFns;

/// One playing audio source with its own volume ramp state. The audio sink
/// itself lives with the backend; `sink_id` names it. `volume` mirrors the
/// volume last handed to that sink (clamped to `[0, 1]` full scale only on
/// application).
#[derive(Debug, Clone, Copy, PartialEq, Eq, Structural)]
pub struct SoundSource {
    /// Names the backend sink this voice drives.
    pub sink_id: usize,
    /// Lower activation threshold on the structure curve, millionths.
    pub min_threshold: i64,
    /// Upper activation threshold on the structure curve, millionths.
    pub max_threshold: i64,
    /// Gain added onto the default level when the voice goes live, millionths.
    pub gain: i64,
    /// Current volume, millionths of full scale.
    pub volume: i64,
    /// Signed per-tick volume delta while a ramp is running.
    pub volume_step: i64,
    /// Volume the running ramp lands on at its final tick.
    pub volume_target: i64,
    /// Remaining ramp ticks; 0 means no ramp is running.
    pub volume_updates: u32,
    pub fade_out_steps: u32,
    pub fade_in_steps: u32,
    /// Whether the curve currently holds this voice within its thresholds.
    pub is_live: bool,
    /// Whether the backend sink is paused.
    pub is_paused: bool,
}

/// `x` lies weakly between 0 and `d`, on whichever side of 0 `d` lies.
pub open spec fn lies_between(x: int, d: int) -> bool {
    (0 <= x && x <= d) || (d <= x && x <= 0)
}

/// Integer division truncated toward zero, as the machine divides.
pub open spec fn trunc_div(a: int, b: int) -> int {
    if a >= 0 {
        a / b
    } else {
        -((-a) / b)
    }
}

/// Well-formedness of a voice: volume, target and gain are bounded, the step
/// is bounded, and a running ramp of `u` remaining ticks has `u - 1` steps of
/// travel left that fit between the current volume and the target.
pub open spec fn voice_wf(v: SoundSource) -> bool {
    &&& -VOLUME_LIMIT <= v.volume <= VOLUME_LIMIT
    &&& -VOLUME_LIMIT <= v.volume_target <= VOLUME_LIMIT
    &&& -2 * VOLUME_LIMIT <= v.volume_step <= 2 * VOLUME_LIMIT
    &&& -GAIN_LIMIT <= v.gain <= GAIN_LIMIT
    &&& (v.volume_updates >= 2 ==> lies_between(
        (v.volume_updates - 1) * v.volume_step,
        v.volume_target - v.volume,
    ))
}

/// Starting a linear ramp: `steps` ticks (one tick when `steps` is 0) toward
/// `volume_target`, each moving by the truncated per-tick share.
pub open spec fn spec_volume_fade(v: SoundSource, volume_target: i64, steps: u32) -> SoundSource {
    let u = if steps == 0 {
        1u32
    } else {
        steps
    };
    SoundSource {
        volume_step: trunc_div(volume_target - v.volume, u as int) as i64,
        volume_target,
        volume_updates: u,
        ..v
    }
}

/// One ramp tick: no-op without a ramp; the final tick lands on the target;
/// any earlier tick moves by the step.
pub open spec fn spec_update(v: SoundSource) -> SoundSource {
    if v.volume_updates == 0 {
        v
    } else if v.volume_updates == 1 {
        SoundSource { volume: v.volume_target, volume_updates: 0, ..v }
    } else {
        SoundSource {
            volume: (v.volume + v.volume_step) as i64,
            volume_updates: (v.volume_updates - 1) as u32,
            ..v
        }
    }
}

/// The truncated per-tick share of a ramp stays between zero and the whole
/// travel, even summed over all but one of the ticks.
proof fn lemma_trunc_div_ramp(d: int, u: int)
    requires
        u >= 1,
    ensures
        lies_between(trunc_div(d, u), d),
        lies_between((u - 1) * trunc_div(d, u), d),
{
    if d >= 0 {
        let q = d / u;
        vstd::arithmetic::div_mod::lemma_fundamental_div_mod(d, u);
        vstd::arithmetic::div_mod::lemma_mod_bound(d, u);
        assert(q >= 0) by (nonlinear_arith)
            requires
                u >= 1,
                u * q == d - (d % u),
                0 <= d % u,
                d >= 0,
        ;
        assert(0 <= (u - 1) * q <= u * q) by (nonlinear_arith)
            requires
                u >= 1,
                q >= 0,
        ;
        assert(q <= d) by (nonlinear_arith)
            requires
                u >= 1,
                q >= 0,
                u * q <= d,
        ;
    } else {
        let q = (-d) / u;
        vstd::arithmetic::div_mod::lemma_fundamental_div_mod(-d, u);
        vstd::arithmetic::div_mod::lemma_mod_bound(-d, u);
        assert(q >= 0) by (nonlinear_arith)
            requires
                u >= 1,
                u * q == (-d) - ((-d) % u),
                0 <= (-d) % u,
                -d >= 0,
        ;
        assert(0 <= (u - 1) * q <= u * q) by (nonlinear_arith)
            requires
                u >= 1,
                q >= 0,
        ;
        assert(q <= -d) by (nonlinear_arith)
            requires
                u >= 1,
                q >= 0,
                u * q <= -d,
        ;
        assert((u - 1) * (-q) == -((u - 1) * q)) by (nonlinear_arith);
    }
}

/// With at least two ramp ticks left, a single step also lies within the
/// travel, and the travel left after taking it still covers the remaining
/// steps.
proof fn lemma_ramp_step(u: int, s: int, d: int)
    requires
        u >= 2,
        lies_between((u - 1) * s, d),
    ensures
        lies_between(s, d),
        lies_between((u - 2) * s, d - s),
{
    assert((u - 1) * s == (u - 2) * s + s) by (nonlinear_arith);
    if s >= 0 {
        assert((u - 2) * s >= 0) by (nonlinear_arith)
            requires
                u >= 2,
                s >= 0,
        ;
    } else {
        assert((u - 2) * s <= 0) by (nonlinear_arith)
            requires
                u >= 2,
                s <= 0,
        ;
    }
}

/// A freshly started fade toward a bounded target keeps a voice well-formed.
pub proof fn lemma_fade_wf(v: SoundSource, target: i64, steps: u32)
    requires
        voice_wf(v),
        -VOLUME_LIMIT <= target <= VOLUME_LIMIT,
    ensures
        voice_wf(spec_volume_fade(v, target, steps)),
{
    let u: int = if steps == 0 {
        1
    } else {
        steps as int
    };
    lemma_trunc_div_ramp(target - v.volume, u);
}

/// A ramp tick keeps a voice well-formed and runs the ramp down by one.
pub proof fn lemma_update_wf(v: SoundSource)
    requires
        voice_wf(v),
    ensures
        voice_wf(spec_update(v)),
        spec_update(v).volume_target == v.volume_target,
        v.volume_updates >= 1 ==> spec_update(v).volume_updates == v.volume_updates - 1,
{
    if v.volume_updates >= 2 {
        lemma_ramp_step(
            v.volume_updates as int,
            v.volume_step as int,
            v.volume_target - v.volume,
        );
    }
}

/// Runs one tick of the volume ramp: while ticks remain, the volume moves by
/// the signed step, landing exactly on the target at the final tick.
pub fn update(source: &mut SoundSource)
    requires
        voice_wf(*old(source)),
    ensures
        *final(source) == spec_update(*old(source)),
        voice_wf(*final(source)),
{
    proof {
        lemma_update_wf(*old(source));
    }
    if source.volume_updates > 0 {
        if source.volume_updates == 1 {
            source.volume = source.volume_target;
            source.volume_updates = 0;
        } else {
            source.volume = source.volume + source.volume_step;
            source.volume_updates = source.volume_updates - 1;
        }
    }
}

/// Starts a linear fade of `source` toward `volume_target` over `steps`
/// ticks; a zero count means a single instant step.
pub fn volume_fade(source: &mut SoundSource, volume_target: i64, steps: u32)
    requires
        voice_wf(*old(source)),
        -VOLUME_LIMIT <= volume_target <= VOLUME_LIMIT,
    ensures
        *final(source) == spec_volume_fade(*old(source), volume_target, steps),
        voice_wf(*final(source)),
{
    let u: u32 = if steps == 0 {
        1
    } else {
        steps
    };
    let d: i64 = volume_target - source.volume;
    proof {
        lemma_trunc_div_ramp(d as int, u as int);
    }
    let fade_step: i64 = if d >= 0 {
        ((d as u64) / (u as u64)) as i64
    } else {
        -((((-d) as u64) / (u as u64)) as i64)
    };
    source.volume_updates = u;
    source.volume_step = fade_step;
    source.volume_target = volume_target;
}

/// `n` ramp ticks applied in succession.
pub open spec fn spec_update_n(v: SoundSource, n: nat) -> SoundSource
    decreases n,
{
    if n == 0 {
        v
    } else {
        spec_update(spec_update_n(v, (n - 1) as nat))
    }
}

/// Applying `n >= 1` ticks is one tick followed by `n - 1` more.
proof fn lemma_update_n_unfold_front(v: SoundSource, n: nat)
    requires
        n >= 1,
    ensures
        spec_update_n(v, n) == spec_update_n(spec_update(v), (n - 1) as nat),
    decreases n,
{
    if n == 1 {
        assert(spec_update_n(v, 1) == spec_update(spec_update_n(v, 0)));
        assert(spec_update_n(v, 0) == v);
        assert(spec_update_n(spec_update(v), 0) == spec_update(v));
    } else {
        lemma_update_n_unfold_front(v, (n - 1) as nat);
        assert(spec_update_n(v, n) == spec_update(spec_update_n(v, (n - 1) as nat)));
        assert(spec_update_n(spec_update(v), (n - 1) as nat) == spec_update(
            spec_update_n(spec_update(v), (n - 2) as nat),
        ));
    }
}

/// A well-formed voice with a running ramp reaches its target exactly when
/// the remaining ticks run out.
proof fn lemma_ramp_runs_out(v: SoundSource)
    requires
        voice_wf(v),
        v.volume_updates >= 1,
    ensures
        spec_update_n(v, v.volume_updates as nat).volume == v.volume_target,
        spec_update_n(v, v.volume_updates as nat).volume_updates == 0,
    decreases v.volume_updates,
{
    lemma_update_wf(v);
    lemma_update_n_unfold_front(v, v.volume_updates as nat);
    if v.volume_updates > 1 {
        lemma_ramp_runs_out(spec_update(v));
    }
}

/// Law: a fade over `steps > 0` ticks closes — after exactly `steps` ramp
/// ticks the volume equals the requested target and no ramp ticks remain.
pub proof fn lemma_voice_ramp_closure(v: SoundSource, target: i64, steps: u32)
    requires
        voice_wf(v),
        -VOLUME_LIMIT <= target <= VOLUME_LIMIT,
        steps > 0,
    ensures
        spec_update_n(spec_volume_fade(v, target, steps), steps as nat).volume == target,
        spec_update_n(spec_volume_fade(v, target, steps), steps as nat).volume_updates == 0,
{
    lemma_trunc_div_ramp(target - v.volume, steps as int);
    lemma_ramp_runs_out(spec_volume_fade(v, target, steps));
}

/// One tick of the activation rule for one voice against the current curve
/// value `vol`: first the ramp tick, then the threshold window decides the
/// liveness transition and any new fade. A voice that is not live and does
/// not come live sees no transition: a running fade-out keeps its course.
pub open spec fn spec_manage_one(
    v: SoundSource,
    vol: i64,
    default_level: i64,
    schedule_live: bool,
) -> SoundSource {
    let u = spec_update(v);
    if schedule_live && u.max_threshold > vol && u.min_threshold < vol {
        if !u.is_live {
            spec_volume_fade(
                SoundSource { is_live: true, ..u },
                (default_level + u.gain) as i64,
                u.fade_in_steps,
            )
        } else {
            u
        }
    } else {
        if u.is_live {
            spec_volume_fade(SoundSource { is_live: false, ..u }, 0, u.fade_out_steps)
        } else {
            u
        }
    }
}

/// One tick of ramp plus activation for a single voice.
fn manage_one(source: &mut SoundSource, vol: i64, default_level: i64, schedule_live: bool)
    requires
        voice_wf(*old(source)),
        0 <= default_level <= GAIN_LIMIT,
    ensures
        *final(source) == spec_manage_one(*old(source), vol, default_level, schedule_live),
        voice_wf(*final(source)),
{
    update(source);
    if schedule_live && source.max_threshold > vol && source.min_threshold < vol {
        if !source.is_live {
            source.is_live = true;
            let target = default_level + source.gain;
            let fade_steps = source.fade_in_steps;
            volume_fade(source, target, fade_steps);
        }
    } else {
        if source.is_live {
            source.is_live = false;
            let fade_steps = source.fade_out_steps;
            volume_fade(source, 0, fade_steps);
        }
    }
}

/// All voices of a vector are well-formed.
pub open spec fn voices_wf(s: Seq<SoundSource>) -> bool {
    forall|i: int| 0 <= i < s.len() ==> voice_wf(#[trigger] s[i])
}

/// Runs one tick of ramp and activation over every voice of `sources`
/// against the current curve value. The activity timer is carried for
/// symmetry with the wider engine state but does not enter the rule.
pub fn manage_source_activity(
    sources: &mut Vec<SoundSource>,
    volume: i64,
    default_level: i64,
    master_activity_timer: i64,
    is_schedule_live: bool,
)
    requires
        voices_wf(old(sources)@),
        0 <= default_level <= GAIN_LIMIT,
    ensures
        final(sources)@.len() == old(sources)@.len(),
        forall|i: int|
            0 <= i < old(sources)@.len() ==> final(sources)@[i] == spec_manage_one(
                #[trigger] old(sources)@[i],
                volume,
                default_level,
                is_schedule_live,
            ),
        voices_wf(final(sources)@),
{
    let n = sources.len();
    for i in 0..n
        invariant
            n == sources@.len(),
            voices_wf(sources@),
            0 <= default_level <= GAIN_LIMIT,
            forall|j: int|
                0 <= j < i ==> sources@[j] == spec_manage_one(
                    #[trigger] old(sources)@[j],
                    volume,
                    default_level,
                    is_schedule_live,
                ),
            forall|j: int| i <= j < n ==> sources@[j] == #[trigger] old(sources)@[j],
    {
        let mut v = sources[i];
        manage_one(&mut v, volume, default_level, is_schedule_live);
        sources.set(i, v);
    }
}

/// The voice a resource turns into when its scene loads: silent, paused and
/// not live, with the configured thresholds and gain, and fade step counts
/// defaulting to 500.
pub open spec fn spec_resource_voice(res: SoundResource, sink_id: usize) -> SoundSource {
    SoundSource {
        sink_id,
        min_threshold: res.min_threshold,
        max_threshold: res.max_threshold,
        gain: res.gain,
        volume: 0,
        volume_step: 10000,
        volume_target: 0,
        volume_updates: 0,
        fade_in_steps: match res.fade_in_steps {
            Some(duration) => duration,
            None => 500,
        },
        fade_out_steps: match res.fade_out_steps {
            Some(duration) => duration,
            None => 500,
        },
        is_live: false,
        is_paused: true,
    }
}

/// Builds the voice for one resource, bound to the backend sink `sink_id`.
pub fn resource_to_sound_source(res: &SoundResource, sink_id: usize) -> (r: SoundSource)
    requires
        -GAIN_LIMIT <= res.gain <= GAIN_LIMIT,
    ensures
        r == spec_resource_voice(*res, sink_id),
        voice_wf(r),
{
    let fade_in = match res.fade_in_steps {
        Some(duration) => duration,
        None => 500,
    };
    let fade_out = match res.fade_out_steps {
        Some(duration) => duration,
        None => 500,
    };
    SoundSource {
        sink_id,
        min_threshold: res.min_threshold,
        max_threshold: res.max_threshold,
        gain: res.gain,
        volume: 0,
        volume_step: 10000,
        volume_target: 0,
        volume_updates: 0,
        fade_in_steps: fade_in,
        fade_out_steps: fade_out,
        is_live: false,
        is_paused: true,
    }
}

/// Every resource's gain is within the engine's gain bound.
pub open spec fn resources_wf(rs: Seq<SoundResource>) -> bool {
    forall|i: int|
        0 <= i < rs.len() ==> -GAIN_LIMIT <= (#[trigger] rs[i]).gain && rs[i].gain <= GAIN_LIMIT
}

/// The `j`th sink name handed out from `base`; the counter pegs at the top
/// of `usize` rather than wrapping.
pub open spec fn sat_sink_id(base: usize, j: int) -> usize {
    if base + j <= usize::MAX {
        (base + j) as usize
    } else {
        usize::MAX
    }
}

/// The fresh voices a scene contributes, with consecutive sink names
/// starting at `base`.
pub open spec fn seq_new_voices(scene: Scene, base: usize) -> Seq<SoundSource> {
    Seq::new(
        scene.resources@.len(),
        |j: int| spec_resource_voice(scene.resources@[j], sat_sink_id(base, j)),
    )
}

/// Appends one fresh voice per resource of `scene`, handing out consecutive
/// sink names starting at `next_sink_id`.
pub fn add_resources(sources: &mut Vec<SoundSource>, scene: &Scene, next_sink_id: &mut usize)
    requires
        voices_wf(old(sources)@),
        resources_wf(scene.resources@),
    ensures
        final(sources)@ == old(sources)@ + seq_new_voices(*scene, *old(next_sink_id)),
        *final(next_sink_id) == sat_sink_id(*old(next_sink_id), scene.resources@.len() as int),
        voices_wf(final(sources)@),
{
    let n = scene.resources.len();
    for j in 0..n
        invariant
            n == scene.resources@.len(),
            resources_wf(scene.resources@),
            *next_sink_id == sat_sink_id(*old(next_sink_id), j as int),
            sources@.len() == old(sources)@.len() + j,
            forall|i: int|
                0 <= i < old(sources)@.len() ==> sources@[i] == #[trigger] old(sources)@[i],
            forall|k: int|
                0 <= k < j ==> sources@[old(sources)@.len() + k] == spec_resource_voice(
                    #[trigger] scene.resources@[k],
                    sat_sink_id(*old(next_sink_id), k),
                ),
            voices_wf(sources@),
    {
        let voice = resource_to_sound_source(&scene.resources[j], *next_sink_id);
        if *next_sink_id < usize::MAX {
            *next_sink_id = *next_sink_id + 1;
        }
        sources.push(voice);
    }
    proof {
        assert(sources@ =~= old(sources)@ + seq_new_voices(*scene, *old(next_sink_id)));
    }
}

/// Every voice with its sink taken out of pause.
pub open spec fn seq_play(v: Seq<SoundSource>) -> Seq<SoundSource> {
    Seq::new(v.len(), |i: int| SoundSource { is_paused: false, ..v[i] })
}

/// Every voice with its sink set to the same volume.
pub open spec fn seq_set_volume(v: Seq<SoundSource>, volume: i64) -> Seq<SoundSource> {
    Seq::new(v.len(), |i: int| SoundSource { volume, ..v[i] })
}

/// Every voice put on a fade to silence over its own fade-out count.
pub open spec fn seq_fade_out(v: Seq<SoundSource>) -> Seq<SoundSource> {
    Seq::new(v.len(), |i: int| spec_volume_fade(v[i], 0, v[i].fade_out_steps))
}

/// Moves every active voice into the retired vector and starts a fade to
/// silence on every voice standing there, each over its own fade-out count.
pub fn retire_resources(active_sources: &mut Vec<SoundSource>, retired_sources: &mut Vec<
    SoundSource,
>)
    requires
        voices_wf(old(active_sources)@),
        voices_wf(old(retired_sources)@),
    ensures
        final(active_sources)@ == Seq::<SoundSource>::empty(),
        final(retired_sources)@ == seq_fade_out(old(retired_sources)@ + old(active_sources)@),
        voices_wf(final(retired_sources)@),
{
    let ghost combined = old(retired_sources)@ + old(active_sources)@;
    retired_sources.append(active_sources);
    let n = retired_sources.len();
    for i in 0..n
        invariant
            n == retired_sources@.len(),
            n == combined.len(),
            voices_wf(retired_sources@),
            forall|j: int|
                0 <= j < i ==> retired_sources@[j] == spec_volume_fade(
                    #[trigger] combined[j],
                    0,
                    combined[j].fade_out_steps,
                ),
            forall|j: int| i <= j < n ==> retired_sources@[j] == #[trigger] combined[j],
    {
        let mut v = retired_sources[i];
        let fade_steps = v.fade_out_steps;
        volume_fade(&mut v, 0, fade_steps);
        retired_sources.set(i, v);
    }
    proof {
        assert(retired_sources@ =~= seq_fade_out(combined));
    }
}

/// Resumes playback on every voice: the backend sinks come out of pause.
pub fn play(channels: &mut Vec<SoundSource>)
    requires
        voices_wf(old(channels)@),
    ensures
        final(channels)@ == seq_play(old(channels)@),
        voices_wf(final(channels)@),
{
    let n = channels.len();
    for i in 0..n
        invariant
            n == channels@.len(),
            forall|j: int|
                0 <= j < i ==> channels@[j] == (SoundSource {
                    is_paused: false,
                    ..#[trigger] old(channels)@[j]
                }),
            forall|j: int| i <= j < n ==> channels@[j] == #[trigger] old(channels)@[j],
    {
        let mut v = channels[i];
        v.is_paused = false;
        channels.set(i, v);
    }
    proof {
        assert(channels@ =~= seq_play(old(channels)@));
    }
}

/// Hands every voice's sink the same volume. Meant for freshly added voices;
/// a running ramp would be thrown off, so none may be running.
pub fn set_volume(channels: &mut Vec<SoundSource>, volume: i64)
    requires
        voices_wf(old(channels)@),
        forall|i: int| 0 <= i < old(channels)@.len() ==> (#[trigger] old(channels)@[i]).volume_updates == 0,
        -VOLUME_LIMIT <= volume <= VOLUME_LIMIT,
    ensures
        final(channels)@ == seq_set_volume(old(channels)@, volume),
        forall|i: int|
            0 <= i < final(channels)@.len() ==> (#[trigger] final(channels)@[i]).volume_updates
                == 0,
        voices_wf(final(channels)@),
{
    let n = channels.len();
    for i in 0..n
        invariant
            n == channels@.len(),
            voices_wf(channels@),
            -VOLUME_LIMIT <= volume <= VOLUME_LIMIT,
            forall|j: int|
                0 <= j < i ==> channels@[j] == (SoundSource {
                    volume,
                    ..#[trigger] old(channels)@[j]
                }),
            forall|j: int| i <= j < n ==> channels@[j] == #[trigger] old(channels)@[j],
            forall|j: int|
                i <= j < n ==> (#[trigger] channels@[j]).volume_updates == 0,
    {
        let mut v = channels[i];
        v.volume = volume;
        channels.set(i, v);
    }
    proof {
        assert(channels@ =~= seq_set_volume(old(channels)@, volume));
    }
}

/// The phase of a scene's structure curve: how far into the cycle the engine
/// stands, in milliseconds. The curve itself is evaluated by the collaborator
/// that owns the spline.
#[derive(Debug, Clone, Copy, PartialEq, Eq, Structural)]
pub struct Structure {
    /// Period of the cycle, milliseconds.
    pub duration: u64,
    /// Position within the cycle, milliseconds.
    pub step: u64,
}

/// A fresh phase for a scene: its cycle period, starting at zero.
pub fn structure_from_scene(scene: &Scene) -> (r: Structure)
    ensures
        r.duration == scene.cycle_duration_ms,
        r.step == 0,
{
    Structure { duration: scene.cycle_duration_ms, step: 0 }
}

/// One tick of phase advance, wrapping to zero once the cycle is exceeded.
pub open spec fn spec_step_structure(s: Structure, step_increment: u64) -> Structure {
    if s.step + step_increment > s.duration {
        Structure { step: 0, ..s }
    } else {
        Structure { step: (s.step + step_increment) as u64, ..s }
    }
}

/// Advances the phase by one tick of `step_increment` milliseconds.
pub fn step_structure(structure: &mut Structure, step_increment: u64)
    requires
        old(structure).step <= old(structure).duration,
        old(structure).duration <= 0x1000_0000_0000_0000,
        step_increment <= 0x1000_0000_0000_0000,
    ensures
        *final(structure) == spec_step_structure(*old(structure), step_increment),
        final(structure).step <= final(structure).duration,
{
    structure.step = structure.step + step_increment;
    if structure.step > structure.duration {
        structure.step = 0;
    }
}

/// Where a load command came from: the node's own rotation or a remote
/// master.
#[derive(Debug, Clone, Copy, PartialEq, Eq, Structural)]
pub enum Origin {
    Internal,
    Remote,
}

/// What the engine can be told to do at a future tick.
#[derive(Debug, Clone, Copy, PartialEq, Eq, Structural)]
pub enum Cmd {
    /// Resume playback on the active voices.
    Play,
    /// Open the given scene and start its rotation bookkeeping.
    Load(usize, Origin),
    /// Reload the background scene.
    LoadBackground,
    /// Move the active voices into retirement, fading them out.
    Retire,
    /// Re-evaluate the daily schedule.
    CheckSchedule,
}

/// A command stamped with the engine tick at which it falls due.
#[derive(Debug, Clone, Copy, PartialEq, Eq, Structural)]
pub struct FutureCmd {
    pub command: Cmd,
    /// Engine time in milliseconds at which the command fires.
    pub at_tick: i64,
}

/// A `Play` due at `tick`.
pub fn play_at(tick: i64) -> (r: FutureCmd)
    ensures
        r == (FutureCmd { command: Cmd::Play, at_tick: tick }),
{
    FutureCmd { command: Cmd::Play, at_tick: tick }
}

/// A `Load` of scene `scene_index` from `origin`, due at `tick`.
pub fn load_at(scene_index: usize, origin: Origin, tick: i64) -> (r: FutureCmd)
    ensures
        r == (FutureCmd { command: Cmd::Load(scene_index, origin), at_tick: tick }),
{
    FutureCmd { command: Cmd::Load(scene_index, origin), at_tick: tick }
}

/// A `LoadBackground` due at `tick`.
pub fn load_background(tick: i64) -> (r: FutureCmd)
    ensures
        r == (FutureCmd { command: Cmd::LoadBackground, at_tick: tick }),
{
    FutureCmd { command: Cmd::LoadBackground, at_tick: tick }
}

/// A `Retire` due at `tick`.
pub fn retire_at(tick: i64) -> (r: FutureCmd)
    ensures
        r == (FutureCmd { command: Cmd::Retire, at_tick: tick }),
{
    FutureCmd { command: Cmd::Retire, at_tick: tick }
}

/// A `CheckSchedule` due at `tick`.
pub fn check_schedule(tick: i64) -> (r: FutureCmd)
    ensures
        r == (FutureCmd { command: Cmd::CheckSchedule, at_tick: tick }),
{
    FutureCmd { command: Cmd::CheckSchedule, at_tick: tick }
}

/// Whether the command at the head of the queue has fallen due.
pub open spec fn spec_is_cmd_now(command: Option<FutureCmd>, ticks: i64) -> bool {
    match command {
        Some(cmd) => cmd.at_tick <= ticks,
        None => false,
    }
}

/// Whether a peeked command, if any, is due at engine time `ticks`.
pub fn is_cmd_now(command: Option<&FutureCmd>, ticks: &i64) -> (r: bool)
    ensures
        r == spec_is_cmd_now(
            match command {
                Some(c) => Some(*c),
                None => None,
            },
            *ticks,
        ),
{
    match command {
        Some(cmd) => *ticks >= cmd.at_tick,
        None => false,
    }
}

} // verus!
