//! Engine for a multi-channel generative audio installation: a logical clock
//! advanced by metro ticks, a min-queue of timestamped commands driving scene
//! rotation, per-voice linear fade ramps, master/slave replication with
//! takeover on timeout, and a daily wall-clock schedule.
//!
//! Volumes, gains and curve samples are carried as fixed-point integers in
//! millionths of full scale; callers that talk to an audio backend convert at
//! the boundary.

pub mod config;
pub mod engine;
pub mod epochsy;
pub mod osc;
pub mod queue;
pub mod soundscape;

use vstd::prelude::*;

verus! {

/// One unit of volume full scale, in fixed-point millionths.
pub const VOLUME_SCALE: i64 = 1_000_000;

/// Largest magnitude any voice volume or ramp target may take.
pub const VOLUME_LIMIT: i64 = 4_000_000_000;

/// Largest magnitude the default level or a per-resource gain may take.
pub const GAIN_LIMIT: i64 = 2_000_000_000;

/// Largest tick period the engine accepts, milliseconds.
pub const MAX_STEP_MS: i64 = 1_000_000_000;

/// Largest scene duration or curve cycle the engine accepts, milliseconds.
pub const MAX_DURATION_MS: i64 = 1_000_000_000_000;

/// Largest engine time the logical clock may reach, milliseconds.
pub const MAX_ELAPSED_MS: i64 = 4_000_000_000_000_000;

} // verus!
