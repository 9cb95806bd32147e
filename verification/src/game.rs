//! Core data model of the simulation, in integer fixed point.
//!
//! Lengths are in milli-units (1/1000 of a world unit), velocities in
//! milli-units per second, durations in milliseconds. With these scales
//! every game constant (gravity 9.8 * 100 units/s^2, jump impulse 500
//! units/s, pipe speed 200 units/s, ...) is an exact integer.

use vstd::prelude::*;

verus! {

/// Downward acceleration, in milli-units per second per second.
pub const GRAVITY: i64 = 980_000;

/// Vertical velocity set by a jump, in milli-units per second.
pub const JUMP_FORCE: i64 = 500_000;

/// Leftward speed of every pipe, in milli-units per second.
pub const PIPE_SPEED: i64 = 200_000;

/// Vertical opening between the two pipes of a pair.
pub const PIPE_GAP: i64 = 150_000;

/// Horizontal extent of a pipe.
pub const PIPE_WIDTH: i64 = 80_000;

/// Side length of the (square) bird sprite.
pub const BIRD_SIZE: i64 = 40_000;

/// Half the bird's side length.
pub const BIRD_HALF: i64 = 20_000;

/// Half a pipe's width.
pub const PIPE_HALF_WIDTH: i64 = 40_000;

/// Half the vertical opening between the two pipes of a pair.
pub const PIPE_GAP_HALF: i64 = 75_000;

/// Half a pipe's height: each pipe sprite is 600 units tall.
pub const PIPE_HALF_HEIGHT: i64 = 300_000;

/// Vertical position of the ground line.
pub const GROUND_Y: i64 = -300_000;

/// Lowest vertical position the bird's center may take: resting on the ground.
pub const GROUND_CLAMP_Y: i64 = -280_000;

/// Vertical position of the ceiling.
pub const CEILING_Y: i64 = 300_000;

/// Lower bound of the clamped range for a pipe pair's gap center.
pub const GAP_CENTER_MIN: i64 = -200_000;

/// Upper bound of the clamped range for a pipe pair's gap center.
pub const GAP_CENTER_MAX: i64 = 200_000;

/// Pipes strictly left of this line are despawned.
pub const PIPE_DESPAWN_X: i64 = -500_000;

/// Horizontal position at which the spawner creates a new pipe pair.
pub const PIPE_SPAWN_X: i64 = 400_000;

/// Horizontal position of the second pipe pair of a fresh scene.
pub const SECOND_PIPE_X: i64 = 700_000;

/// Period of the repeating pipe spawn timer, in milliseconds.
pub const SPAWN_PERIOD_MS: u64 = 2000;

/// Largest frame delta the simulation accepts, in milliseconds.
/// A cap is needed because positions are 64-bit fixed-point values.
pub const MAX_FRAME_MS: u64 = 1_000_000;

/// Resolution of the random draw used for a pipe pair's gap center:
/// draws are uniform in `0 .. GAP_DRAW_RANGE`, thousandths of the unit interval.
pub const GAP_DRAW_RANGE: u64 = 1000;

/// Magnitude bound on positions accepted by the systems; far above anything
/// reachable in play, it only keeps 64-bit fixed-point arithmetic exact.
pub const POS_LIMIT: i64 = 1_000_000_000_000_000;

/// Magnitude bound on velocities accepted by the systems, for the same reason.
pub const VEL_LIMIT: i64 = 1_000_000_000_000;

/// The player-controlled bird: a singleton with a fixed horizontal position.
#[derive(Clone, Copy, PartialEq, Eq, Structural, Debug)]
pub struct Bird {
    /// Horizontal position of the bird's center, in milli-units.
    pub x: i64,
    /// Vertical position of the bird's center, in milli-units.
    pub y: i64,
    /// Vertical velocity, in milli-units per second; positive is upward.
    pub velocity: i64,
}

/// One pair of pipes (top and bottom) sharing a horizontal position and a
/// vertical gap center. The two pipe sprites it stands for are placed
/// symmetrically around the gap.
#[derive(Clone, Copy, PartialEq, Eq, Structural, Debug)]
pub struct PipePair {
    /// Horizontal position shared by both pipes of the pair, in milli-units.
    pub x: i64,
    /// Vertical center of the opening between the two pipes, in milli-units.
    pub gap_center: i64,
}

/// The repeating countdown that paces the spawner.
#[derive(Clone, Copy, PartialEq, Eq, Structural, Debug)]
pub struct SpawnTimer {
    /// Time accumulated since the last reset, capped at the period.
    pub elapsed_ms: u64,
    /// Fixed period of the countdown.
    pub period_ms: u64,
}

/// The whole simulation state that the per-frame systems read and mutate.
#[derive(Clone, PartialEq, Eq, Debug)]
pub struct GameState {
    /// The singleton bird.
    pub bird: Bird,
    /// All live pipe pairs, oldest first.
    pub pipes: Vec<PipePair>,
    /// The score counter; reset only by a restart.
    pub score: u32,
    /// Latched game-over flag; cleared only by a restart.
    pub game_over: bool,
    /// The repeating countdown driving the spawner.
    pub spawn_timer: SpawnTimer,
}

/// Gravity per millisecond of frame time: `GRAVITY` with the seconds
/// converted, so that a velocity update is `v - GRAVITY_PER_MS * dt_ms`.
pub const GRAVITY_PER_MS: i64 = 980;

/// Pipe speed per millisecond of frame time, in milli-units.
pub const PIPE_SPEED_PER_MS: i64 = 200;

/// Bound on the bird's vertical position that a whole frame preserves:
/// the ceiling plus the farthest a jump can carry within one frame.
pub const BIRD_Y_LIMIT: i64 = 500_300_000;

/// Bound on the bird's downward velocity that a whole frame preserves: a
/// fall that still ends above the ground clamp cannot be steeper.
pub const BIRD_VEL_MIN: i64 = -580_001_000;

/// `v` held into the closed range `lo ..= hi`.
pub open spec fn clamp_spec(v: int, lo: int, hi: int) -> int {
    if v < lo {
        lo
    } else if v > hi {
        hi
    } else {
        v
    }
}

impl Bird {
    /// Bird of a fresh scene: centered, at rest.
    pub open spec fn start_spec() -> Bird {
        Bird { x: 0, y: 0, velocity: 0 }
    }

    /// Spawns the bird of a fresh scene.
    pub fn start() -> (b: Bird)
        ensures
            b == Bird::start_spec(),
    {
        Bird { x: 0, y: 0, velocity: 0 }
    }
}

impl PipePair {
    /// Vertical center of the pair's top pipe sprite.
    pub open spec fn top_y_spec(self) -> int {
        self.gap_center + PIPE_GAP_HALF + PIPE_HALF_HEIGHT
    }

    /// Vertical center of the pair's bottom pipe sprite.
    pub open spec fn bottom_y_spec(self) -> int {
        self.gap_center - PIPE_GAP_HALF - PIPE_HALF_HEIGHT
    }

    /// Vertical center of the pair's top pipe sprite.
    pub fn top_y(&self) -> (y: i64)
        requires
            -POS_LIMIT <= self.gap_center <= POS_LIMIT,
        ensures
            y == self.top_y_spec(),
    {
        self.gap_center + PIPE_GAP_HALF + PIPE_HALF_HEIGHT
    }

    /// Vertical center of the pair's bottom pipe sprite.
    pub fn bottom_y(&self) -> (y: i64)
        requires
            -POS_LIMIT <= self.gap_center <= POS_LIMIT,
        ensures
            y == self.bottom_y_spec(),
    {
        self.gap_center - PIPE_GAP_HALF - PIPE_HALF_HEIGHT
    }
}

impl SpawnTimer {
    /// The countdown is sound: accumulated time never exceeds the period,
    /// and the period is the fixed spawn cadence.
    pub open spec fn wf(self) -> bool {
        self.elapsed_ms <= self.period_ms && self.period_ms == SPAWN_PERIOD_MS
    }

    /// A fresh countdown with the fixed period and no accumulated time.
    pub fn new() -> (t: SpawnTimer)
        ensures
            t.elapsed_ms == 0,
            t.period_ms == SPAWN_PERIOD_MS,
            t.wf(),
    {
        SpawnTimer { elapsed_ms: 0, period_ms: SPAWN_PERIOD_MS }
    }

    /// Accumulates frame time, capped at the period.
    pub fn tick(&mut self, dt_ms: u64)
        requires
            old(self).wf(),
            dt_ms <= MAX_FRAME_MS,
        ensures
            final(self).period_ms == old(self).period_ms,
            final(self).elapsed_ms == if old(self).elapsed_ms + dt_ms >= old(self).period_ms {
                old(self).period_ms as int
            } else {
                old(self).elapsed_ms + dt_ms
            },
            final(self).wf(),
    {
        let next: u64 = self.elapsed_ms + dt_ms;
        if next >= self.period_ms {
            self.elapsed_ms = self.period_ms;
        } else {
            self.elapsed_ms = next;
        }
    }

    /// Whether a full period has accumulated since the last reset.
    pub fn is_finished(&self) -> (r: bool)
        ensures
            r == (self.elapsed_ms >= self.period_ms),
    {
        self.elapsed_ms >= self.period_ms
    }

    /// Starts the countdown over.
    pub fn reset(&mut self)
        ensures
            final(self).elapsed_ms == 0,
            final(self).period_ms == old(self).period_ms,
    {
        self.elapsed_ms = 0;
    }
}

impl GameState {
    /// The documented invariants of the simulation state, as they hold
    /// between frames: the bird sits at the fixed horizontal position, never
    /// below the ground clamp, within the velocity band a frame can produce,
    /// and strictly between ground and ceiling while play goes on; every
    /// pipe pair is within the playfield with its gap center inside the
    /// clamped range; and the spawn countdown is sound.
    pub open spec fn wf(self) -> bool {
        &&& self.bird.x == 0
        &&& GROUND_CLAMP_Y <= self.bird.y <= BIRD_Y_LIMIT
        &&& BIRD_VEL_MIN <= self.bird.velocity <= JUMP_FORCE
        &&& (!self.game_over ==> GROUND_CLAMP_Y < self.bird.y < CEILING_Y)
        &&& forall|i: int|
            0 <= i < self.pipes@.len() ==> {
                &&& PIPE_DESPAWN_X <= (#[trigger] self.pipes@[i]).x <= SECOND_PIPE_X
                &&& GAP_CENTER_MIN <= self.pipes@[i].gap_center <= GAP_CENTER_MAX
            }
        &&& self.spawn_timer.wf()
    }
}

/// Displacement covered in `dt` milliseconds at `v` milli-units per second,
/// rounded toward zero: the fixed-point counterpart of `v * dt` seconds.
pub open spec fn scaled_by_dt(v: int, dt: int) -> int {
    if v >= 0 {
        (v * dt) / 1000
    } else {
        -((-v * dt) / 1000)
    }
}

/// Computes `scaled_by_dt` on machine integers.
pub fn scale_by_dt(v: i64, dt_ms: u64) -> (r: i64)
    requires
        -VEL_LIMIT - 1_000_000_000 <= v <= VEL_LIMIT + 1_000_000_000,
        dt_ms <= MAX_FRAME_MS,
    ensures
        r == scaled_by_dt(v as int, dt_ms as int),
        -1_100_000_000_000_000 <= r <= 1_100_000_000_000_000,
{
    if v >= 0 {
        proof {
            assert((v as int) * (dt_ms as int) <= 1_001_000_000_000 * 1_000_000int)
                by (nonlinear_arith)
                requires
                    0 <= v as int <= 1_001_000_000_000,
                    0 <= dt_ms as int <= 1_000_000,
            ;
        }
        let mag: u64 = (v as u64) * dt_ms / 1000;
        proof {
            vstd::arithmetic::div_mod::lemma_div_is_ordered(
                (v as u64) * (dt_ms as int),
                1_001_000_000_000 * 1_000_000int,
                1000,
            );
        }
        mag as i64
    } else {
        let neg: i64 = -v;
        proof {
            assert((neg as int) * (dt_ms as int) <= 1_001_000_000_000 * 1_000_000int)
                by (nonlinear_arith)
                requires
                    0 <= neg as int <= 1_001_000_000_000,
                    0 <= dt_ms as int <= 1_000_000,
            ;
        }
        let mag: u64 = (neg as u64) * dt_ms / 1000;
        proof {
            vstd::arithmetic::div_mod::lemma_div_is_ordered(
                (neg as u64) * (dt_ms as int),
                1_001_000_000_000 * 1_000_000int,
                1000,
            );
        }
        -(mag as i64)
    }
}

} // verus!
