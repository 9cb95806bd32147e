//! The per-frame systems: motion, input, spawner, scroller, collision
//! checker, scorer, and presentation/restart, plus the scene setup and a
//! `frame` function that runs them in the engine's declared order.
//!
//! Each system's behaviour is captured by a relation between the state
//! before and after the call; the system's `ensures` is exactly that
//! relation.

use vstd::prelude::*;
use crate::game::{
    Bird, GameState, PipePair, SpawnTimer, clamp_spec, scale_by_dt, scaled_by_dt, BIRD_HALF,
    BIRD_VEL_MIN, BIRD_Y_LIMIT, CEILING_Y, GAP_CENTER_MAX, GAP_CENTER_MIN, GAP_DRAW_RANGE,
    GRAVITY_PER_MS, GROUND_CLAMP_Y, JUMP_FORCE, MAX_FRAME_MS, PIPE_DESPAWN_X, PIPE_HALF_HEIGHT,
    PIPE_HALF_WIDTH, PIPE_SPAWN_X, PIPE_SPEED_PER_MS, POS_LIMIT, SECOND_PIPE_X, SPAWN_PERIOD_MS,
    VEL_LIMIT,
};
use crate::rng::random_milli;
use crate::text::{game_over_message, game_over_text_spec, score_text, score_text_spec};
use vstd::arithmetic::div_mod::{
    lemma_div_is_ordered, lemma_div_pos_is_pos, lemma_fundamental_div_mod, lemma_mod_bound,
};

verus! {

/// The two states agree on every component of the simulation.
pub open spec fn states_equal(a: GameState, b: GameState) -> bool {
    &&& a.bird == b.bird
    &&& a.pipes@ == b.pipes@
    &&& a.score == b.score
    &&& a.game_over == b.game_over
    &&& a.spawn_timer == b.spawn_timer
}

/// The gap center produced by a draw `d` from `0 .. GAP_DRAW_RANGE`:
/// the draw is centered, widened to a 300-unit band, then clamped.
pub open spec fn gap_center_of(d: int) -> int {
    clamp_spec((d - 500) * 300, GAP_CENTER_MIN as int, GAP_CENTER_MAX as int)
}

/// The pipe pair a spawn at `x` creates from draw `d`.
pub open spec fn pipe_from_draw(x: i64, d: int) -> PipePair {
    PipePair { x: x, gap_center: gap_center_of(d) as i64 }
}

/// Appends the pipe pair that `draw` places at `x_position`.
pub fn spawn_pipe_from_draw(state: &mut GameState, x_position: i64, draw: u64)
    requires
        draw < GAP_DRAW_RANGE,
    ensures
        final(state).pipes@ == old(state).pipes@.push(pipe_from_draw(x_position, draw as int)),
        final(state).bird == old(state).bird,
        final(state).score == old(state).score,
        final(state).game_over == old(state).game_over,
        final(state).spawn_timer == old(state).spawn_timer,
{
    let di: i64 = draw as i64;
    let raw: i64 = (di - 500) * 300;
    let gap_center: i64 = if raw < GAP_CENTER_MIN {
        GAP_CENTER_MIN
    } else if raw > GAP_CENTER_MAX {
        GAP_CENTER_MAX
    } else {
        raw
    };
    state.pipes.push(PipePair { x: x_position, gap_center });
}

/// Creates one pipe pair at `x_position` with a randomly placed gap,
/// clamped to the fixed vertical band.
pub fn spawn_pipe(state: &mut GameState, x_position: i64)
    ensures
        exists|d: u64|
            d < GAP_DRAW_RANGE && final(state).pipes@ == old(state).pipes@.push(
                pipe_from_draw(x_position, d as int),
            ),
        final(state).pipes@.len() == old(state).pipes@.len() + 1,
        final(state).pipes@.last().x == x_position,
        GAP_CENTER_MIN <= final(state).pipes@.last().gap_center <= GAP_CENTER_MAX,
        final(state).pipes@.subrange(0, old(state).pipes@.len() as int) == old(state).pipes@,
        final(state).bird == old(state).bird,
        final(state).score == old(state).score,
        final(state).game_over == old(state).game_over,
        final(state).spawn_timer == old(state).spawn_timer,
{
    let draw = random_milli();
    let ghost pre = state.pipes@;
    spawn_pipe_from_draw(state, x_position, draw);
    proof {
        assert(final(state).pipes@ == pre.push(pipe_from_draw(x_position, draw as int)));
        assert(final(state).pipes@.subrange(0, pre.len() as int) =~= pre);
    }
}

/// How the motion system changes the bird over a frame of `dt`
/// milliseconds: gravity pulls the velocity down, the velocity carries the
/// vertical position, and the ground clamp catches a bird that would sink
/// below it, zeroing its velocity. A set game-over flag freezes everything.
pub open spec fn moved_rel(pre: GameState, post: GameState, dt: int) -> bool {
    if pre.game_over {
        states_equal(pre, post)
    } else {
        let v2 = pre.bird.velocity - GRAVITY_PER_MS * dt;
        let y2 = pre.bird.y + scaled_by_dt(v2, dt);
        &&& post.bird.x == pre.bird.x
        &&& if y2 < GROUND_CLAMP_Y {
            post.bird.y == GROUND_CLAMP_Y && post.bird.velocity == 0
        } else {
            post.bird.y == y2 && post.bird.velocity == v2
        }
        &&& post.pipes@ == pre.pipes@
        &&& post.score == pre.score
        &&& post.game_over == pre.game_over
        &&& post.spawn_timer == pre.spawn_timer
    }
}

/// Motion system: integrates gravity and vertical velocity into the bird's
/// position; a no-op while game-over is set.
pub fn bird_movement(state: &mut GameState, dt_ms: u64)
    requires
        dt_ms <= MAX_FRAME_MS,
        -POS_LIMIT <= old(state).bird.y <= POS_LIMIT,
        -VEL_LIMIT <= old(state).bird.velocity <= VEL_LIMIT,
    ensures
        moved_rel(*old(state), *final(state), dt_ms as int),
        old(state).bird.y >= GROUND_CLAMP_Y ==> final(state).bird.y >= GROUND_CLAMP_Y,
{
    if state.game_over {
        return ;
    }
    let v2: i64 = state.bird.velocity - GRAVITY_PER_MS * (dt_ms as i64);
    let y2: i64 = state.bird.y + scale_by_dt(v2, dt_ms);
    if y2 < GROUND_CLAMP_Y {
        state.bird.y = GROUND_CLAMP_Y;
        state.bird.velocity = 0;
    } else {
        state.bird.y = y2;
        state.bird.velocity = v2;
    }
}

/// How the input system changes the bird: a jump press while play goes on
/// sets the velocity to the fixed impulse, whatever it was before.
pub open spec fn jumped_rel(pre: GameState, post: GameState, jump_pressed: bool) -> bool {
    if pre.game_over || !jump_pressed {
        states_equal(pre, post)
    } else {
        &&& post.bird.x == pre.bird.x
        &&& post.bird.y == pre.bird.y
        &&& post.bird.velocity == JUMP_FORCE
        &&& post.pipes@ == pre.pipes@
        &&& post.score == pre.score
        &&& post.game_over == pre.game_over
        &&& post.spawn_timer == pre.spawn_timer
    }
}

/// Input system: converts a jump key press into an upward velocity
/// impulse; a no-op while game-over is set.
pub fn bird_jump(state: &mut GameState, jump_pressed: bool)
    ensures
        jumped_rel(*old(state), *final(state), jump_pressed),
{
    if state.game_over {
        return ;
    }
    if jump_pressed {
        state.bird.velocity = JUMP_FORCE;
    }
}

/// How the spawner changes the state: frame time accumulates on the
/// countdown; when a full period has passed, one pipe pair appears at the
/// fixed horizontal offset and the countdown starts over. A set game-over
/// flag freezes both the countdown and the spawning.
pub open spec fn spawned_rel(pre: GameState, post: GameState, dt: int) -> bool {
    if pre.game_over {
        states_equal(pre, post)
    } else {
        &&& post.bird == pre.bird
        &&& post.score == pre.score
        &&& post.game_over == pre.game_over
        &&& post.spawn_timer.period_ms == pre.spawn_timer.period_ms
        &&& if pre.spawn_timer.elapsed_ms + dt >= pre.spawn_timer.period_ms {
            &&& post.spawn_timer.elapsed_ms == 0
            &&& exists|d: u64|
                d < GAP_DRAW_RANGE && post.pipes@ == pre.pipes@.push(
                    pipe_from_draw(PIPE_SPAWN_X, d as int),
                )
        } else {
            &&& post.spawn_timer.elapsed_ms == pre.spawn_timer.elapsed_ms + dt
            &&& post.pipes@ == pre.pipes@
        }
    }
}

/// Spawner: ticks the repeating countdown and creates one pipe pair on
/// expiry; a no-op while game-over is set.
pub fn pipe_spawning(state: &mut GameState, dt_ms: u64)
    requires
        dt_ms <= MAX_FRAME_MS,
        old(state).spawn_timer.wf(),
    ensures
        spawned_rel(*old(state), *final(state), dt_ms as int),
        final(state).spawn_timer.wf(),
{
    if state.game_over {
        return ;
    }
    state.spawn_timer.tick(dt_ms);
    if state.spawn_timer.is_finished() {
        spawn_pipe(state, PIPE_SPAWN_X);
        state.spawn_timer.reset();
    }
}

/// Where a pipe pair stands after `dt` milliseconds of constant leftward
/// scroll.
pub open spec fn scrolled_pair(p: PipePair, dt: int) -> PipePair {
    PipePair { x: (p.x - PIPE_SPEED_PER_MS * dt) as i64, gap_center: p.gap_center }
}

/// The pipe pairs left after a frame of scrolling: every pair moves left at
/// the fixed speed, and pairs past the despawn line disappear. Order is
/// kept.
pub open spec fn scrolled_pipes(pipes: Seq<PipePair>, dt: int) -> Seq<PipePair>
    decreases pipes.len(),
{
    if pipes.len() == 0 {
        Seq::empty()
    } else {
        let rest = scrolled_pipes(pipes.drop_last(), dt);
        let moved = scrolled_pair(pipes.last(), dt);
        if moved.x >= PIPE_DESPAWN_X {
            rest.push(moved)
        } else {
            rest
        }
    }
}

/// How the scroller changes the state. It is deliberately not gated on
/// the game-over flag: pipes keep drifting on the game-over screen.
pub open spec fn scrolled_rel(pre: GameState, post: GameState, dt: int) -> bool {
    &&& post.pipes@ == scrolled_pipes(pre.pipes@, dt)
    &&& post.bird == pre.bird
    &&& post.score == pre.score
    &&& post.game_over == pre.game_over
    &&& post.spawn_timer == pre.spawn_timer
}

/// Scroller: advances every pipe pair leftward and despawns the pairs that
/// have left the playfield.
pub fn pipe_movement(state: &mut GameState, dt_ms: u64)
    requires
        dt_ms <= MAX_FRAME_MS,
        forall|i: int|
            0 <= i < old(state).pipes@.len() ==> -POS_LIMIT <= (
            #[trigger] old(state).pipes@[i]).x <= POS_LIMIT,
    ensures
        scrolled_rel(*old(state), *final(state), dt_ms as int),
{
    let shift: i64 = PIPE_SPEED_PER_MS * (dt_ms as i64);
    let mut kept: Vec<PipePair> = Vec::new();
    let n = state.pipes.len();
    let ghost all = state.pipes@;
    let mut i: usize = 0;
    while i < n
        invariant
            n == all.len(),
            state.pipes@ == all,
            0 <= i <= n,
            shift == PIPE_SPEED_PER_MS * (dt_ms as int),
            0 <= shift <= 200_000_000,
            forall|j: int| 0 <= j < all.len() ==> -POS_LIMIT <= (#[trigger] all[j]).x <= POS_LIMIT,
            kept@ == scrolled_pipes(all.take(i as int), dt_ms as int),
        decreases n - i,
    {
        let p = state.pipes[i];
        let moved = PipePair { x: p.x - shift, gap_center: p.gap_center };
        if moved.x >= PIPE_DESPAWN_X {
            kept.push(moved);
        }
        proof {
            assert(all.take(i + 1).drop_last() =~= all.take(i as int));
            assert(all.take(i + 1).last() == all[i as int]);
        }
        i = i + 1;
    }
    proof {
        assert(all.take(n as int) =~= all);
    }
    state.pipes = kept;
}

/// The bird has left the vertical play band: it touches the ground clamp
/// or reaches the ceiling.
pub open spec fn bird_hits_bounds(b: Bird) -> bool {
    b.y <= GROUND_CLAMP_Y || b.y >= CEILING_Y
}

/// Axis-aligned overlap between the bird's square and one pipe sprite
/// centered at `(px, py)`.
pub open spec fn bird_overlaps_pipe(b: Bird, px: int, py: int) -> bool {
    &&& b.x - BIRD_HALF < px + PIPE_HALF_WIDTH
    &&& b.x + BIRD_HALF > px - PIPE_HALF_WIDTH
    &&& b.y - BIRD_HALF < py + PIPE_HALF_HEIGHT
    &&& b.y + BIRD_HALF > py - PIPE_HALF_HEIGHT
}

/// The bird overlaps either sprite of a pipe pair.
pub open spec fn bird_overlaps_pair(b: Bird, p: PipePair) -> bool {
    ||| bird_overlaps_pipe(b, p.x as int, p.top_y_spec())
    ||| bird_overlaps_pipe(b, p.x as int, p.bottom_y_spec())
}

/// A collision this frame: the bird is out of vertical bounds, or overlaps
/// some pipe pair.
pub open spec fn collision_hit(b: Bird, pipes: Seq<PipePair>) -> bool {
    ||| bird_hits_bounds(b)
    ||| exists|i: int| 0 <= i < pipes.len() && bird_overlaps_pair(b, pipes[i])
}

/// How the collision checker changes the state: once set, the game-over
/// flag is latched and nothing is re-evaluated; otherwise the flag becomes
/// exactly whether a collision happened this frame.
pub open spec fn collided_rel(pre: GameState, post: GameState) -> bool {
    if pre.game_over {
        states_equal(pre, post)
    } else {
        &&& post.game_over == collision_hit(pre.bird, pre.pipes@)
        &&& post.bird == pre.bird
        &&& post.pipes@ == pre.pipes@
        &&& post.score == pre.score
        &&& post.spawn_timer == pre.spawn_timer
    }
}

/// Collision checker: detects bird/ground, bird/ceiling and bird/pipe
/// overlap and latches the game-over flag.
pub fn collision_detection(state: &mut GameState)
    requires
        -POS_LIMIT <= old(state).bird.x <= POS_LIMIT,
        -POS_LIMIT <= old(state).bird.y <= POS_LIMIT,
        forall|i: int|
            0 <= i < old(state).pipes@.len() ==> {
                &&& -POS_LIMIT <= (#[trigger] old(state).pipes@[i]).x <= POS_LIMIT
                &&& -POS_LIMIT <= old(state).pipes@[i].gap_center <= POS_LIMIT
            },
    ensures
        collided_rel(*old(state), *final(state)),
{
    if state.game_over {
        return ;
    }
    let bird = state.bird;
    if bird.y <= GROUND_CLAMP_Y || bird.y >= CEILING_Y {
        state.game_over = true;
        return ;
    }
    let n = state.pipes.len();
    let mut i: usize = 0;
    while i < n
        invariant
            n == state.pipes@.len(),
            *state == *old(state),
            bird == state.bird,
            0 <= i <= n,
            -POS_LIMIT <= bird.x <= POS_LIMIT,
            -POS_LIMIT <= bird.y <= POS_LIMIT,
            forall|k: int|
                0 <= k < state.pipes@.len() ==> {
                    &&& -POS_LIMIT <= (#[trigger] state.pipes@[k]).x <= POS_LIMIT
                    &&& -POS_LIMIT <= state.pipes@[k].gap_center <= POS_LIMIT
                },
            forall|j: int| 0 <= j < i ==> !bird_overlaps_pair(bird, #[trigger] state.pipes@[j]),
        decreases n - i,
    {
        let p = state.pipes[i];
        let top = p.top_y();
        let bottom = p.bottom_y();
        let top_hit = bird.x - BIRD_HALF < p.x + PIPE_HALF_WIDTH && bird.x + BIRD_HALF > p.x
            - PIPE_HALF_WIDTH && bird.y - BIRD_HALF < top + PIPE_HALF_HEIGHT && bird.y + BIRD_HALF
            > top - PIPE_HALF_HEIGHT;
        let bottom_hit = bird.x - BIRD_HALF < p.x + PIPE_HALF_WIDTH && bird.x + BIRD_HALF > p.x
            - PIPE_HALF_WIDTH && bird.y - BIRD_HALF < bottom + PIPE_HALF_HEIGHT && bird.y
            + BIRD_HALF > bottom - PIPE_HALF_HEIGHT;
        if top_hit || bottom_hit {
            state.game_over = true;
            return ;
        }
        i = i + 1;
    }
}

/// Two pipe entities stand at each pair's position, so a pair inside the
/// one-frame scoring band behind the bird counts twice.
pub open spec fn pair_in_score_band(p: PipePair, bird_x: int) -> bool {
    p.x < bird_x - 10_000 && p.x > bird_x - 15_000
}

/// Points the scorer awards this frame: two per pipe pair whose position
/// lies in the narrow band just behind the bird.
pub open spec fn scoring_points(pipes: Seq<PipePair>, bird_x: int) -> nat
    decreases pipes.len(),
{
    if pipes.len() == 0 {
        0
    } else {
        scoring_points(pipes.drop_last(), bird_x) + if pair_in_score_band(
            pipes.last(),
            bird_x,
        ) {
            2nat
        } else {
            0nat
        }
    }
}

/// How the scorer changes the state. It runs whether or not game-over is
/// set: pipes that keep drifting on the game-over screen still score.
pub open spec fn scored_rel(pre: GameState, post: GameState) -> bool {
    &&& post.score == pre.score + scoring_points(pre.pipes@, pre.bird.x as int)
    &&& post.bird == pre.bird
    &&& post.pipes@ == pre.pipes@
    &&& post.game_over == pre.game_over
    &&& post.spawn_timer == pre.spawn_timer
}

/// Scorer: awards points for every pipe entity in the narrow band just
/// behind the bird's horizontal position.
pub fn scoring(state: &mut GameState)
    requires
        -POS_LIMIT <= old(state).bird.x <= POS_LIMIT,
        old(state).score + 2 * old(state).pipes@.len() <= u32::MAX,
    ensures
        scored_rel(*old(state), *final(state)),
{
    let near: i64 = state.bird.x - 10_000;
    let far: i64 = state.bird.x - 15_000;
    let n = state.pipes.len();
    let mut gained: u32 = 0;
    let mut i: usize = 0;
    while i < n
        invariant
            n == state.pipes@.len(),
            *state == *old(state),
            0 <= i <= n,
            near == old(state).bird.x - 10_000,
            far == old(state).bird.x - 15_000,
            gained == scoring_points(state.pipes@.take(i as int), old(state).bird.x as int),
            gained <= 2 * i,
            old(state).score + 2 * n <= u32::MAX,
        decreases n - i,
    {
        let p = state.pipes[i];
        proof {
            assert(state.pipes@.take(i + 1).drop_last() =~= state.pipes@.take(i as int));
            assert(state.pipes@.take(i + 1).last() == state.pipes@[i as int]);
        }
        if p.x < near && p.x > far {
            gained = gained + 2;
        }
        i = i + 1;
    }
    proof {
        assert(state.pipes@.take(n as int) =~= state.pipes@);
    }
    state.score = state.score + gained;
}

/// A frame's displacement at a velocity no higher than the jump impulse
/// cannot exceed the impulse carried through the longest accepted frame.
proof fn lemma_scaled_upper(v: int, dt: int)
    requires
        v <= JUMP_FORCE,
        0 <= dt <= MAX_FRAME_MS,
    ensures
        scaled_by_dt(v, dt) <= 500_000_000,
{
    if v >= 0 {
        assert(v * dt <= 500_000 * 1_000_000int) by (nonlinear_arith)
            requires
                0 <= v <= 500_000,
                0 <= dt <= 1_000_000,
        ;
        lemma_div_is_ordered(v * dt, 500_000 * 1_000_000int, 1000);
    } else {
        assert(-v * dt >= 0) by (nonlinear_arith)
            requires
                v < 0,
                dt >= 0,
        ;
        lemma_div_pos_is_pos(-v * dt, 1000);
    }
}

/// A fall that covers no more than 580 units within one frame cannot come
/// from a velocity steeper than the frame-preserved bound.
proof fn lemma_fall_bound(v: int, dt: int)
    requires
        v < 0,
        1 <= dt,
        scaled_by_dt(v, dt) >= -580_000,
    ensures
        v >= BIRD_VEL_MIN,
{
    let m = -v * dt;
    assert(m / 1000 <= 580_000);
    assert(m >= 0) by (nonlinear_arith)
        requires
            v < 0,
            dt >= 1,
            m == -v * dt,
    ;
    lemma_fundamental_div_mod(m, 1000);
    lemma_mod_bound(m, 1000);
    assert(m <= 580_000_999);
    assert(-v <= m) by (nonlinear_arith)
        requires
            v < 0,
            dt >= 1,
            m == -v * dt,
    ;
}

/// Scrolling keeps every surviving pipe pair inside the playfield, keeps
/// its gap center, and never grows the collection.
proof fn lemma_scrolled_bounds(pipes: Seq<PipePair>, dt: int)
    requires
        0 <= dt <= MAX_FRAME_MS,
        forall|i: int|
            0 <= i < pipes.len() ==> {
                &&& PIPE_DESPAWN_X <= (#[trigger] pipes[i]).x <= SECOND_PIPE_X
                &&& GAP_CENTER_MIN <= pipes[i].gap_center <= GAP_CENTER_MAX
            },
    ensures
        scrolled_pipes(pipes, dt).len() <= pipes.len(),
        forall|i: int|
            0 <= i < scrolled_pipes(pipes, dt).len() ==> {
                &&& PIPE_DESPAWN_X <= (#[trigger] scrolled_pipes(pipes, dt)[i]).x <= SECOND_PIPE_X
                &&& GAP_CENTER_MIN <= scrolled_pipes(pipes, dt)[i].gap_center <= GAP_CENTER_MAX
            },
    decreases pipes.len(),
{
    if pipes.len() > 0 {
        lemma_scrolled_bounds(pipes.drop_last(), dt);
        assert(pipes.last() == pipes[pipes.len() - 1]);
        assert(0 <= PIPE_SPEED_PER_MS * dt <= 200_000_000);
    }
}

/// One whole frame: the seven systems run in the engine's declared order,
/// each step related to the next by its system's relation.
pub open spec fn frame_rel(
    pre: GameState,
    post: GameState,
    text: Seq<char>,
    dt: int,
    jump_pressed: bool,
    restart_pressed: bool,
) -> bool {
    exists|s1: GameState, s2: GameState, s3: GameState, s4: GameState, s5: GameState, s6: GameState|
        {
            &&& #[trigger] moved_rel(pre, s1, dt)
            &&& #[trigger] jumped_rel(s1, s2, jump_pressed)
            &&& #[trigger] spawned_rel(s2, s3, dt)
            &&& #[trigger] scrolled_rel(s3, s4, dt)
            &&& #[trigger] collided_rel(s4, s5)
            &&& #[trigger] scored_rel(s5, s6)
            &&& presented_rel(s6, post, text, restart_pressed)
        }
}

/// Runs one whole frame in the engine's declared order: motion, input,
/// spawner, scroller, collision checker, scorer, presentation/restart.
/// Returns the text the presentation system shows, preserves every
/// documented invariant of the state, freezes bird and countdown while
/// game-over is set, and resets on a restart press.
pub fn frame(state: &mut GameState, dt_ms: u64, jump_pressed: bool, restart_pressed: bool) -> (text:
    String)
    requires
        old(state).wf(),
        dt_ms <= MAX_FRAME_MS,
        old(state).score + 2 * (old(state).pipes@.len() + 1) <= u32::MAX,
    ensures
        final(state).wf(),
        frame_rel(
            *old(state),
            *final(state),
            text@,
            dt_ms as int,
            jump_pressed,
            restart_pressed,
        ),
        old(state).game_over && !restart_pressed ==> final(state).bird == old(state).bird
            && final(state).spawn_timer == old(state).spawn_timer && final(state).game_over,
        old(state).game_over && restart_pressed ==> final(state).score == 0
            && !final(state).game_over && final(state).bird == Bird::start_spec()
            && final(state).pipes@.len() == 2,
        final(state).bird.y >= GROUND_CLAMP_Y,
        !restart_pressed ==> final(state).score >= old(state).score,
        forall|i: int|
            0 <= i < final(state).pipes@.len() ==> GAP_CENTER_MIN
                <= (#[trigger] final(state).pipes@[i]).gap_center <= GAP_CENTER_MAX,
{
    let ghost s0 = *state;
    bird_movement(state, dt_ms);
    let ghost s1 = *state;
    proof {
        if !s0.game_over {
            let v2 = s0.bird.velocity - GRAVITY_PER_MS * (dt_ms as int);
            lemma_scaled_upper(v2, dt_ms as int);
            if s1.bird.velocity == v2 && v2 < 0 && dt_ms >= 1 {
                lemma_fall_bound(v2, dt_ms as int);
            }
        }
        assert(GROUND_CLAMP_Y <= s1.bird.y <= BIRD_Y_LIMIT);
        assert(BIRD_VEL_MIN <= s1.bird.velocity <= JUMP_FORCE);
        assert(s1.bird.x == 0);
    }
    bird_jump(state, jump_pressed);
    let ghost s2 = *state;
    pipe_spawning(state, dt_ms);
    let ghost s3 = *state;
    proof {
        if !s2.game_over && s2.spawn_timer.elapsed_ms + dt_ms >= s2.spawn_timer.period_ms {
            let d = choose|d: u64|
                d < GAP_DRAW_RANGE && s3.pipes@ == s2.pipes@.push(
                    pipe_from_draw(PIPE_SPAWN_X, d as int),
                );
            assert(s3.pipes@ == s2.pipes@.push(pipe_from_draw(PIPE_SPAWN_X, d as int)));
        }
        assert(forall|i: int|
            0 <= i < s3.pipes@.len() ==> {
                &&& PIPE_DESPAWN_X <= (#[trigger] s3.pipes@[i]).x <= SECOND_PIPE_X
                &&& GAP_CENTER_MIN <= s3.pipes@[i].gap_center <= GAP_CENTER_MAX
            });
        assert(s3.pipes@.len() <= s0.pipes@.len() + 1);
    }
    pipe_movement(state, dt_ms);
    let ghost s4 = *state;
    proof {
        lemma_scrolled_bounds(s3.pipes@, dt_ms as int);
    }
    collision_detection(state);
    let ghost s5 = *state;
    scoring(state);
    let ghost s6 = *state;
    let text = game_over_text(state, restart_pressed);
    proof {
        assert(moved_rel(s0, s1, dt_ms as int));
        assert(jumped_rel(s1, s2, jump_pressed));
        assert(spawned_rel(s2, s3, dt_ms as int));
        assert(scrolled_rel(s3, s4, dt_ms as int));
        assert(collided_rel(s4, s5));
        assert(scored_rel(s5, s6));
        assert(presented_rel(s6, *state, text@, restart_pressed));
        if s6.game_over && restart_pressed {
            let (d1, d2) = choose|d1: u64, d2: u64|
                d1 < GAP_DRAW_RANGE && d2 < GAP_DRAW_RANGE && state.pipes@ == seq![
                    pipe_from_draw(PIPE_SPAWN_X, d1 as int),
                    pipe_from_draw(SECOND_PIPE_X, d2 as int),
                ];
            assert(state.pipes@.len() == 2);
            assert(state.pipes@[0] == pipe_from_draw(PIPE_SPAWN_X, d1 as int));
            assert(state.pipes@[1] == pipe_from_draw(SECOND_PIPE_X, d2 as int));
            assert(state.wf());
        } else {
            assert(states_equal(s6, *state));
            assert(state.wf());
        }
    }
    text
}

/// How the presentation system changes the state and what text it shows:
/// the game-over line or the score line for the score as it stands, and,
/// on a restart press while game-over is set, a reset — score to zero,
/// flag cleared, a fresh bird and two fresh pipe pairs (the countdown
/// keeps its accumulated time).
pub open spec fn presented_rel(
    pre: GameState,
    post: GameState,
    text: Seq<char>,
    restart_pressed: bool,
) -> bool {
    &&& text == if pre.game_over {
        game_over_text_spec(pre.score as nat)
    } else {
        score_text_spec(pre.score as nat)
    }
    &&& if pre.game_over && restart_pressed {
        &&& post.bird == Bird::start_spec()
        &&& post.score == 0
        &&& !post.game_over
        &&& post.spawn_timer == pre.spawn_timer
        &&& exists|d1: u64, d2: u64|
            d1 < GAP_DRAW_RANGE && d2 < GAP_DRAW_RANGE && post.pipes@ == seq![
                pipe_from_draw(PIPE_SPAWN_X, d1 as int),
                pipe_from_draw(SECOND_PIPE_X, d2 as int),
            ]
    } else {
        states_equal(pre, post)
    }
}

/// Presentation system: renders the score or game-over line and handles
/// restart-on-keypress, despawning every bird and pipe and spawning a
/// fresh scene.
pub fn game_over_text(state: &mut GameState, restart_pressed: bool) -> (text: String)
    ensures
        presented_rel(*old(state), *final(state), text@, restart_pressed),
{
    let text = if state.game_over {
        game_over_message(state.score)
    } else {
        score_text(state.score)
    };
    if state.game_over && restart_pressed {
        state.game_over = false;
        state.score = 0;
        state.bird = Bird::start();
        state.pipes = Vec::new();
        spawn_pipe(state, PIPE_SPAWN_X);
        let ghost mid = state.pipes@;
        spawn_pipe(state, SECOND_PIPE_X);
        proof {
            let d1 = choose|d: u64|
                d < GAP_DRAW_RANGE && mid == Seq::<PipePair>::empty().push(
                    pipe_from_draw(PIPE_SPAWN_X, d as int),
                );
            let d2 = choose|d: u64|
                d < GAP_DRAW_RANGE && state.pipes@ == mid.push(
                    pipe_from_draw(SECOND_PIPE_X, d as int),
                );
            assert(state.pipes@ =~= seq![
                pipe_from_draw(PIPE_SPAWN_X, d1 as int),
                pipe_from_draw(SECOND_PIPE_X, d2 as int),
            ]);
        }
    }
    text
}

/// Creates the scene a play session starts from: the bird at the center,
/// two pipe pairs ahead of it, a zero score and a fresh countdown.
pub fn setup() -> (s: GameState)
    ensures
        s.wf(),
        s.bird == Bird::start_spec(),
        s.score == 0,
        !s.game_over,
        s.spawn_timer.elapsed_ms == 0,
        s.spawn_timer.period_ms == SPAWN_PERIOD_MS,
        s.pipes@.len() == 2,
        exists|d1: u64, d2: u64|
            d1 < GAP_DRAW_RANGE && d2 < GAP_DRAW_RANGE && s.pipes@ == seq![
                pipe_from_draw(PIPE_SPAWN_X, d1 as int),
                pipe_from_draw(SECOND_PIPE_X, d2 as int),
            ],
{
    let mut s = GameState {
        bird: Bird::start(),
        pipes: Vec::new(),
        score: 0,
        game_over: false,
        spawn_timer: SpawnTimer::new(),
    };
    spawn_pipe(&mut s, PIPE_SPAWN_X);
    let ghost mid = s.pipes@;
    spawn_pipe(&mut s, SECOND_PIPE_X);
    proof {
        let d1 = choose|d: u64|
            d < GAP_DRAW_RANGE && mid == Seq::<PipePair>::empty().push(
                pipe_from_draw(PIPE_SPAWN_X, d as int),
            );
        let d2 = choose|d: u64|
            d < GAP_DRAW_RANGE && s.pipes@ == mid.push(pipe_from_draw(SECOND_PIPE_X, d as int));
        assert(s.pipes@ =~= seq![
            pipe_from_draw(PIPE_SPAWN_X, d1 as int),
            pipe_from_draw(SECOND_PIPE_X, d2 as int),
        ]);
    }
    s
}

} // verus!
