use flappy_sim::game::{Bird, GameState, PipePair, SpawnTimer};
use flappy_sim::systems::{
    bird_jump, bird_movement, collision_detection, frame, game_over_text, pipe_movement,
    pipe_spawning, scoring, setup, spawn_pipe,
};

fn fresh_state() -> GameState {
    GameState {
        bird: Bird { x: 0, y: 0, velocity: 0 },
        pipes: Vec::new(),
        score: 0,
        game_over: false,
        spawn_timer: SpawnTimer {
            elapsed_ms: 0,
            period_ms: 2000,
        },
    }
}

#[test]
fn motion_one_frame_from_rest() {
    // Bird at y = 0 with velocity 0, one frame of 0.1 s: velocity drops to
    // -98 units/s and the bird sinks 9.8 units.
    let mut s = fresh_state();
    bird_movement(&mut s, 100);
    assert_eq!(s.bird.velocity, -98_000);
    assert_eq!(s.bird.y, -9_800);
}

#[test]
fn motion_clamps_at_ground() {
    let mut s = fresh_state();
    s.bird.y = -279_000;
    s.bird.velocity = -400_000;
    bird_movement(&mut s, 100);
    assert_eq!(s.bird.y, -280_000);
    assert_eq!(s.bird.velocity, 0);
}

#[test]
fn motion_frozen_after_game_over() {
    let mut s = fresh_state();
    s.bird.y = 12_345;
    s.bird.velocity = -70_000;
    s.game_over = true;
    bird_movement(&mut s, 100);
    assert_eq!(s.bird.y, 12_345);
    assert_eq!(s.bird.velocity, -70_000);
}

#[test]
fn jump_sets_fixed_impulse() {
    // The impulse replaces the old velocity, whatever it was.
    let mut s = fresh_state();
    s.bird.velocity = -123_456;
    bird_jump(&mut s, true);
    assert_eq!(s.bird.velocity, 500_000);

    let mut fast_up = fresh_state();
    fast_up.bird.velocity = 499_999;
    bird_jump(&mut fast_up, true);
    assert_eq!(fast_up.bird.velocity, 500_000);
}

#[test]
fn jump_ignored_after_game_over() {
    let mut s = fresh_state();
    s.game_over = true;
    s.bird.velocity = -70_000;
    bird_jump(&mut s, true);
    assert_eq!(s.bird.velocity, -70_000);
}

#[test]
fn spawner_waits_for_the_period() {
    let mut s = fresh_state();
    pipe_spawning(&mut s, 1999);
    assert_eq!(s.pipes.len(), 0);
    assert_eq!(s.spawn_timer.elapsed_ms, 1999);
}

#[test]
fn spawner_fires_on_expiry_and_resets() {
    let mut s = fresh_state();
    s.spawn_timer.elapsed_ms = 1999;
    pipe_spawning(&mut s, 1);
    assert_eq!(s.pipes.len(), 1);
    assert_eq!(s.pipes[0].x, 400_000);
    assert_eq!(s.spawn_timer.elapsed_ms, 0);
}

#[test]
fn spawner_frozen_after_game_over() {
    let mut s = fresh_state();
    s.spawn_timer.elapsed_ms = 1999;
    s.game_over = true;
    pipe_spawning(&mut s, 100);
    assert_eq!(s.pipes.len(), 0);
    assert_eq!(s.spawn_timer.elapsed_ms, 1999);
}

#[test]
fn gap_center_always_in_clamped_range() {
    // Whatever the random draw gives, the gap center lands inside the
    // fixed clamped band; the reachable values stay well inside it.
    for _ in 0..200 {
        let mut s = fresh_state();
        spawn_pipe(&mut s, 400_000);
        let gap = s.pipes[0].gap_center;
        assert!((-200_000..=200_000).contains(&gap));
        assert!((-150_000..=149_700).contains(&gap));
    }
}

#[test]
fn scroller_moves_pipes_left() {
    let mut s = fresh_state();
    s.pipes.push(PipePair {
        x: 400_000,
        gap_center: 0,
    });
    pipe_movement(&mut s, 100);
    assert_eq!(s.pipes[0].x, 380_000);
}

#[test]
fn scroller_despawns_past_boundary() {
    let mut s = fresh_state();
    s.pipes.push(PipePair {
        x: -499_000,
        gap_center: 0,
    });
    s.pipes.push(PipePair {
        x: 100_000,
        gap_center: 50_000,
    });
    pipe_movement(&mut s, 100);
    assert_eq!(s.pipes.len(), 1);
    assert_eq!(s.pipes[0].x, 80_000);
}

#[test]
fn scroller_runs_even_after_game_over() {
    let mut s = fresh_state();
    s.game_over = true;
    s.pipes.push(PipePair {
        x: 400_000,
        gap_center: 0,
    });
    pipe_movement(&mut s, 100);
    assert_eq!(s.pipes[0].x, 380_000);
}

#[test]
fn collision_with_pipe_band_sets_game_over() {
    // The bird overlaps the bottom pipe of a pair standing at its own x.
    let mut s = fresh_state();
    s.bird.y = -100_000;
    s.pipes.push(PipePair {
        x: 0,
        gap_center: 100_000,
    });
    collision_detection(&mut s);
    assert!(s.game_over);
}

#[test]
fn collision_spares_the_gap() {
    let mut s = fresh_state();
    s.bird.y = 100_000;
    s.pipes.push(PipePair {
        x: 0,
        gap_center: 100_000,
    });
    collision_detection(&mut s);
    assert!(!s.game_over);
}

#[test]
fn collision_at_ground_and_ceiling() {
    let mut grounded = fresh_state();
    grounded.bird.y = -280_000;
    collision_detection(&mut grounded);
    assert!(grounded.game_over);

    let mut high = fresh_state();
    high.bird.y = 300_000;
    collision_detection(&mut high);
    assert!(high.game_over);
}

#[test]
fn collision_is_latched() {
    // Once set, the flag stays; a frame without a restart press keeps the
    // bird and the countdown frozen too.
    let mut s = fresh_state();
    s.bird.y = -280_000;
    collision_detection(&mut s);
    assert!(s.game_over);
    let bird_before = (s.bird.x, s.bird.y, s.bird.velocity);
    let timer_before = s.spawn_timer.elapsed_ms;
    let _ = frame(&mut s, 100, true, false);
    assert!(s.game_over);
    assert_eq!((s.bird.x, s.bird.y, s.bird.velocity), bird_before);
    assert_eq!(s.spawn_timer.elapsed_ms, timer_before);
}

#[test]
fn scoring_band_is_narrow_and_counts_both_pipes() {
    let mut s = fresh_state();
    s.pipes.push(PipePair {
        x: -12_000,
        gap_center: 0,
    });
    scoring(&mut s);
    assert_eq!(s.score, 2);

    // The band's edges are strict.
    let mut at_near_edge = fresh_state();
    at_near_edge.pipes.push(PipePair {
        x: -10_000,
        gap_center: 0,
    });
    scoring(&mut at_near_edge);
    assert_eq!(at_near_edge.score, 0);

    let mut at_far_edge = fresh_state();
    at_far_edge.pipes.push(PipePair {
        x: -15_000,
        gap_center: 0,
    });
    scoring(&mut at_far_edge);
    assert_eq!(at_far_edge.score, 0);
}

#[test]
fn presentation_text_during_play_and_game_over() {
    let mut s = fresh_state();
    s.score = 7;
    let text = game_over_text(&mut s, false);
    assert_eq!(text, "Score: 7");

    s.game_over = true;
    s.score = 12;
    let text = game_over_text(&mut s, false);
    assert_eq!(text, "Game Over! Score: 12. Press R to restart");
    assert!(s.game_over);
}

#[test]
fn restart_resets_the_scene() {
    // After a restart press on the game-over screen: score 0, flag
    // cleared, one fresh bird, exactly two pipe pairs.
    let mut s = fresh_state();
    s.game_over = true;
    s.score = 9;
    s.bird.y = -280_000;
    s.pipes.push(PipePair {
        x: 123_000,
        gap_center: 44_000,
    });
    let _ = game_over_text(&mut s, true);
    assert!(!s.game_over);
    assert_eq!(s.score, 0);
    assert_eq!((s.bird.x, s.bird.y, s.bird.velocity), (0, 0, 0));
    assert_eq!(s.pipes.len(), 2);
    assert_eq!(s.pipes[0].x, 400_000);
    assert_eq!(s.pipes[1].x, 700_000);
}

#[test]
fn restart_ignored_while_playing() {
    let mut s = fresh_state();
    s.score = 3;
    let _ = game_over_text(&mut s, true);
    assert_eq!(s.score, 3);
    assert!(!s.game_over);
}

#[test]
fn setup_builds_the_start_scene() {
    let s = setup();
    assert_eq!((s.bird.x, s.bird.y, s.bird.velocity), (0, 0, 0));
    assert_eq!(s.score, 0);
    assert!(!s.game_over);
    assert_eq!(s.spawn_timer.elapsed_ms, 0);
    assert_eq!(s.spawn_timer.period_ms, 2000);
    assert_eq!(s.pipes.len(), 2);
    assert_eq!(s.pipes[0].x, 400_000);
    assert_eq!(s.pipes[1].x, 700_000);
    for p in &s.pipes {
        assert!((-200_000..=200_000).contains(&p.gap_center));
    }
}

#[test]
fn frame_runs_a_playing_step() {
    let mut s = setup();
    let text = frame(&mut s, 100, false, false);
    assert_eq!(text, "Score: 0");
    assert_eq!(s.bird.velocity, -98_000);
    assert_eq!(s.bird.y, -9_800);
    assert_eq!(s.pipes[0].x, 380_000);
    assert_eq!(s.spawn_timer.elapsed_ms, 100);
    assert!(!s.game_over);
}

#[test]
fn bird_never_sinks_below_ground_clamp() {
    // A long fall over many frames never takes the bird below the clamp.
    let mut s = setup();
    for _ in 0..100 {
        let _ = frame(&mut s, 50, false, false);
        assert!(s.bird.y >= -280_000);
    }
}

#[test]
fn frame_spawns_on_expiry_and_latches_ground_hit() {
    // One long frame from the start scene: the fall hits the ground clamp,
    // the spawner fires once, every pipe scrolls 400 units left, and the
    // collision checker latches game-over before the text is drawn.
    let mut s = setup();
    let text = frame(&mut s, 2000, false, false);
    assert_eq!(s.bird.y, -280_000);
    assert_eq!(s.bird.velocity, 0);
    assert_eq!(s.pipes.len(), 3);
    assert_eq!(s.pipes[0].x, 0);
    assert_eq!(s.pipes[1].x, 300_000);
    assert_eq!(s.pipes[2].x, 0);
    assert_eq!(s.spawn_timer.elapsed_ms, 0);
    assert!(s.game_over);
    assert_eq!(text, "Game Over! Score: 0. Press R to restart");
}
