use flappy_core::game::{step, FrameInput, Game};
use flappy_core::geom::{Vec2i, WindowSize};
use flappy_core::pipes::Pipe;
use flappy_core::state::AppState;
use flappy_core::timer::Timer;

fn window() -> WindowSize {
    WindowSize { width: 1280, height: 720 }
}

fn quiet_input(pipe_count: usize) -> FrameInput {
    FrameInput {
        delta_ms: 16,
        space_pressed: false,
        escape_pressed: false,
        player_y: 0,
        pipe_positions: vec![Vec2i { x: 200, y: 100 }; pipe_count],
        player_contact: false,
        window: window(),
    }
}

#[test]
fn new_game_starts_playing_with_nothing_spawned() {
    let g = Game::new();
    assert_eq!(g.state, AppState::Playing);
    assert!(!g.player.is_jumping);
    assert_eq!(g.player.jump_timer, Timer { elapsed_ms: 0, duration_ms: 250 });
    assert_eq!(g.player_vel, Vec2i { x: 0, y: 0 });
    assert_eq!(g.stored_velocity, Vec2i { x: 0, y: 0 });
    assert_eq!(g.score, 0);
    assert!(g.pipes.is_empty());
    assert_eq!(g.pipe_spawn, Timer { elapsed_ms: 0, duration_ms: 1500 });
}

#[test]
fn quiet_playing_frame_just_falls() {
    let mut g = Game::new();
    let out = step(&mut g, &quiet_input(0));
    assert_eq!(g.state, AppState::Playing);
    assert_eq!(g.player_vel, Vec2i { x: 0, y: -25 });
    assert_eq!(g.score, 0);
    assert!(out.despawned.is_empty());
    assert!(out.spawned.is_none());
    assert_eq!(g.pipe_spawn.elapsed_ms, 16);
}

#[test]
fn contact_kills_and_freezes_the_world() {
    let mut g = Game::new();
    g.pipes = vec![Pipe { used: false, vel: Vec2i { x: -100, y: 0 } }];
    let mut input = quiet_input(1);
    input.player_contact = true;
    step(&mut g, &input);
    assert_eq!(g.state, AppState::Dead);
    assert_eq!(g.player_vel, Vec2i { x: 0, y: 0 });
    assert_eq!(g.pipes[0].vel, Vec2i { x: 0, y: 0 });
}

#[test]
fn falling_out_of_the_window_kills() {
    let mut g = Game::new();
    let mut input = quiet_input(0);
    input.player_y = -361;
    step(&mut g, &input);
    assert_eq!(g.state, AppState::Dead);
}

#[test]
fn dead_frames_ignore_the_keys() {
    let mut g = Game::new();
    g.state = AppState::Dead;
    g.player_vel = Vec2i { x: 4, y: 100 };
    g.score = 3;
    let mut noisy = quiet_input(0);
    noisy.space_pressed = true;
    noisy.escape_pressed = true;
    noisy.player_contact = true;
    let out = step(&mut g, &noisy);
    assert_eq!(g.state, AppState::Dead);
    assert_eq!(g.player_vel, Vec2i { x: 4, y: 80 });
    assert_eq!(g.score, 3);
    assert!(out.despawned.is_empty());
    assert!(out.spawned.is_none());

    let mut g2 = Game::new();
    g2.state = AppState::Dead;
    g2.player_vel = Vec2i { x: 4, y: 100 };
    g2.score = 3;
    step(&mut g2, &quiet_input(0));
    assert_eq!(g2.player_vel, g.player_vel);
    assert_eq!(g2.state, g.state);
}

#[test]
fn pause_and_resume_round_trip_the_velocity() {
    let mut g = Game::new();
    g.player_vel = Vec2i { x: 2, y: 9 };
    let mut input = quiet_input(0);
    input.escape_pressed = true;
    step(&mut g, &input);
    assert_eq!(g.state, AppState::Paused);
    // The velocity system still ran this frame, so the zeroed velocity has
    // already given way to the plain fall; the stored one is what matters.
    assert_eq!(g.player_vel, Vec2i { x: 0, y: -25 });
    assert_eq!(g.stored_velocity, Vec2i { x: 2, y: 9 });

    step(&mut g, &input);
    assert_eq!(g.state, AppState::Playing);
    assert_eq!(g.player_vel, Vec2i { x: 2, y: 9 });
}

#[test]
fn paused_frame_without_the_key_stays_paused() {
    let mut g = Game::new();
    g.state = AppState::Paused;
    g.player_vel = Vec2i { x: 1, y: 1 };
    step(&mut g, &quiet_input(0));
    assert_eq!(g.state, AppState::Paused);
    assert_eq!(g.player_vel, Vec2i { x: 1, y: 1 });
}

#[test]
fn score_increments_once_per_passed_pipe() {
    let mut g = Game::new();
    g.pipes = vec![Pipe { used: false, vel: Vec2i { x: -100, y: 0 } }];
    let mut input = quiet_input(1);
    input.pipe_positions = vec![Vec2i { x: -10, y: 50 }];
    step(&mut g, &input);
    assert_eq!(g.score, 1);
    assert!(g.pipes[0].used);
    // The same pipe still on screen the next frame adds nothing.
    step(&mut g, &input);
    assert_eq!(g.score, 1);
}

#[test]
fn spawner_hands_the_driver_a_pair_through_step() {
    let mut g = Game::new();
    g.pipe_spawn = Timer { elapsed_ms: 1500, duration_ms: 1500 };
    let out = step(&mut g, &quiet_input(0));
    let (top, bottom) = out.spawned.expect("the elapsed spawner must emit");
    assert_eq!(top.pos.x, 768);
    assert!(top.pos.y >= 256 && top.pos.y < 480);
    assert_eq!(bottom.pos.y, top.pos.y - 720);
    assert_eq!(g.pipes.len(), 2);
    assert!(!g.pipes[0].used && !g.pipes[1].used);
    assert_eq!(g.pipes[0].vel, Vec2i { x: -100, y: 0 });
    assert_eq!(g.pipe_spawn, Timer { elapsed_ms: 0, duration_ms: 1500 });
}

#[test]
fn jump_frame_reaches_the_velocity_through_step() {
    let mut g = Game::new();
    let mut input = quiet_input(0);
    input.space_pressed = true;
    step(&mut g, &input);
    assert_eq!(g.state, AppState::Playing);
    assert!(g.player.is_jumping);
    // The fresh jump adds its push to the frame's starting velocity.
    assert_eq!(g.player_vel, Vec2i { x: 0, y: 10 });
    assert_eq!(g.player.jump_timer.elapsed_ms, 16);
}

#[test]
fn despawn_flows_out_of_step() {
    let mut g = Game::new();
    g.pipes = vec![
        Pipe { used: true, vel: Vec2i { x: -100, y: 0 } },
        Pipe { used: true, vel: Vec2i { x: -100, y: 0 } },
    ];
    let mut input = quiet_input(2);
    input.pipe_positions = vec![Vec2i { x: -700, y: 100 }, Vec2i { x: 0, y: 100 }];
    let out = step(&mut g, &input);
    assert_eq!(out.despawned, vec![0]);
    assert_eq!(g.pipes.len(), 1);
}
