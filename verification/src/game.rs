use vstd::prelude::*;

use crate::geom::{Vec2i, WindowSize};
use crate::pipes;
use crate::pipes::{Pipe, PipeInit};
use crate::player;
use crate::player::Player;
use crate::state::AppState;
use crate::timer::Timer;

verus! {

/// Everything the game itself owns between frames.  There is exactly one
/// player by construction.  The translations of the player and of the
/// pipes are integrated by the host's physics and are read back through
/// [`FrameInput`] each frame; the velocities decided here are mirrored into
/// the engine by the driver after each step.
#[derive(Debug)]
pub struct Game {
    pub state: AppState,
    pub player: Player,
    pub player_vel: Vec2i,
    pub stored_velocity: Vec2i,
    pub score: u32,
    pub pipes: Vec<Pipe>,
    pub pipe_spawn: Timer,
}

/// The mathematical image of a [`Game`], with the pipe list as a sequence.
#[verifier::ext_equal]
pub ghost struct GameModel {
    pub state: AppState,
    pub player: Player,
    pub player_vel: Vec2i,
    pub stored_velocity: Vec2i,
    pub score: u32,
    pub pipes: Seq<Pipe>,
    pub pipe_spawn: Timer,
}

impl View for Game {
    type V = GameModel;

    open spec fn view(&self) -> GameModel {
        GameModel {
            state: self.state,
            player: self.player,
            player_vel: self.player_vel,
            stored_velocity: self.stored_velocity,
            score: self.score,
            pipes: self.pipes@,
            pipe_spawn: self.pipe_spawn,
        }
    }
}

/// What the driver observed since the last frame and hands to [`step`]:
/// the frame's delta, which keys went down this frame, the player's
/// vertical translation, the translation of each tracked pipe (in the same
/// order as the game's pipe list), whether the physics reported any contact
/// involving the player, and the window's current size.
#[derive(Debug)]
pub struct FrameInput {
    pub delta_ms: u32,
    pub space_pressed: bool,
    pub escape_pressed: bool,
    pub player_y: i32,
    pub pipe_positions: Vec<Vec2i>,
    pub player_contact: bool,
    pub window: WindowSize,
}

/// The mathematical image of a [`FrameInput`].
#[verifier::ext_equal]
pub ghost struct FrameInputModel {
    pub delta_ms: u32,
    pub space_pressed: bool,
    pub escape_pressed: bool,
    pub player_y: i32,
    pub pipe_positions: Seq<Vec2i>,
    pub player_contact: bool,
    pub window: WindowSize,
}

impl View for FrameInput {
    type V = FrameInputModel;

    open spec fn view(&self) -> FrameInputModel {
        FrameInputModel {
            delta_ms: self.delta_ms,
            space_pressed: self.space_pressed,
            escape_pressed: self.escape_pressed,
            player_y: self.player_y,
            pipe_positions: self.pipe_positions@,
            player_contact: self.player_contact,
            window: self.window,
        }
    }
}

/// What the driver must carry back to the engine after [`step`]: which
/// pipes to despawn (indices into the pipe list as it stood before the
/// frame, in increasing order) and the pair of pipes to spawn, if any.
#[derive(Debug)]
pub struct FrameOutput {
    pub despawned: Vec<usize>,
    pub spawned: Option<(PipeInit, PipeInit)>,
}

/// The mathematical image of a [`FrameOutput`].
#[verifier::ext_equal]
pub ghost struct FrameOutputModel {
    pub despawned: Seq<usize>,
    pub spawned: Option<(PipeInit, PipeInit)>,
}

impl View for FrameOutput {
    type V = FrameOutputModel;

    open spec fn view(&self) -> FrameOutputModel {
        FrameOutputModel { despawned: self.despawned@, spawned: self.spawned }
    }
}

/// The output of a frame that asked the engine for nothing.
pub open spec fn empty_output() -> FrameOutputModel {
    FrameOutputModel { despawned: Seq::empty(), spawned: None }
}

/// The game as set up at startup: playing, score nought, no pipes yet,
/// the player still with zero velocity, and the spawner wound to go off
/// after its full period.
pub open spec fn initial_game() -> GameModel {
    GameModel {
        state: AppState::Playing,
        player: Player {
            is_jumping: false,
            jump_timer: Timer { elapsed_ms: 0, duration_ms: player::JUMP_TIMER_MS },
        },
        player_vel: Vec2i::spec_zero(),
        stored_velocity: Vec2i::spec_zero(),
        score: 0,
        pipes: Seq::empty(),
        pipe_spawn: Timer { elapsed_ms: 0, duration_ms: pipes::PIPE_SPAWN_MS },
    }
}

impl Game {
    pub fn new() -> (g: Game)
        ensures
            g@ == initial_game(),
    {
        let g = Game {
            state: AppState::Playing,
            player: Player::new(),
            player_vel: Vec2i::zero(),
            stored_velocity: Vec2i::zero(),
            score: 0,
            pipes: Vec::new(),
            pipe_spawn: Timer::new(pipes::PIPE_SPAWN_MS),
        };
        proof {
            assert(g@ =~= initial_game());
        }
        g
    }
}

/// One frame of contact handling while playing.  On any contact involving
/// the player the whole world freezes — every pipe's velocity and the
/// player's velocity are zeroed — and the `Dead` state is requested.  The
/// handler does not ask what was touched: ground and pipe contacts are
/// treated alike, as the game has always done.
#[verifier::loop_isolation(false)]
pub fn handle_player_contacts(
    pipe_list: &mut Vec<Pipe>,
    player_vel: &mut Vec2i,
    contact: bool,
) -> (next: Option<AppState>)
    ensures
        contact ==> final(pipe_list)@ == pipes::stopped_pipes(old(pipe_list)@)
            && *final(player_vel) == Vec2i::spec_zero() && next == Some(AppState::Dead),
        !contact ==> *final(pipe_list) == *old(pipe_list) && *final(player_vel) == *old(
            player_vel,
        ) && next is None,
{
    if contact {
        let n = pipe_list.len();
        let mut stopped: Vec<Pipe> = Vec::new();
        let mut i: usize = 0;
        while i < n
            invariant
                i <= n,
                n == old(pipe_list)@.len(),
                *pipe_list == *old(pipe_list),
                stopped@.len() == i,
                forall|j: int|
                    0 <= j < i ==> stopped@[j] == (Pipe {
                        used: old(pipe_list)@[j].used,
                        vel: Vec2i::spec_zero(),
                    }),
            decreases n - i,
        {
            let p = pipe_list[i];
            stopped.push(Pipe { used: p.used, vel: Vec2i::zero() });
            i = i + 1;
        }
        proof {
            assert(stopped@ =~= pipes::stopped_pipes(old(pipe_list)@));
        }
        *pipe_list = stopped;
        *player_vel = Vec2i::zero();
        Some(AppState::Dead)
    } else {
        None
    }
}

/// The whole frame's transition while playing, given the drawn pipe
/// translation `roll`.  The systems run in a fixed order — input, spawner,
/// vertical velocity, off-screen check, contact handling, scoring — and a
/// state requested later in the frame wins over one requested earlier, so
/// a contact outranks falling off screen, which outranks pausing.  Pipes
/// spawned this frame join the list after the scoring pass and so are
/// first scored and despawned from the next frame on.
pub open spec fn step_playing_spec(g: GameModel, inp: FrameInputModel, roll: int) -> (
    GameModel,
    FrameOutputModel,
) {
    let inp_res = player::input_playing_spec(
        g.player,
        g.player_vel,
        g.stored_velocity,
        inp.space_pressed,
        inp.escape_pressed,
    );
    let spawn_res = pipes::spawn_pipe_spec(g.pipe_spawn, inp.window, inp.delta_ms, roll);
    let av = player::apply_y_velocity_spec(inp_res.0, inp_res.1, inp.delta_ms);
    let fell = player::fell_off_screen(inp.player_y as int, inp.window);
    let pipes1 = if inp.player_contact {
        pipes::stopped_pipes(g.pipes)
    } else {
        g.pipes
    };
    let kept = pipes::kept_pipes(pipes1, inp.pipe_positions, inp.window);
    let new_pipes = if spawn_res.1 is Some {
        kept + seq![pipes::fresh_pipe(), pipes::fresh_pipe()]
    } else {
        kept
    };
    let next = if inp.player_contact || fell {
        AppState::Dead
    } else if inp.escape_pressed {
        AppState::Paused
    } else {
        AppState::Playing
    };
    (
        GameModel {
            state: next,
            player: av.0,
            player_vel: if inp.player_contact {
                Vec2i::spec_zero()
            } else {
                av.1
            },
            stored_velocity: inp_res.2,
            score: (g.score + pipes::score_gain(pipes1, inp.pipe_positions)) as u32,
            pipes: new_pipes,
            pipe_spawn: spawn_res.0,
        },
        FrameOutputModel {
            despawned: pipes::offscreen_indices(inp.pipe_positions, inp.window),
            spawned: spawn_res.1,
        },
    )
}

/// The whole frame's transition while paused: only the pause key is read,
/// and it restores the stored velocity and resumes playing.
pub open spec fn step_paused_spec(g: GameModel, inp: FrameInputModel) -> (
    GameModel,
    FrameOutputModel,
) {
    let r = player::input_paused_spec(g.player_vel, g.stored_velocity, inp.escape_pressed);
    (
        GameModel {
            player_vel: r.0,
            state: if r.1 is Some {
                AppState::Playing
            } else {
                AppState::Paused
            },
            ..g
        },
        empty_output(),
    )
}

/// The whole frame's transition while dead: the player falls ever faster
/// and nothing else happens — the input is not read at all.
pub open spec fn step_dead_spec(g: GameModel) -> (GameModel, FrameOutputModel) {
    (GameModel { player_vel: player::dead_fall_spec(g.player_vel), ..g }, empty_output())
}

/// The state-gated dispatch of one frame: which systems run is decided by
/// the state the frame starts in, and a requested transition takes effect
/// for the next frame.
pub open spec fn step_spec(g: GameModel, inp: FrameInputModel, roll: int) -> (
    GameModel,
    FrameOutputModel,
) {
    match g.state {
        AppState::Playing => step_playing_spec(g, inp, roll),
        AppState::Paused => step_paused_spec(g, inp),
        AppState::Dead => step_dead_spec(g),
    }
}

/// The inputs a frame can be run on: the pipe translations line up with
/// the tracked pipes, the window is one the game can run at with a
/// nonempty range to draw pipe gaps from, and the few machine bounds the
/// frame's arithmetic needs hold.
pub open spec fn step_ok(g: GameModel, inp: FrameInputModel) -> bool {
    &&& inp.window.wf()
    &&& pipes::gap_lo() < pipes::gap_hi(inp.window)
    &&& inp.pipe_positions.len() == g.pipes.len()
    &&& g.score + g.pipes.len() <= u32::MAX
    &&& (g.state == AppState::Playing ==> {
        let inp_res = player::input_playing_spec(
            g.player,
            g.player_vel,
            g.stored_velocity,
            inp.space_pressed,
            inp.escape_pressed,
        );
        inp_res.0.is_jumping && !inp_res.0.jump_timer.spec_finished()
            ==> inp_res.1.y + player::JUMP_VY_STEP <= i32::MAX
    })
    &&& (g.state == AppState::Dead ==> g.player_vel.y - player::DEAD_FALL_STEP >= i32::MIN)
}

/// Run one frame of the game.  While playing, the frame draws the next
/// pipe gap at random, so the transition is pinned down up to that one
/// drawn value: there is some translation in the drawing range such that
/// the new state and the output are exactly [`step_spec`] of the old state
/// at it.  The score never goes down, and while dead the input has no
/// effect beyond the cosmetic fall.
pub fn step(game: &mut Game, input: &FrameInput) -> (out: FrameOutput)
    requires
        step_ok(old(game)@, input@),
    ensures
        exists|roll: int|
            #![auto]
            pipes::gap_lo() <= roll < pipes::gap_hi(input.window) && (final(game)@, out@)
                == step_spec(old(game)@, input@, roll),
        final(game)@.score >= old(game)@.score,
        old(game)@.state == AppState::Playing ==> final(game)@.score == old(game)@.score
            + pipes::score_gain(old(game)@.pipes, input@.pipe_positions),
        old(game)@.state == AppState::Paused ==> (final(game)@, out@) == step_paused_spec(
            old(game)@,
            input@,
        ),
        old(game)@.state == AppState::Dead ==> (final(game)@, out@) == step_dead_spec(old(game)@),
{
    match game.state {
        AppState::Playing => {
            let next1 = player::player_input_playing(
                &mut game.player,
                &mut game.player_vel,
                &mut game.stored_velocity,
                input.space_pressed,
                input.escape_pressed,
            );
            let (spawned, roll_g) = pipes::spawn_pipe(
                &mut game.pipe_spawn,
                &input.window,
                input.delta_ms,
            );
            player::apply_y_velocity(&mut game.player, &mut game.player_vel, input.delta_ms);
            let fell = player::check_player_on_screen(input.player_y, &input.window);
            let next2 = handle_player_contacts(
                &mut game.pipes,
                &mut game.player_vel,
                input.player_contact,
            );
            proof {
                if input.player_contact {
                    pipes::lemma_score_gain_stopped(old(game)@.pipes, input@.pipe_positions);
                }
                pipes::lemma_score_gain_le(game.pipes@, input@.pipe_positions);
            }
            let despawned = pipes::check_pipes(
                &mut game.pipes,
                &mut game.score,
                &input.pipe_positions,
                &input.window,
            );
            if let Some((top, bottom)) = spawned {
                game.pipes.push(Pipe { used: false, vel: top.vel });
                game.pipes.push(Pipe { used: false, vel: bottom.vel });
            }
            if let Some(s) = next2 {
                game.state = s;
            } else if fell {
                game.state = AppState::Dead;
            } else if let Some(s) = next1 {
                game.state = s;
            }
            let out = FrameOutput { despawned, spawned };
            proof {
                let roll = roll_g@;
                let target = step_playing_spec(old(game)@, input@, roll);
                assert(game@.pipes =~= target.0.pipes);
                assert(game@ =~= target.0);
                assert(out@ =~= target.1);
                assert((game@, out@) == step_spec(old(game)@, input@, roll));
            }
            out
        },
        AppState::Paused => {
            let next = player::player_input_paused(
                &mut game.player_vel,
                &game.stored_velocity,
                input.escape_pressed,
            );
            if let Some(s) = next {
                game.state = s;
            }
            let out = FrameOutput { despawned: Vec::new(), spawned: None };
            proof {
                assert(game@ =~= step_paused_spec(old(game)@, input@).0);
                assert(out@ =~= empty_output());
                assert((game@, out@) == step_spec(old(game)@, input@, pipes::gap_lo()));
                assert(pipes::gap_lo() <= pipes::gap_lo() < pipes::gap_hi(input.window));
            }
            out
        },
        AppState::Dead => {
            player::handle_player_dead(&mut game.player_vel);
            let out = FrameOutput { despawned: Vec::new(), spawned: None };
            proof {
                assert(game@ =~= step_dead_spec(old(game)@).0);
                assert(out@ =~= empty_output());
                assert((game@, out@) == step_spec(old(game)@, input@, pipes::gap_lo()));
                assert(pipes::gap_lo() <= pipes::gap_lo() < pipes::gap_hi(input.window));
            }
            out
        },
    }
}

/// While dead the game ignores its input altogether: whatever two frames
/// observe, and whatever translations they would have drawn, the dead
/// transition is the same.
pub proof fn lemma_dead_ignores_input(
    g: GameModel,
    a: FrameInputModel,
    b: FrameInputModel,
    ra: int,
    rb: int,
)
    requires
        g.state == AppState::Dead,
    ensures
        step_spec(g, a, ra) == step_spec(g, b, rb),
{
}

/// Pausing stores the live velocity and resuming restores exactly it:
/// after a playing frame that pressed the pause key (and did not die the
/// same frame), the game is paused with that frame's starting velocity
/// stored, and a later paused frame that presses the key again resumes
/// playing at exactly that velocity.
pub proof fn lemma_pause_resume_restores_velocity(
    g: GameModel,
    a: FrameInputModel,
    b: FrameInputModel,
    ra: int,
    rb: int,
)
    requires
        g.state == AppState::Playing,
        a.escape_pressed,
        !a.player_contact,
        !player::fell_off_screen(a.player_y as int, a.window),
        b.escape_pressed,
    ensures
        step_spec(g, a, ra).0.state == AppState::Paused,
        step_spec(g, a, ra).0.stored_velocity == g.player_vel,
        step_spec(step_spec(g, a, ra).0, b, rb).0.state == AppState::Playing,
        step_spec(step_spec(g, a, ra).0, b, rb).0.player_vel == g.player_vel,
{
}

} // verus!
