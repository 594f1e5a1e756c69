use vstd::prelude::*;

use crate::geom::{Vec2i, WindowSize};
use crate::state::AppState;
use crate::timer::Timer;

verus! {

/// How long one press of the jump key keeps pushing the player upward.
pub const JUMP_TIMER_MS: u32 = 250;

/// Upward velocity added on each frame of an active jump.
pub const JUMP_VY_STEP: i32 = 10;

/// The fixed downward velocity the player falls at while not jumping.
pub const FALL_VY: i32 = -25;

/// How much further downward velocity the dead player gains each frame.
pub const DEAD_FALL_STEP: i32 = 20;

/// The single player: whether a jump is in flight and how far along it is.
/// The player's translation and velocity components are owned by the host's
/// physics plugin; the velocity the game decides on is carried separately
/// and mirrored into the engine by the driver.
#[derive(Clone, Copy, Debug, PartialEq, Eq, Structural)]
pub struct Player {
    pub is_jumping: bool,
    pub jump_timer: Timer,
}

impl Player {
    /// The player as spawned at startup: not jumping, with a fresh jump
    /// timer.  Its starting velocity is zero.
    pub fn new() -> (p: Player)
        ensures
            p == (Player { is_jumping: false, jump_timer: Timer { elapsed_ms: 0, duration_ms: JUMP_TIMER_MS } }),
    {
        Player { is_jumping: false, jump_timer: Timer::new(JUMP_TIMER_MS) }
    }
}

/// The player and velocity after one frame of vertical-velocity update
/// while playing: an expired jump is ended (velocity untouched that frame),
/// a live jump ticks its timer and pushes the player up, and otherwise the
/// player falls at the fixed rate.
pub open spec fn apply_y_velocity_spec(p: Player, vel: Vec2i, delta_ms: u32) -> (Player, Vec2i) {
    if p.is_jumping {
        if p.jump_timer.spec_finished() {
            (Player { is_jumping: false, ..p }, vel)
        } else {
            (
                Player { jump_timer: p.jump_timer.spec_tick(delta_ms), ..p },
                Vec2i { x: vel.x, y: (vel.y + JUMP_VY_STEP) as i32 },
            )
        }
    } else {
        (p, Vec2i { x: vel.x, y: FALL_VY })
    }
}

/// One frame of the playing-state vertical-velocity system.
pub fn apply_y_velocity(player: &mut Player, vel: &mut Vec2i, delta_ms: u32)
    requires
        old(player).is_jumping && !old(player).jump_timer.spec_finished()
            ==> old(vel).y + JUMP_VY_STEP <= i32::MAX,
    ensures
        (*final(player), *final(vel)) == apply_y_velocity_spec(*old(player), *old(vel), delta_ms),
        !old(player).is_jumping ==> *final(vel) == (Vec2i { x: old(vel).x, y: FALL_VY }),
{
    if player.is_jumping {
        if player.jump_timer.finished() {
            player.is_jumping = false;
        } else {
            player.jump_timer.tick(delta_ms);
            vel.y = vel.y + JUMP_VY_STEP;
        }
    } else {
        vel.y = FALL_VY;
    }
}

/// The effect of the playing-state input system: player, velocity, stored
/// velocity, and the requested next state, given which keys were pressed
/// this frame.
pub open spec fn input_playing_spec(
    p: Player,
    vel: Vec2i,
    stored: Vec2i,
    space_pressed: bool,
    escape_pressed: bool,
) -> (Player, Vec2i, Vec2i, Option<AppState>) {
    let p1 = if space_pressed {
        Player {
            is_jumping: true,
            jump_timer: Timer { elapsed_ms: 0, duration_ms: p.jump_timer.duration_ms },
        }
    } else {
        p
    };
    if escape_pressed {
        (p1, Vec2i::spec_zero(), vel, Some(AppState::Paused))
    } else {
        (p1, vel, stored, None)
    }
}

/// One frame of keyboard handling while playing.  The jump key starts a
/// jump and rewinds the jump timer; the pause key stores the current
/// velocity, zeroes it, and asks for the `Paused` state.
pub fn player_input_playing(
    player: &mut Player,
    vel: &mut Vec2i,
    stored: &mut Vec2i,
    space_pressed: bool,
    escape_pressed: bool,
) -> (next: Option<AppState>)
    ensures
        (*final(player), *final(vel), *final(stored), next)
            == input_playing_spec(*old(player), *old(vel), *old(stored), space_pressed, escape_pressed),
        space_pressed ==> final(player).is_jumping && final(player).jump_timer.elapsed_ms == 0,
        !space_pressed ==> *final(player) == *old(player),
        escape_pressed ==> *final(stored) == *old(vel) && *final(vel) == Vec2i::spec_zero()
            && next == Some(AppState::Paused),
        !escape_pressed ==> *final(vel) == *old(vel) && *final(stored) == *old(stored)
            && next is None,
{
    if space_pressed {
        player.is_jumping = true;
        player.jump_timer.reset();
    }
    if escape_pressed {
        *stored = *vel;
        *vel = Vec2i::zero();
        Some(AppState::Paused)
    } else {
        None
    }
}

/// The effect of the paused-state input system on the player's velocity and
/// the requested next state.
pub open spec fn input_paused_spec(
    vel: Vec2i,
    stored: Vec2i,
    escape_pressed: bool,
) -> (Vec2i, Option<AppState>) {
    if escape_pressed {
        (stored, Some(AppState::Playing))
    } else {
        (vel, None)
    }
}

/// One frame of keyboard handling while paused: the pause key restores the
/// stored velocity and asks to resume playing.
pub fn player_input_paused(
    vel: &mut Vec2i,
    stored: &Vec2i,
    escape_pressed: bool,
) -> (next: Option<AppState>)
    ensures
        (*final(vel), next) == input_paused_spec(*old(vel), *stored, escape_pressed),
        escape_pressed ==> *final(vel) == *stored && next == Some(AppState::Playing),
        !escape_pressed ==> *final(vel) == *old(vel) && next is None,
{
    if escape_pressed {
        *vel = *stored;
        Some(AppState::Playing)
    } else {
        None
    }
}

/// The velocity after one frame in the `Dead` state: the player keeps
/// falling faster, whatever keys are pressed.
pub open spec fn dead_fall_spec(vel: Vec2i) -> Vec2i {
    Vec2i { x: vel.x, y: (vel.y - DEAD_FALL_STEP) as i32 }
}

/// One frame of the dead-state system.
pub fn handle_player_dead(vel: &mut Vec2i)
    requires
        old(vel).y - DEAD_FALL_STEP >= i32::MIN,
    ensures
        *final(vel) == dead_fall_spec(*old(vel)),
{
    vel.y = vel.y - DEAD_FALL_STEP;
}

/// Whether the player's vertical translation has left the window: below
/// more than half the window height under the centre line kills the player.
pub open spec fn fell_off_screen(player_y: int, w: WindowSize) -> bool {
    player_y < -(w.height / 2)
}

/// One frame of the off-screen check while playing: reports whether the
/// player must die this frame.
pub fn check_player_on_screen(player_y: i32, w: &WindowSize) -> (dead: bool)
    requires
        w.wf(),
    ensures
        dead == fell_off_screen(player_y as int, *w),
{
    player_y < -(w.height / 2)
}

} // verus!
