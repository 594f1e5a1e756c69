use vstd::prelude::*;

use crate::geom::{Vec2i, WindowSize};
use crate::rng::random_in_range;
use crate::timer::Timer;

verus! {

/// Leftward velocity every pipe scrolls at.
pub const PIPE_VX: i32 = -100;

/// How often the spawner emits a new pair of pipes.
pub const PIPE_SPAWN_MS: u32 = 1500;

/// Lowest translation the top pipe of a pair is drawn at.
pub const PIPE_GAP_MIN_Y: i32 = 256;

/// Half the height of a pipe sprite after scaling.
pub const PIPE_HALF_HEIGHT: i32 = 120;

/// One pipe as the game tracks it: whether the player has already been
/// awarded a point for it, and the velocity the game last decided for it.
/// Its translation is integrated by the host's physics and read back each
/// frame.
#[derive(Clone, Copy, Debug, PartialEq, Eq, Structural)]
pub struct Pipe {
    pub used: bool,
    pub vel: Vec2i,
}

/// What the driver needs to spawn one pipe entity: where it starts and how
/// it moves.
#[derive(Clone, Copy, Debug, PartialEq, Eq, Structural)]
pub struct PipeInit {
    pub pos: Vec2i,
    pub vel: Vec2i,
}

/// The record a freshly spawned pipe enters the game's list with.
pub open spec fn fresh_pipe() -> Pipe {
    Pipe { used: false, vel: Vec2i { x: PIPE_VX, y: 0 } }
}

/// Lower bound (inclusive) of the range the top pipe's translation is drawn
/// from.
pub open spec fn gap_lo() -> int {
    PIPE_GAP_MIN_Y as int
}

/// Upper bound (exclusive) of the range the top pipe's translation is drawn
/// from.
pub open spec fn gap_hi(w: WindowSize) -> int {
    w.height / 2 + PIPE_HALF_HEIGHT
}

/// The column new pipes appear in: six tenths of the window width right of
/// the centre, just past the right edge.
pub open spec fn spawn_x(w: WindowSize) -> int {
    w.width * 6 / 10
}

/// The pair of pipes spawned for a drawn top translation `top_y`: both in
/// the spawn column, moving left, the bottom one a full window height below
/// the top one.
pub open spec fn pipe_pair_spec(w: WindowSize, top_y: int) -> (PipeInit, PipeInit) {
    (
        PipeInit {
            pos: Vec2i { x: spawn_x(w) as i32, y: top_y as i32 },
            vel: Vec2i { x: PIPE_VX, y: 0 },
        },
        PipeInit {
            pos: Vec2i { x: spawn_x(w) as i32, y: (top_y - w.height) as i32 },
            vel: Vec2i { x: PIPE_VX, y: 0 },
        },
    )
}

/// One frame of the spawner given the drawn translation `roll`: an
/// unfinished timer just accumulates the frame's delta; a finished one is
/// rewound and a pair of pipes is emitted.
pub open spec fn spawn_pipe_spec(
    t: Timer,
    w: WindowSize,
    delta_ms: u32,
    roll: int,
) -> (Timer, Option<(PipeInit, PipeInit)>) {
    if !t.spec_finished() {
        (t.spec_tick(delta_ms), None)
    } else {
        (Timer { elapsed_ms: 0, duration_ms: t.duration_ms }, Some(pipe_pair_spec(w, roll)))
    }
}

/// One frame of the pipe spawner.  The translation of the top pipe is
/// drawn uniformly from `gap_lo() .. gap_hi(w)`; everything else about the
/// pair is a function of the window alone.  The drawn translation comes
/// back as the ghost witness `out.1`, so callers can state the frame
/// exactly in terms of it.
pub fn spawn_pipe(spawn_timer: &mut Timer, w: &WindowSize, delta_ms: u32) -> (out: (
    Option<(PipeInit, PipeInit)>,
    Ghost<int>,
))
    requires
        w.wf(),
        gap_lo() < gap_hi(*w),
    ensures
        gap_lo() <= out.1@ < gap_hi(*w),
        (*final(spawn_timer), out.0) == spawn_pipe_spec(*old(spawn_timer), *w, delta_ms, out.1@),
        !old(spawn_timer).spec_finished() ==> *final(spawn_timer) == old(spawn_timer).spec_tick(
            delta_ms,
        ) && out.0 is None,
        old(spawn_timer).spec_finished() ==> final(spawn_timer).elapsed_ms == 0
            && final(spawn_timer).duration_ms == old(spawn_timer).duration_ms
            && out.0 is Some,
{
    if !spawn_timer.finished() {
        spawn_timer.tick(delta_ms);
        (None, Ghost(gap_lo()))
    } else {
        spawn_timer.reset();
        let hi = w.height / 2 + PIPE_HALF_HEIGHT;
        let top_y = random_in_range(PIPE_GAP_MIN_Y, hi);
        let x = (w.width * 6) / 10;
        let top = PipeInit { pos: Vec2i { x, y: top_y }, vel: Vec2i { x: PIPE_VX, y: 0 } };
        let bottom = PipeInit {
            pos: Vec2i { x, y: top_y - w.height },
            vel: Vec2i { x: PIPE_VX, y: 0 },
        };
        proof {
            assert(gap_lo() <= (top_y as int) && (top_y as int) < gap_hi(*w));
        }
        (Some((top, bottom)), Ghost(top_y as int))
    }
}

/// Whether this frame awards the player a point for a pipe at translation
/// `pos`: not yet counted, already left of the centre line, and in the
/// upper half of the window (so each pair scores through its top pipe
/// only).
pub open spec fn pipe_scores(p: Pipe, pos: Vec2i) -> bool {
    !p.used && pos.x < 0 && pos.y > 0
}

/// Whether a pipe at translation `pos` has scrolled out of the window on
/// the left and is to be despawned.
pub open spec fn pipe_offscreen(pos: Vec2i, w: WindowSize) -> bool {
    pos.x < -(w.width / 2)
}

/// A pipe after the scoring check: counted pipes are marked used.
pub open spec fn pipe_after_check(p: Pipe, pos: Vec2i) -> Pipe {
    Pipe { used: p.used || pipe_scores(p, pos), ..p }
}

/// How many points one scoring pass over `pipes` at translations `ps`
/// awards.
pub open spec fn score_gain(pipes: Seq<Pipe>, ps: Seq<Vec2i>) -> nat
    decreases pipes.len(),
{
    if pipes.len() == 0 {
        0
    } else {
        score_gain(pipes.drop_last(), ps.drop_last()) + if pipe_scores(
            pipes.last(),
            ps.last(),
        ) {
            1nat
        } else {
            0nat
        }
    }
}

/// The pipes that survive one pass: off-screen pipes are dropped, the rest
/// keep their order and carry the updated used flag.
pub open spec fn kept_pipes(pipes: Seq<Pipe>, ps: Seq<Vec2i>, w: WindowSize) -> Seq<Pipe>
    decreases pipes.len(),
{
    if pipes.len() == 0 {
        Seq::empty()
    } else {
        let rest = kept_pipes(pipes.drop_last(), ps.drop_last(), w);
        if pipe_offscreen(ps.last(), w) {
            rest
        } else {
            rest.push(pipe_after_check(pipes.last(), ps.last()))
        }
    }
}

/// The translations of the surviving pipes, in the same order.
pub open spec fn kept_positions(ps: Seq<Vec2i>, w: WindowSize) -> Seq<Vec2i>
    decreases ps.len(),
{
    if ps.len() == 0 {
        Seq::empty()
    } else {
        let rest = kept_positions(ps.drop_last(), w);
        if pipe_offscreen(ps.last(), w) {
            rest
        } else {
            rest.push(ps.last())
        }
    }
}

/// The indices (into the pre-pass list) of the pipes dropped by one pass,
/// in increasing order.
pub open spec fn offscreen_indices(ps: Seq<Vec2i>, w: WindowSize) -> Seq<usize>
    decreases ps.len(),
{
    if ps.len() == 0 {
        Seq::empty()
    } else {
        let rest = offscreen_indices(ps.drop_last(), w);
        if pipe_offscreen(ps.last(), w) {
            rest.push((ps.len() - 1) as usize)
        } else {
            rest
        }
    }
}

/// A pass never awards more points than there are pipes.
pub proof fn lemma_score_gain_le(pipes: Seq<Pipe>, ps: Seq<Vec2i>)
    requires
        pipes.len() == ps.len(),
    ensures
        score_gain(pipes, ps) <= pipes.len(),
    decreases pipes.len(),
{
    if pipes.len() > 0 {
        lemma_score_gain_le(pipes.drop_last(), ps.drop_last());
    }
}

/// Scoring reads a pipe's used flag only, so stopping the pipes does not
/// change what a pass awards.
pub proof fn lemma_score_gain_stopped(pipes: Seq<Pipe>, ps: Seq<Vec2i>)
    requires
        pipes.len() == ps.len(),
    ensures
        score_gain(stopped_pipes(pipes), ps) == score_gain(pipes, ps),
    decreases pipes.len(),
{
    if pipes.len() > 0 {
        lemma_score_gain_stopped(pipes.drop_last(), ps.drop_last());
        assert(stopped_pipes(pipes).drop_last() =~= stopped_pipes(pipes.drop_last()));
    }
}

/// Every pipe scores at most once: immediately after a pass, a second pass
/// over the surviving pipes at their unchanged translations awards
/// nothing, because each survivor either was just counted (and is now
/// marked used) or still fails the scoring condition.
pub proof fn lemma_pipe_scored_once(pipes: Seq<Pipe>, ps: Seq<Vec2i>, w: WindowSize)
    requires
        pipes.len() == ps.len(),
    ensures
        kept_pipes(pipes, ps, w).len() == kept_positions(ps, w).len(),
        score_gain(kept_pipes(pipes, ps, w), kept_positions(ps, w)) == 0,
    decreases pipes.len(),
{
    if pipes.len() > 0 {
        lemma_pipe_scored_once(pipes.drop_last(), ps.drop_last(), w);
        if !pipe_offscreen(ps.last(), w) {
            let kp = kept_pipes(pipes, ps, w);
            let ks = kept_positions(ps, w);
            assert(kp.drop_last() =~= kept_pipes(pipes.drop_last(), ps.drop_last(), w));
            assert(ks.drop_last() =~= kept_positions(ps.drop_last(), w));
            assert(!pipe_scores(kp.last(), ks.last()));
        }
    }
}

/// The pipe list with every velocity zeroed, as the contact handler leaves
/// it.
pub open spec fn stopped_pipes(pipes: Seq<Pipe>) -> Seq<Pipe> {
    pipes.map_values(|p: Pipe| Pipe { vel: Vec2i::spec_zero(), ..p })
}

/// One frame of the scoring and despawn pass while playing.  `positions`
/// holds the translation of each pipe in `pipes`, in the same order, as the
/// physics reports them this frame.  Each pipe left of the centre line and
/// in the upper half that was not yet counted is counted now; each pipe out
/// of the window on the left is dropped, and its index in the pre-pass list
/// is reported so the driver can despawn the entity.
#[verifier::loop_isolation(false)]
pub fn check_pipes(
    pipes: &mut Vec<Pipe>,
    score: &mut u32,
    positions: &Vec<Vec2i>,
    w: &WindowSize,
) -> (despawned: Vec<usize>)
    requires
        positions@.len() == old(pipes)@.len(),
        old(score) + old(pipes)@.len() <= u32::MAX,
        w.wf(),
    ensures
        *final(score) == old(score) + score_gain(old(pipes)@, positions@),
        final(pipes)@ == kept_pipes(old(pipes)@, positions@, *w),
        despawned@ == offscreen_indices(positions@, *w),
{
    let n = pipes.len();
    let mut kept: Vec<Pipe> = Vec::new();
    let mut despawned: Vec<usize> = Vec::new();
    let mut idx: usize = 0;
    while idx < n
        invariant
            idx <= n,
            n == old(pipes)@.len(),
            positions@.len() == n,
            *pipes == *old(pipes),
            old(score) + n <= u32::MAX,
            *score == old(score) + score_gain(
                old(pipes)@.take(idx as int),
                positions@.take(idx as int),
            ),
            kept@ == kept_pipes(old(pipes)@.take(idx as int), positions@.take(idx as int), *w),
            despawned@ == offscreen_indices(positions@.take(idx as int), *w),
        decreases n - idx,
    {
        proof {
            let tp = old(pipes)@.take(idx + 1);
            let ts = positions@.take(idx + 1);
            assert(tp.drop_last() =~= old(pipes)@.take(idx as int));
            assert(ts.drop_last() =~= positions@.take(idx as int));
            lemma_score_gain_le(old(pipes)@.take(idx as int), positions@.take(idx as int));
        }
        let p = pipes[idx];
        let pos = positions[idx];
        let mut p2 = p;
        if !p.used && pos.x < 0 && pos.y > 0 {
            p2.used = true;
            *score = *score + 1;
        }
        if pos.x < -(w.width / 2) {
            despawned.push(idx);
        } else {
            kept.push(p2);
        }
        idx = idx + 1;
    }
    proof {
        assert(old(pipes)@.take(n as int) =~= old(pipes)@);
        assert(positions@.take(n as int) =~= positions@);
    }
    *pipes = kept;
    despawned
}

} // verus!
