//! The laws of the simulation: properties of [`crate::sim::tick_spec`] that
//! hold on every tick from a well-formed state, each proved here once and
//! for all.

use crate::sim::ARENA_SIZE;
use crate::sim::BALL_SPAWN;
use crate::sim::MAX_SPEED;
use crate::sim::MIN_SPEED;
use crate::sim::MatchState;
use crate::sim::PaddleControls;
use crate::sim::ball_moved;
use crate::sim::bumped_score;
use crate::sim::flipped;
use crate::sim::goal_on_left;
use crate::sim::goal_on_right;
use crate::sim::left_hit;
use crate::sim::lemma_tick_preserves_wf;
use crate::sim::paddles_stepped;
use crate::sim::run_spec;
use crate::sim::right_hit;
use crate::sim::step_left_bounce;
use crate::sim::step_right_bounce;
use crate::sim::tick_spec;
use crate::sim::wall_hit;
use vstd::prelude::*;

verus! {

/// After every tick both paddles lie inside the arena vertically: each top
/// edge is at or below the arena's top and each bottom edge at or above its
/// bottom.
pub proof fn lemma_paddles_stay_in_arena(s: MatchState, c: PaddleControls)
    requires
        s.wf(),
    ensures
        tick_spec(s, c).l_paddle.top() >= 0,
        tick_spec(s, c).l_paddle.bottom() <= ARENA_SIZE,
        tick_spec(s, c).r_paddle.top() >= 0,
        tick_spec(s, c).r_paddle.bottom() <= ARENA_SIZE,
{
}

/// A ball that moves left and overlaps the left paddle once the paddles
/// have moved leaves the tick moving right: the bounce flips the
/// horizontal velocity, no second bounce can undo it, and no goal can fall
/// in the same tick.
pub proof fn lemma_left_bounce_sends_ball_right(s: MatchState, c: PaddleControls)
    requires
        s.wf(),
        left_hit(paddles_stepped(s, c)),
    ensures
        tick_spec(s, c).ball.vel_x > 0,
{
}

/// The mirror law: a ball that moves right and overlaps the right paddle
/// leaves the tick moving left.
pub proof fn lemma_right_bounce_sends_ball_left(s: MatchState, c: PaddleControls)
    requires
        s.wf(),
        right_hit(step_left_bounce(paddles_stepped(s, c))),
    ensures
        tick_spec(s, c).ball.vel_x < 0,
{
}

/// A ball past the top wall while moving up, or past the bottom wall while
/// moving down, has its vertical velocity flipped by the tick. The one
/// exception is a tick that also scores a goal, which replaces the ball
/// and its velocity; such ticks are left out here.
pub proof fn lemma_wall_bounce_flips_vertical(s: MatchState, c: PaddleControls)
    requires
        s.wf(),
        wall_hit(step_right_bounce(step_left_bounce(paddles_stepped(s, c)))),
        !goal_on_left(ball_moved(s, c)),
        !goal_on_right(ball_moved(s, c)),
    ensures
        tick_spec(s, c).ball.vel_y == flipped(
            step_right_bounce(step_left_bounce(paddles_stepped(s, c))).ball.vel_y,
        ),
        step_right_bounce(step_left_bounce(paddles_stepped(s, c))).ball.vel_y < 0 ==> tick_spec(
            s,
            c,
        ).ball.vel_y > 0,
        step_right_bounce(step_left_bounce(paddles_stepped(s, c))).ball.vel_y > 0 ==> tick_spec(
            s,
            c,
        ).ball.vel_y < 0,
{
}

/// Scores never decrease, and on a goal tick exactly one side's score goes
/// up, by one goal: a goal past the left edge scores for the right player,
/// a goal past the right edge for the left player, and never both in one
/// tick.
pub proof fn lemma_score_monotone_one_side(s: MatchState, c: PaddleControls)
    requires
        s.wf(),
    ensures
        tick_spec(s, c).l_score >= s.l_score,
        tick_spec(s, c).r_score >= s.r_score,
        goal_on_left(ball_moved(s, c)) ==> tick_spec(s, c).r_score == bumped_score(s.r_score)
            && tick_spec(s, c).l_score == s.l_score,
        !goal_on_left(ball_moved(s, c)) && goal_on_right(ball_moved(s, c)) ==> tick_spec(
            s,
            c,
        ).l_score == bumped_score(s.l_score) && tick_spec(s, c).r_score == s.r_score,
        !goal_on_left(ball_moved(s, c)) && !goal_on_right(ball_moved(s, c)) ==> tick_spec(
            s,
            c,
        ).l_score == s.l_score && tick_spec(s, c).r_score == s.r_score,
        !(tick_spec(s, c).l_score != s.l_score && tick_spec(s, c).r_score != s.r_score),
{
}

/// A goal tick leaves the ball freshly spawned: at the arena's centre less
/// half the ball on both axes, with each velocity component's magnitude in
/// `[MIN_SPEED, MAX_SPEED)`.
pub proof fn lemma_goal_respawns_ball(s: MatchState, c: PaddleControls)
    requires
        s.wf(),
        goal_on_left(ball_moved(s, c)) || goal_on_right(ball_moved(s, c)),
    ensures
        tick_spec(s, c).ball.rect.x == BALL_SPAWN,
        tick_spec(s, c).ball.rect.y == BALL_SPAWN,
        MIN_SPEED <= tick_spec(s, c).ball.vel_x < MAX_SPEED || -MAX_SPEED < tick_spec(
            s,
            c,
        ).ball.vel_x <= -MIN_SPEED,
        MIN_SPEED <= tick_spec(s, c).ball.vel_y < MAX_SPEED || -MAX_SPEED < tick_spec(
            s,
            c,
        ).ball.vel_y <= -MIN_SPEED,
{
}

/// Well-formedness is an invariant of whole runs: from a well-formed state,
/// any sequence of ticks ends well-formed, whatever the control signals.
pub proof fn lemma_run_preserves_wf(s: MatchState, inputs: Seq<PaddleControls>)
    requires
        s.wf(),
    ensures
        run_spec(s, inputs).wf(),
    decreases inputs.len(),
{
    if inputs.len() > 0 {
        lemma_tick_preserves_wf(s, inputs[0]);
        lemma_run_preserves_wf(tick_spec(s, inputs[0]), inputs.drop_first());
    }
}

/// Across any run of ticks both scores are monotonically non-decreasing.
pub proof fn lemma_scores_monotone_across_run(s: MatchState, inputs: Seq<PaddleControls>)
    requires
        s.wf(),
    ensures
        run_spec(s, inputs).l_score >= s.l_score,
        run_spec(s, inputs).r_score >= s.r_score,
    decreases inputs.len(),
{
    if inputs.len() > 0 {
        lemma_tick_preserves_wf(s, inputs[0]);
        lemma_score_monotone_one_side(s, inputs[0]);
        lemma_scores_monotone_across_run(tick_spec(s, inputs[0]), inputs.drop_first());
    }
}

} // verus!
