//! The match simulation: one fixed arena, two paddles, one ball, a score.
//!
//! The whole state lives in [`MatchState`]; [`MatchState::tick`] advances it
//! by one frame. Every quantity is an `i32` in centiunits (hundredths of an
//! arena unit): the arena is 600 by 600 units, so `ARENA_SIZE` is 60000.
//! The spec functions in this module give the exact transition relation of a
//! tick; `tick`'s contract says the new state is that function of the old.

use crate::geom::Rect;
use crate::geom::above_centre;
use crate::geom::is_above_centre;
use crate::geom::overlaps;
use crate::geom::rects_overlap;
use vstd::prelude::*;

verus! {

/// Side length of the square arena, in centiunits (600 units).
pub const ARENA_SIZE: i32 = 60000;

/// Horizontal gap between each paddle and its wall (20 units).
pub const X_OFFSET: i32 = 2000;

/// Paddle width (12 units).
pub const PADDLE_WIDTH: i32 = 1200;

/// Paddle height (75 units).
pub const PADDLE_HEIGHT: i32 = 7500;

/// Vertical distance a paddle moves per tick under one signal (8 units).
pub const PADDLE_SPEED: i32 = 800;

/// Largest paddle `y` at which the paddle still fits in the arena.
pub const PADDLE_MAX_Y: i32 = ARENA_SIZE - PADDLE_HEIGHT;

/// Paddle `y` at match start: vertically centred, half the arena less
/// half a paddle.
pub const PADDLE_START_Y: i32 = 26250;

/// `x` of the left paddle.
pub const L_PADDLE_X: i32 = X_OFFSET;

/// `x` of the right paddle.
pub const R_PADDLE_X: i32 = ARENA_SIZE - X_OFFSET - PADDLE_WIDTH;

/// Side length of the square ball (10 units).
pub const BALL_SIZE: i32 = 1000;

/// Ball `x` and `y` at spawn: centred on both axes, half the arena less
/// half the ball.
pub const BALL_SPAWN: i32 = 29500;

/// Smallest magnitude of a spawned velocity component (3 units per tick).
pub const MIN_SPEED: i32 = 300;

/// Number of distinct spawn speeds; magnitudes run from `MIN_SPEED` to
/// `MIN_SPEED + SPEED_SPAN - 1`.
pub const SPEED_SPAN: i32 = 200;

/// Strict upper bound on the magnitude of a velocity component (5 units
/// per tick); spawn magnitudes lie in `[MIN_SPEED, MAX_SPEED)`.
pub const MAX_SPEED: i32 = 500;

/// Side length of a trail segment (a quarter of the ball).
pub const TRAIL_SIZE: i32 = 250;

/// The trail shifts once every this many ticks.
pub const TRAIL_RATE: u32 = 7;

/// The four control signals sampled by the host for one tick.
#[derive(Clone, Copy, PartialEq, Eq, Structural, Debug)]
pub struct PaddleControls {
    pub l_up: bool,
    pub l_down: bool,
    pub r_up: bool,
    pub r_down: bool,
}

/// A side effect a tick asks the host to perform.
#[derive(Clone, Copy, PartialEq, Eq, Structural, Debug)]
pub enum SideEffect {
    /// The ball bounced off a paddle; the host may play a sound.
    PaddleHit,
}

/// The ball: a square rectangle and a velocity in centiunits per tick.
#[derive(Clone, Copy, PartialEq, Eq, Structural, Debug)]
pub struct Ball {
    pub rect: Rect,
    pub vel_x: i32,
    pub vel_y: i32,
}

impl Ball {
    /// The ball is its fixed size and both velocity components are nonzero
    /// and below the speed bound. Reflection only negates a component, so
    /// these bounds persist from spawn to spawn.
    pub open spec fn wf(self) -> bool {
        &&& self.rect.w == BALL_SIZE
        &&& self.rect.h == BALL_SIZE
        &&& self.vel_x != 0
        &&& -MAX_SPEED < self.vel_x < MAX_SPEED
        &&& self.vel_y != 0
        &&& -MAX_SPEED < self.vel_y < MAX_SPEED
    }
}

/// The whole state of a match.
#[derive(Clone, Copy, PartialEq, Eq, Structural, Debug)]
pub struct MatchState {
    pub l_paddle: Rect,
    pub r_paddle: Rect,
    pub ball: Ball,
    pub trail_0: Rect,
    pub trail_1: Rect,
    pub trail_2: Rect,
    pub trail_3: Rect,
    pub l_score: u32,
    pub r_score: u32,
    pub frame: u32,
}

/// The renderable snapshot of one tick: everything the host draws.
#[derive(Clone, Copy, PartialEq, Eq, Structural, Debug)]
pub struct RenderState {
    pub l_paddle: Rect,
    pub r_paddle: Rect,
    pub ball: Rect,
    pub trail_0: Rect,
    pub trail_1: Rect,
    pub trail_2: Rect,
    pub trail_3: Rect,
    pub l_score: u32,
    pub r_score: u32,
}

/// What one call of [`MatchState::tick`] hands back to the host.
#[derive(Debug)]
pub struct TickResult {
    pub render: RenderState,
    pub effects: Vec<SideEffect>,
}

impl MatchState {
    /// Well-formedness: paddles sit at their fixed `x` and within the arena
    /// vertically, and the ball is sized and bounded as the rules keep it.
    /// The ball's `x` is back inside the arena after every tick (a goal
    /// respawns it); its `y` may overhang a wall by less than one step.
    pub open spec fn wf(self) -> bool {
        &&& self.l_paddle.x == L_PADDLE_X
        &&& self.l_paddle.w == PADDLE_WIDTH
        &&& self.l_paddle.h == PADDLE_HEIGHT
        &&& 0 <= self.l_paddle.y <= PADDLE_MAX_Y
        &&& self.r_paddle.x == R_PADDLE_X
        &&& self.r_paddle.w == PADDLE_WIDTH
        &&& self.r_paddle.h == PADDLE_HEIGHT
        &&& 0 <= self.r_paddle.y <= PADDLE_MAX_Y
        &&& self.ball.wf()
        &&& 0 <= self.ball.rect.x <= ARENA_SIZE - BALL_SIZE
        &&& -MAX_SPEED < self.ball.rect.y < ARENA_SIZE - BALL_SIZE + MAX_SPEED
    }
}

/// Magnitude of the velocity component spawned on frame `frame`:
/// `MIN_SPEED` plus a frame-dependent part below `SPEED_SPAN`.
pub open spec fn spawn_speed(frame: u32) -> int {
    MIN_SPEED + frame as int % (SPEED_SPAN as int)
}

/// The frame-derived pseudo-random velocity component: magnitude
/// `spawn_speed(frame)`, sign by the parity of `frame`.
pub open spec fn rand_velocity_spec(frame: u32) -> int {
    if frame as int % 2 == 0 {
        spawn_speed(frame)
    } else {
        -spawn_speed(frame)
    }
}

/// One velocity component for a ball spawned on frame `frame`. The value is
/// a deterministic function of the frame counter, so respawns are
/// reproducible; its magnitude always lies in `[MIN_SPEED, MAX_SPEED)`.
pub fn rand_velocity(frame: u32) -> (v: i32)
    ensures
        v == rand_velocity_spec(frame),
        MIN_SPEED <= v < MAX_SPEED || -MAX_SPEED < v <= -MIN_SPEED,
{
    let magnitude: i32 = MIN_SPEED + (frame % (SPEED_SPAN as u32)) as i32;
    if frame % 2 == 0 {
        magnitude
    } else {
        -magnitude
    }
}

/// The ball spawned on frame `frame`: centred, with both velocity
/// components drawn independently from the frame counter.
pub open spec fn spawn_ball(frame: u32) -> Ball {
    Ball {
        rect: Rect { x: BALL_SPAWN, y: BALL_SPAWN, w: BALL_SIZE, h: BALL_SIZE },
        vel_x: rand_velocity_spec(frame) as i32,
        vel_y: rand_velocity_spec((frame as int % 17) as u32) as i32,
    }
}

impl Ball {
    /// A freshly spawned ball for frame `frame`.
    pub fn new(frame: u32) -> (b: Ball)
        ensures
            b == spawn_ball(frame),
            b.wf(),
    {
        let vel_x = rand_velocity(frame);
        let vel_y = rand_velocity(frame % 17);
        Ball {
            rect: Rect { x: BALL_SPAWN, y: BALL_SPAWN, w: BALL_SIZE, h: BALL_SIZE },
            vel_x,
            vel_y,
        }
    }
}

/// The state every match starts from: paddles centred, ball spawned for
/// frame 0, trail segments parked at the spawn point, scores zero.
pub open spec fn initial_state() -> MatchState {
    MatchState {
        l_paddle: Rect { x: L_PADDLE_X, y: PADDLE_START_Y, w: PADDLE_WIDTH, h: PADDLE_HEIGHT },
        r_paddle: Rect { x: R_PADDLE_X, y: PADDLE_START_Y, w: PADDLE_WIDTH, h: PADDLE_HEIGHT },
        ball: spawn_ball(0),
        trail_0: Rect { x: BALL_SPAWN, y: BALL_SPAWN, w: TRAIL_SIZE, h: TRAIL_SIZE },
        trail_1: Rect { x: BALL_SPAWN, y: BALL_SPAWN, w: TRAIL_SIZE, h: TRAIL_SIZE },
        trail_2: Rect { x: BALL_SPAWN, y: BALL_SPAWN, w: TRAIL_SIZE, h: TRAIL_SIZE },
        trail_3: Rect { x: BALL_SPAWN, y: BALL_SPAWN, w: TRAIL_SIZE, h: TRAIL_SIZE },
        l_score: 0,
        r_score: 0,
        frame: 0,
    }
}

/// `v` negated. Velocities stay far inside the `i32` range, so the
/// negation is exact.
pub open spec fn flipped(v: i32) -> i32 {
    (-(v as int)) as i32
}

/// The frame counter after one tick; the count wraps rather than stop.
pub open spec fn next_frame(f: u32) -> u32 {
    if f == u32::MAX {
        0
    } else {
        (f + 1) as u32
    }
}

/// Step 1 of a tick: advance the frame counter.
pub open spec fn step_frame(s: MatchState) -> MatchState {
    MatchState { frame: next_frame(s.frame), ..s }
}

/// `dst` slid to `src`'s top-left corner, keeping its own size.
pub open spec fn slid_to(dst: Rect, src: Rect) -> Rect {
    Rect { x: src.x, y: src.y, ..dst }
}

/// Step 2: on every `TRAIL_RATE`-th tick each trail segment takes the place
/// of the one before it, and the first takes the ball's.
pub open spec fn step_trails(s: MatchState) -> MatchState {
    if s.frame % TRAIL_RATE == 0 {
        MatchState {
            trail_3: slid_to(s.trail_3, s.trail_2),
            trail_2: slid_to(s.trail_2, s.trail_1),
            trail_1: slid_to(s.trail_1, s.trail_0),
            trail_0: slid_to(s.trail_0, s.ball.rect),
            ..s
        }
    } else {
        s
    }
}

/// Net displacement one tick of signals asks of a paddle; both signals
/// together cancel.
pub open spec fn paddle_shift(up: bool, down: bool) -> int {
    (if up {
        -(PADDLE_SPEED as int)
    } else {
        0
    }) + (if down {
        PADDLE_SPEED as int
    } else {
        0
    })
}

/// `v` held inside `[lo, hi]`.
pub open spec fn clamped(v: int, lo: int, hi: int) -> int {
    if v < lo {
        lo
    } else if v > hi {
        hi
    } else {
        v
    }
}

/// A paddle's `y` after one tick of signals: shifted, then held so that the
/// paddle never leaves the arena vertically.
pub open spec fn stepped_paddle_y(y: i32, up: bool, down: bool) -> int {
    clamped(y + paddle_shift(up, down), 0, PADDLE_MAX_Y as int)
}

/// Step 3: move both paddles under their control signals.
pub open spec fn step_paddles(s: MatchState, c: PaddleControls) -> MatchState {
    MatchState {
        l_paddle: Rect {
            y: stepped_paddle_y(s.l_paddle.y, c.l_up, c.l_down) as i32,
            ..s.l_paddle
        },
        r_paddle: Rect {
            y: stepped_paddle_y(s.r_paddle.y, c.r_up, c.r_down) as i32,
            ..s.r_paddle
        },
        ..s
    }
}

/// The ball is moving left and overlaps the left paddle.
pub open spec fn left_hit(s: MatchState) -> bool {
    s.ball.vel_x < 0 && rects_overlap(s.ball.rect, s.l_paddle)
}

/// The ball is moving right and overlaps the right paddle.
pub open spec fn right_hit(s: MatchState) -> bool {
    s.ball.vel_x > 0 && rects_overlap(s.ball.rect, s.r_paddle)
}

/// The ball reflected off a paddle: the horizontal component always flips;
/// the vertical flips only when the ball's centre is above the paddle's.
pub open spec fn paddle_bounced(ball: Ball, paddle: Rect) -> Ball {
    Ball {
        vel_x: flipped(ball.vel_x),
        vel_y: if is_above_centre(ball.rect, paddle) {
            flipped(ball.vel_y)
        } else {
            ball.vel_y
        },
        ..ball
    }
}

/// Step 4a: bounce off the left paddle when the ball moves toward it and
/// overlaps it. A ball already moving away does not bounce again, so a ball
/// still overlapping after a reflection does not jitter.
pub open spec fn step_left_bounce(s: MatchState) -> MatchState {
    if left_hit(s) {
        MatchState { ball: paddle_bounced(s.ball, s.l_paddle), ..s }
    } else {
        s
    }
}

/// Step 4b: the mirror rule for the right paddle, judged after the left.
pub open spec fn step_right_bounce(s: MatchState) -> MatchState {
    if right_hit(s) {
        MatchState { ball: paddle_bounced(s.ball, s.r_paddle), ..s }
    } else {
        s
    }
}

/// The ball is moving up with its top past the top wall, or moving down
/// with its bottom past the bottom wall.
pub open spec fn wall_hit(s: MatchState) -> bool {
    (s.ball.vel_y < 0 && s.ball.rect.top() < 0) || (s.ball.vel_y > 0 && s.ball.rect.bottom()
        > ARENA_SIZE)
}

/// Step 5: reflect the vertical component off the horizontal walls. The
/// left and right edges are goals, not walls, so nothing reflects there.
pub open spec fn step_wall_bounce(s: MatchState) -> MatchState {
    if wall_hit(s) {
        MatchState { ball: Ball { vel_y: flipped(s.ball.vel_y), ..s.ball }, ..s }
    } else {
        s
    }
}

/// Step 6: one Euler step, the velocity added to the position.
pub open spec fn step_move(s: MatchState) -> MatchState {
    MatchState {
        ball: Ball {
            rect: Rect {
                x: (s.ball.rect.x + s.ball.vel_x) as i32,
                y: (s.ball.rect.y + s.ball.vel_y) as i32,
                ..s.ball.rect
            },
            ..s.ball
        },
        ..s
    }
}

/// The ball has left the arena past the left edge.
pub open spec fn goal_on_left(s: MatchState) -> bool {
    s.ball.rect.left() < 0
}

/// The ball has left the arena past the right edge.
pub open spec fn goal_on_right(s: MatchState) -> bool {
    s.ball.rect.right() > ARENA_SIZE
}

/// A score one goal higher; the count holds at `u32::MAX` rather than
/// overflow.
pub open spec fn bumped_score(c: u32) -> u32 {
    if c < u32::MAX {
        (c + 1) as u32
    } else {
        c
    }
}

/// Step 7: a goal past the left edge scores for the right player, one past
/// the right edge for the left player, never both in one tick; the ball is
/// respawned from the already advanced frame counter.
pub open spec fn step_goal(s: MatchState) -> MatchState {
    if goal_on_left(s) {
        MatchState { r_score: bumped_score(s.r_score), ball: spawn_ball(s.frame), ..s }
    } else if goal_on_right(s) {
        MatchState { l_score: bumped_score(s.l_score), ball: spawn_ball(s.frame), ..s }
    } else {
        s
    }
}

/// The state after the paddles have moved, where paddle collision is
/// judged.
pub open spec fn paddles_stepped(s: MatchState, c: PaddleControls) -> MatchState {
    step_paddles(step_trails(step_frame(s)), c)
}

/// The state after both bounce steps, just before the ball moves.
pub open spec fn ball_bounced(s: MatchState, c: PaddleControls) -> MatchState {
    step_wall_bounce(step_right_bounce(step_left_bounce(paddles_stepped(s, c))))
}

/// The state after the ball has moved, where goals are judged.
pub open spec fn ball_moved(s: MatchState, c: PaddleControls) -> MatchState {
    step_move(ball_bounced(s, c))
}

/// The whole transition of one tick.
pub open spec fn tick_spec(s: MatchState, c: PaddleControls) -> MatchState {
    step_goal(ball_moved(s, c))
}

/// The state after a whole run of ticks, one per control snapshot, oldest
/// first.
pub open spec fn run_spec(s: MatchState, inputs: Seq<PaddleControls>) -> MatchState
    decreases inputs.len(),
{
    if inputs.len() == 0 {
        s
    } else {
        run_spec(tick_spec(s, inputs[0]), inputs.drop_first())
    }
}

/// The side effects of one tick: one `PaddleHit` per paddle bounce, in the
/// order the bounces are judged.
pub open spec fn tick_effects(s: MatchState, c: PaddleControls) -> Seq<SideEffect> {
    let m = paddles_stepped(s, c);
    let l = left_hit(m);
    let r = right_hit(step_left_bounce(m));
    if l && r {
        seq![SideEffect::PaddleHit, SideEffect::PaddleHit]
    } else if l || r {
        seq![SideEffect::PaddleHit]
    } else {
        Seq::empty()
    }
}

/// What the host draws of a state.
pub open spec fn render_of(s: MatchState) -> RenderState {
    RenderState {
        l_paddle: s.l_paddle,
        r_paddle: s.r_paddle,
        ball: s.ball.rect,
        trail_0: s.trail_0,
        trail_1: s.trail_1,
        trail_2: s.trail_2,
        trail_3: s.trail_3,
        l_score: s.l_score,
        r_score: s.r_score,
    }
}

/// Moving the paddles keeps the state well-formed and touches nothing of
/// the ball.
proof fn lemma_paddles_stepped_wf(s: MatchState, c: PaddleControls)
    requires
        s.wf(),
    ensures
        paddles_stepped(s, c).wf(),
        paddles_stepped(s, c).ball == s.ball,
{
}

/// The two paddle bounces keep the state well-formed and move nothing: they
/// only negate velocity components, which preserves magnitudes.
proof fn lemma_bounces_keep_wf(s: MatchState)
    requires
        s.wf(),
    ensures
        step_right_bounce(step_left_bounce(s)).wf(),
        step_right_bounce(step_left_bounce(s)).ball.rect == s.ball.rect,
        step_right_bounce(step_left_bounce(s)).l_paddle == s.l_paddle,
        step_right_bounce(step_left_bounce(s)).r_paddle == s.r_paddle,
{
}

/// The wall bounce, the Euler step and the goal step together keep the
/// state well-formed: a flip off a wall turns the ball back before it can
/// leave the vertical overhang, and a goal respawns the ball inside.
proof fn lemma_wall_move_goal_keep_wf(s: MatchState)
    requires
        s.wf(),
    ensures
        step_goal(step_move(step_wall_bounce(s))).wf(),
{
}

/// One tick keeps the state well-formed: the central invariant of the
/// simulation.
pub proof fn lemma_tick_preserves_wf(s: MatchState, c: PaddleControls)
    requires
        s.wf(),
    ensures
        tick_spec(s, c).wf(),
{
    lemma_paddles_stepped_wf(s, c);
    lemma_bounces_keep_wf(paddles_stepped(s, c));
    lemma_wall_move_goal_keep_wf(step_right_bounce(step_left_bounce(paddles_stepped(s, c))));
}

/// A paddle's `y` after one tick of signals, as executable code.
fn stepped_paddle(y: i32, up: bool, down: bool) -> (ny: i32)
    requires
        0 <= y <= PADDLE_MAX_Y,
    ensures
        ny == stepped_paddle_y(y, up, down),
        0 <= ny <= PADDLE_MAX_Y,
{
    let mut ny = y;
    if up {
        ny = ny - PADDLE_SPEED;
    }
    if down {
        ny = ny + PADDLE_SPEED;
    }
    if ny < 0 {
        ny = 0;
    }
    if ny > PADDLE_MAX_Y {
        ny = PADDLE_MAX_Y;
    }
    ny
}

impl MatchState {
    /// The renderable snapshot of the current state.
    pub fn render(&self) -> (r: RenderState)
        ensures
            r == render_of(*self),
    {
        RenderState {
            l_paddle: self.l_paddle,
            r_paddle: self.r_paddle,
            ball: self.ball.rect,
            trail_0: self.trail_0,
            trail_1: self.trail_1,
            trail_2: self.trail_2,
            trail_3: self.trail_3,
            l_score: self.l_score,
            r_score: self.r_score,
        }
    }

    /// Advance the match by one tick under the given control signals.
    ///
    /// The new state is exactly `tick_spec` of the old; in particular both
    /// paddles end the tick inside the arena, and the state stays
    /// well-formed, so the match never fails.
    #[verifier::rlimit(100)]
    pub fn tick(&mut self, input: PaddleControls) -> (out: TickResult)
        requires
            old(self).wf(),
        ensures
            *final(self) == tick_spec(*old(self), input),
            final(self).wf(),
            final(self).l_paddle.top() >= 0 && final(self).l_paddle.bottom() <= ARENA_SIZE,
            final(self).r_paddle.top() >= 0 && final(self).r_paddle.bottom() <= ARENA_SIZE,
            out.render == render_of(*final(self)),
            out.effects@ == tick_effects(*old(self), input),
    {
        // Step 1: the frame counter.
        self.frame = if self.frame == u32::MAX {
            0
        } else {
            self.frame + 1
        };
        // Step 2: the trail.
        if self.frame % TRAIL_RATE == 0 {
            self.trail_3 = Rect { x: self.trail_2.x, y: self.trail_2.y, ..self.trail_3 };
            self.trail_2 = Rect { x: self.trail_1.x, y: self.trail_1.y, ..self.trail_2 };
            self.trail_1 = Rect { x: self.trail_0.x, y: self.trail_0.y, ..self.trail_1 };
            self.trail_0 = Rect { x: self.ball.rect.x, y: self.ball.rect.y, ..self.trail_0 };
        }
        assert(*self == step_trails(step_frame(*old(self))));
        // Step 3: the paddles.
        self.l_paddle.y = stepped_paddle(self.l_paddle.y, input.l_up, input.l_down);
        self.r_paddle.y = stepped_paddle(self.r_paddle.y, input.r_up, input.r_down);
        assert(*self == paddles_stepped(*old(self), input));

        let mut effects: Vec<SideEffect> = Vec::new();
        // Step 4: the paddles' bounces.
        if self.ball.vel_x < 0 && overlaps(&self.ball.rect, &self.l_paddle) {
            self.ball.vel_x = -self.ball.vel_x;
            if above_centre(&self.ball.rect, &self.l_paddle) {
                self.ball.vel_y = -self.ball.vel_y;
            }
            effects.push(SideEffect::PaddleHit);
        }
        assert(*self == step_left_bounce(paddles_stepped(*old(self), input)));
        if self.ball.vel_x > 0 && overlaps(&self.ball.rect, &self.r_paddle) {
            self.ball.vel_x = -self.ball.vel_x;
            if above_centre(&self.ball.rect, &self.r_paddle) {
                self.ball.vel_y = -self.ball.vel_y;
            }
            effects.push(SideEffect::PaddleHit);
        }
        assert(effects@ =~= tick_effects(*old(self), input));
        // Step 5: the walls.
        if (self.ball.vel_y < 0 && self.ball.rect.y < 0) || (self.ball.vel_y > 0
            && self.ball.rect.y + BALL_SIZE > ARENA_SIZE) {
            self.ball.vel_y = -self.ball.vel_y;
        }
        assert(*self == ball_bounced(*old(self), input));
        // Step 6: the Euler step.
        self.ball.rect.x = self.ball.rect.x + self.ball.vel_x;
        self.ball.rect.y = self.ball.rect.y + self.ball.vel_y;
        assert(*self == ball_moved(*old(self), input));
        // Step 7: the goals.
        if self.ball.rect.x < 0 {
            self.r_score = if self.r_score < u32::MAX {
                self.r_score + 1
            } else {
                self.r_score
            };
            self.ball = Ball::new(self.frame);
        } else if self.ball.rect.x + BALL_SIZE > ARENA_SIZE {
            self.l_score = if self.l_score < u32::MAX {
                self.l_score + 1
            } else {
                self.l_score
            };
            self.ball = Ball::new(self.frame);
        }
        assert(*self == tick_spec(*old(self), input));
        proof {
            lemma_tick_preserves_wf(*old(self), input);
        }
        let render = self.render();
        TickResult { render, effects }
    }
}

/// A new match with the fixed arena constants.
pub fn new_match() -> (s: MatchState)
    ensures
        s == initial_state(),
        s.wf(),
{
    let trail = Rect { x: BALL_SPAWN, y: BALL_SPAWN, w: TRAIL_SIZE, h: TRAIL_SIZE };
    MatchState {
        l_paddle: Rect { x: L_PADDLE_X, y: PADDLE_START_Y, w: PADDLE_WIDTH, h: PADDLE_HEIGHT },
        r_paddle: Rect { x: R_PADDLE_X, y: PADDLE_START_Y, w: PADDLE_WIDTH, h: PADDLE_HEIGHT },
        ball: Ball::new(0),
        trail_0: trail,
        trail_1: trail,
        trail_2: trail,
        trail_3: trail,
        l_score: 0,
        r_score: 0,
        frame: 0,
    }
}

} // verus!
