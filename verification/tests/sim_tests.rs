use pong::geom::Rect;
use pong::sim::Ball;
use pong::sim::MatchState;
use pong::sim::PaddleControls;
use pong::sim::SideEffect;
use pong::sim::new_match;
use pong::sim::rand_velocity;

fn no_input() -> PaddleControls {
    PaddleControls { l_up: false, l_down: false, r_up: false, r_down: false }
}

fn trail_at_spawn() -> Rect {
    Rect { x: 29500, y: 29500, w: 250, h: 250 }
}

/// A well-formed state with both paddles centred and the given ball.
fn state_with_ball(ball: Ball) -> MatchState {
    MatchState {
        l_paddle: Rect { x: 2000, y: 26250, w: 1200, h: 7500 },
        r_paddle: Rect { x: 56800, y: 26250, w: 1200, h: 7500 },
        ball,
        trail_0: trail_at_spawn(),
        trail_1: trail_at_spawn(),
        trail_2: trail_at_spawn(),
        trail_3: trail_at_spawn(),
        l_score: 0,
        r_score: 0,
        frame: 0,
    }
}

#[test]
fn new_match_has_documented_constants() {
    let s = new_match();
    assert_eq!(s.l_paddle, Rect { x: 2000, y: 26250, w: 1200, h: 7500 });
    assert_eq!(s.r_paddle, Rect { x: 56800, y: 26250, w: 1200, h: 7500 });
    assert_eq!(s.ball.rect, Rect { x: 29500, y: 29500, w: 1000, h: 1000 });
    // Frame 0 is even, so both spawn components are +(300 + 0).
    assert_eq!(s.ball.vel_x, 300);
    assert_eq!(s.ball.vel_y, 300);
    assert_eq!(s.trail_0, trail_at_spawn());
    assert_eq!(s.trail_3, trail_at_spawn());
    assert_eq!(s.l_score, 0);
    assert_eq!(s.r_score, 0);
    assert_eq!(s.frame, 0);
}

#[test]
fn rand_velocity_exact_values() {
    assert_eq!(rand_velocity(0), 300);
    assert_eq!(rand_velocity(1), -301);
    assert_eq!(rand_velocity(17), -317);
    assert_eq!(rand_velocity(199), -499);
    assert_eq!(rand_velocity(200), 300);
}

#[test]
fn rand_velocity_magnitude_in_range() {
    for frame in 0..1000u32 {
        let v = rand_velocity(frame);
        let m = v.abs();
        assert!((300..500).contains(&m), "magnitude {m} out of range");
        assert_ne!(v, 0);
    }
}

// Paddle at y = 262.5 units receiving "up" for 5 ticks with no bound in the
// way ends at y = 262.5 - 40 = 222.5 units.
#[test]
fn paddle_up_five_ticks() {
    let mut s = new_match();
    assert_eq!(s.l_paddle.y, 26250);
    let up = PaddleControls { l_up: true, l_down: false, r_up: false, r_down: false };
    for _ in 0..5 {
        s.tick(up);
    }
    assert_eq!(s.l_paddle.y, 22250);
    // The right paddle received no signal and stays put.
    assert_eq!(s.r_paddle.y, 26250);
}

#[test]
fn paddle_clamps_at_top() {
    let mut s = new_match();
    let up = PaddleControls { l_up: true, l_down: false, r_up: false, r_down: false };
    for _ in 0..40 {
        s.tick(up);
    }
    assert_eq!(s.l_paddle.y, 0);
}

#[test]
fn paddle_clamps_at_bottom() {
    let mut s = new_match();
    let down = PaddleControls { l_up: false, l_down: true, r_up: false, r_down: false };
    for _ in 0..40 {
        s.tick(down);
    }
    // Largest y at which the 75-unit paddle still fits the 600-unit arena.
    assert_eq!(s.l_paddle.y, 52500);
}

#[test]
fn both_signals_cancel() {
    let mut s = new_match();
    let both = PaddleControls { l_up: true, l_down: true, r_up: true, r_down: true };
    s.tick(both);
    assert_eq!(s.l_paddle.y, 26250);
    assert_eq!(s.r_paddle.y, 26250);
}

#[test]
fn both_signals_cancel_at_edge() {
    let mut s = new_match();
    s.l_paddle.y = 0;
    let both = PaddleControls { l_up: true, l_down: true, r_up: false, r_down: false };
    s.tick(both);
    assert_eq!(s.l_paddle.y, 0);
}

// Ball at (0.5, 300) units with velocity (-4, 1): the next tick takes it past
// the left edge, the right player scores, and the ball respawns at
// (295, 295) units.
#[test]
fn left_goal_scores_for_right() {
    let mut s = state_with_ball(Ball {
        rect: Rect { x: 50, y: 30000, w: 1000, h: 1000 },
        vel_x: -400,
        vel_y: 100,
    });
    s.frame = 10;
    let out = s.tick(no_input());
    assert_eq!(s.r_score, 1);
    assert_eq!(s.l_score, 0);
    assert_eq!(s.ball.rect.x, 29500);
    assert_eq!(s.ball.rect.y, 29500);
    // Respawn velocities come from the advanced frame counter, 11: odd, so
    // both components are -(300 + 11).
    assert_eq!(s.ball.vel_x, -311);
    assert_eq!(s.ball.vel_y, -311);
    assert!(out.effects.is_empty());
}

#[test]
fn right_goal_scores_for_left() {
    let mut s = state_with_ball(Ball {
        rect: Rect { x: 58950, y: 30000, w: 1000, h: 1000 },
        vel_x: 400,
        vel_y: 100,
    });
    let out = s.tick(no_input());
    assert_eq!(s.l_score, 1);
    assert_eq!(s.r_score, 0);
    assert_eq!(s.ball.rect.x, 29500);
    assert_eq!(s.ball.rect.y, 29500);
    assert!(out.effects.is_empty());
}

#[test]
fn respawn_speed_in_range_after_goal() {
    for frame in 0..40u32 {
        let mut s = state_with_ball(Ball {
            rect: Rect { x: 50, y: 30000, w: 1000, h: 1000 },
            vel_x: -400,
            vel_y: 100,
        });
        s.frame = frame;
        s.tick(no_input());
        assert!((300..500).contains(&s.ball.vel_x.abs()));
        assert!((300..500).contains(&s.ball.vel_y.abs()));
    }
}

#[test]
fn score_holds_at_maximum() {
    let mut s = state_with_ball(Ball {
        rect: Rect { x: 50, y: 30000, w: 1000, h: 1000 },
        vel_x: -400,
        vel_y: 100,
    });
    s.r_score = u32::MAX;
    s.tick(no_input());
    assert_eq!(s.r_score, u32::MAX);
    assert_eq!(s.l_score, 0);
}

// Ball moving up-left and overlapping the left paddle, with the ball's
// centre below the paddle's centre: the horizontal velocity flips, the
// vertical one does not.
#[test]
fn left_bounce_below_centre_keeps_vertical() {
    // Paddle spans y 262.5..337.5, centre 300; ball centre 315 is below it.
    let mut s = state_with_ball(Ball {
        rect: Rect { x: 2500, y: 31000, w: 1000, h: 1000 },
        vel_x: -400,
        vel_y: -300,
    });
    let out = s.tick(no_input());
    assert_eq!(s.ball.vel_x, 400);
    assert_eq!(s.ball.vel_y, -300);
    assert_eq!(out.effects, vec![SideEffect::PaddleHit]);
}

#[test]
fn left_bounce_above_centre_flips_both() {
    // Ball centre 285 is above the paddle's centre 300.
    let mut s = state_with_ball(Ball {
        rect: Rect { x: 2500, y: 28000, w: 1000, h: 1000 },
        vel_x: -400,
        vel_y: 300,
    });
    let out = s.tick(no_input());
    assert_eq!(s.ball.vel_x, 400);
    assert_eq!(s.ball.vel_y, -300);
    assert_eq!(out.effects, vec![SideEffect::PaddleHit]);
}

#[test]
fn right_bounce_flips_horizontal() {
    let mut s = state_with_ball(Ball {
        rect: Rect { x: 56500, y: 31000, w: 1000, h: 1000 },
        vel_x: 400,
        vel_y: -300,
    });
    let out = s.tick(no_input());
    assert_eq!(s.ball.vel_x, -400);
    assert_eq!(s.ball.vel_y, -300);
    assert_eq!(out.effects, vec![SideEffect::PaddleHit]);
}

#[test]
fn ball_moving_away_does_not_bounce_again() {
    // Overlapping the left paddle but already moving right: no bounce, no
    // sound; this is what keeps a reflected ball from jittering.
    let mut s = state_with_ball(Ball {
        rect: Rect { x: 2500, y: 31000, w: 1000, h: 1000 },
        vel_x: 400,
        vel_y: 300,
    });
    let out = s.tick(no_input());
    assert_eq!(s.ball.vel_x, 400);
    assert!(out.effects.is_empty());
}

#[test]
fn touching_edge_counts_as_overlap() {
    // The ball's left edge exactly on the paddle's right edge still bounces.
    let mut s = state_with_ball(Ball {
        rect: Rect { x: 3200, y: 31000, w: 1000, h: 1000 },
        vel_x: -400,
        vel_y: 100,
    });
    let out = s.tick(no_input());
    assert_eq!(s.ball.vel_x, 400);
    assert_eq!(out.effects, vec![SideEffect::PaddleHit]);
}

#[test]
fn top_wall_flips_vertical() {
    let mut s = state_with_ball(Ball {
        rect: Rect { x: 30000, y: -100, w: 1000, h: 1000 },
        vel_x: 300,
        vel_y: -300,
    });
    s.tick(no_input());
    assert_eq!(s.ball.vel_y, 300);
    assert_eq!(s.ball.rect.y, 200);
}

#[test]
fn bottom_wall_flips_vertical() {
    let mut s = state_with_ball(Ball {
        rect: Rect { x: 30000, y: 59100, w: 1000, h: 1000 },
        vel_x: 300,
        vel_y: 300,
    });
    s.tick(no_input());
    assert_eq!(s.ball.vel_y, -300);
    assert_eq!(s.ball.rect.y, 58800);
}

#[test]
fn wall_ignored_when_moving_away() {
    let mut s = state_with_ball(Ball {
        rect: Rect { x: 30000, y: -100, w: 1000, h: 1000 },
        vel_x: 300,
        vel_y: 300,
    });
    s.tick(no_input());
    assert_eq!(s.ball.vel_y, 300);
    assert_eq!(s.ball.rect.y, 200);
}

#[test]
fn trail_shifts_every_seventh_tick() {
    let mut s = new_match();
    for _ in 0..6 {
        s.tick(no_input());
    }
    // Six ticks moved the ball but not yet the trail.
    assert_eq!(s.trail_0, trail_at_spawn());
    s.tick(no_input());
    // On the seventh tick the first segment takes the ball's position as it
    // was when the tick began; the others still sit at the spawn point.
    assert_eq!(s.trail_0, Rect { x: 31300, y: 31300, w: 250, h: 250 });
    assert_eq!(s.trail_1, trail_at_spawn());
    for _ in 0..7 {
        s.tick(no_input());
    }
    assert_eq!(s.trail_1, Rect { x: 31300, y: 31300, w: 250, h: 250 });
}

#[test]
fn scores_never_decrease_over_many_ticks() {
    let mut s = new_match();
    let mut last = (0u32, 0u32);
    let wiggle = PaddleControls { l_up: true, l_down: false, r_up: false, r_down: true };
    for _ in 0..2000 {
        s.tick(wiggle);
        assert!(s.l_score >= last.0);
        assert!(s.r_score >= last.1);
        // A single tick never raises both scores.
        assert!(!(s.l_score > last.0 && s.r_score > last.1));
        last = (s.l_score, s.r_score);
    }
}

#[test]
fn paddles_stay_inside_arena_over_many_ticks() {
    let mut s = new_match();
    let controls = [
        PaddleControls { l_up: true, l_down: false, r_up: false, r_down: true },
        PaddleControls { l_up: true, l_down: true, r_up: true, r_down: false },
        PaddleControls { l_up: false, l_down: false, r_up: true, r_down: true },
    ];
    for i in 0..3000 {
        s.tick(controls[i % 3]);
        assert!(s.l_paddle.y >= 0 && s.l_paddle.y + 7500 <= 60000);
        assert!(s.r_paddle.y >= 0 && s.r_paddle.y + 7500 <= 60000);
        assert_ne!(s.ball.vel_x, 0);
        assert_ne!(s.ball.vel_y, 0);
    }
}

#[test]
fn tick_reports_render_snapshot() {
    let mut s = new_match();
    let out = s.tick(no_input());
    assert_eq!(out.render.ball, s.ball.rect);
    assert_eq!(out.render.l_paddle, s.l_paddle);
    assert_eq!(out.render.r_paddle, s.r_paddle);
    assert_eq!(out.render.l_score, s.l_score);
    assert_eq!(out.render.r_score, s.r_score);
    let again = s.render();
    assert_eq!(again, out.render);
}
