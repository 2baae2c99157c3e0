use pong::game::{App, DrawRect, Size, Status, Winner};
use pong::paddle::Paddle;

fn fresh_app() -> App {
    App::new(Size { width: 512, height: 342 })
}

#[test]
fn test_new_initial_state() {
    let app = fresh_app();
    assert_eq!(app.width, 512);
    assert_eq!(app.height, 342);
    assert_eq!(app.player_1.pos_x, -40);
    assert_eq!(app.player_1.pos_y, 1);
    assert_eq!(app.player_1.vel, 0);
    assert_eq!(app.player_1.score, 0);
    assert_eq!(app.player_2.pos_x, 502);
    assert_eq!(app.player_2.pos_y, 1);
    assert_eq!(app.player_2.vel, 0);
    assert_eq!(app.player_2.score, 0);
    assert_eq!(app.ball_x, 0);
    assert_eq!(app.ball_y, 0);
    assert_eq!(app.vel_x, 1);
    assert_eq!(app.vel_y, 1);
    assert_eq!(app.status, Status::Playing);
    assert!(!app.keys.up && !app.keys.down && !app.keys.w && !app.keys.s);
}

#[test]
fn test_first_tick_moves_ball_one_step() {
    let mut app = fresh_app();
    app.update();
    assert_eq!(app.ball_x, 1);
    assert_eq!(app.ball_y, 1);
    assert_eq!(app.vel_x, 1);
    assert_eq!(app.vel_y, 1);
    assert_eq!(app.status, Status::Playing);
}

#[test]
fn test_paddle_clamps_at_bottom() {
    let mut p = Paddle::new(-40);
    p.pos_y = 291;
    p.vel = 1;
    p.move_paddle(342);
    assert_eq!(p.pos_y, 292);
    p.move_paddle(342);
    assert_eq!(p.pos_y, 292);
}

#[test]
fn test_paddle_clamps_at_top() {
    let mut p = Paddle::new(-40);
    p.pos_y = 0;
    p.vel = -1;
    p.move_paddle(342);
    assert_eq!(p.pos_y, 0);
    p.vel = 0;
    p.pos_y = 5;
    p.move_paddle(342);
    assert_eq!(p.pos_y, 5);
}

#[test]
fn test_paddle_stays_in_bounds_whatever_the_inputs() {
    let mut p = Paddle::new(-40);
    let directions = [1, 1, 1, -1, 0, 1, -1, -1, -1, -1, 1, 0, 0, -1, 1];
    for round in 0..100 {
        p.vel = directions[round % directions.len()];
        p.move_paddle(342);
        assert!(0 <= p.pos_y && p.pos_y <= 292);
    }
}

#[test]
fn test_ball_speed_stays_unit_over_many_ticks() {
    let mut app = fresh_app();
    app.press(pong::game::GameKey::Down);
    for _ in 0..2000 {
        app.update();
        assert!(app.vel_x == 1 || app.vel_x == -1);
        assert!(app.vel_y == 1 || app.vel_y == -1);
        assert!(0 <= app.player_1.pos_y && app.player_1.pos_y <= 292);
        assert!(0 <= app.player_2.pos_y && app.player_2.pos_y <= 292);
    }
}

#[test]
fn test_right_wall_reflection() {
    let mut app = fresh_app();
    app.ball_x = 505;
    app.ball_y = 20;
    app.update();
    assert_eq!(app.vel_x, -1);
    assert_eq!(app.ball_x, 506);
    assert_eq!(app.player_1.score, 0);
    assert_eq!(app.player_2.score, 0);
}

#[test]
fn test_right_crossing_inside_span_bounces_without_score() {
    let mut app = fresh_app();
    app.player_2.pos_y = 100;
    app.ball_x = 502;
    app.ball_y = 120;
    app.update();
    assert_eq!(app.player_1.score, 0);
    assert_eq!(app.vel_x, -1);
    assert_eq!(app.ball_x, 503);
    assert_eq!(app.ball_y, 121);
    assert_eq!(app.status, Status::Playing);
}

#[test]
fn test_right_crossing_outside_span_scores_and_respawns() {
    let mut app = fresh_app();
    app.player_2.pos_y = 100;
    app.ball_x = 502;
    app.ball_y = 200;
    app.update();
    assert_eq!(app.player_1.score, 1);
    assert_eq!(app.vel_x, -1);
    assert_eq!(app.ball_x, 256);
    assert_eq!(app.ball_y, 172);
    assert_eq!(app.status, Status::Playing);
}

#[test]
fn test_span_edges_count_as_hits() {
    // Both closed ends of [paddle_y, paddle_y + 50] bounce without a score.
    for ball_y in [100, 150] {
        let mut app = fresh_app();
        app.player_2.pos_y = 100;
        app.ball_x = 502;
        app.ball_y = ball_y;
        app.update();
        assert_eq!(app.player_1.score, 0);
        assert_eq!(app.ball_x, 503);
    }
    // One past either end misses.
    for ball_y in [99, 151] {
        let mut app = fresh_app();
        app.player_2.pos_y = 100;
        app.ball_x = 502;
        app.ball_y = ball_y;
        app.update();
        assert_eq!(app.player_1.score, 1);
        assert_eq!(app.ball_x, 256);
    }
}

#[test]
fn test_left_wall_scoring_and_bounce() {
    let mut app = fresh_app();
    app.player_1.pos_y = 100;
    app.ball_x = 1;
    app.vel_x = -1;
    app.ball_y = 200;
    app.update();
    assert_eq!(app.player_2.score, 1);
    assert_eq!(app.vel_x, 1);
    assert_eq!(app.ball_x, 256);
    assert_eq!(app.ball_y, 172);

    let mut app = fresh_app();
    app.player_1.pos_y = 100;
    app.ball_x = 1;
    app.vel_x = -1;
    app.ball_y = 120;
    app.update();
    assert_eq!(app.player_2.score, 0);
    assert_eq!(app.vel_x, 1);
    assert_eq!(app.ball_x, 0);
    assert_eq!(app.ball_y, 121);
}

#[test]
fn test_win_transition_left() {
    let mut app = fresh_app();
    app.player_1.score = 4;
    app.player_2.pos_y = 100;
    app.ball_x = 502;
    app.ball_y = 200;
    app.update();
    assert_eq!(app.player_1.score, 5);
    assert_eq!(app.status, Status::Finished(Winner::Left));
    // The tick stops at the win: the ball is neither respawned nor stepped
    // vertically.
    assert_eq!(app.ball_x, 503);
    assert_eq!(app.ball_y, 200);
    assert_eq!(app.vel_x, -1);

    // A finished match is inert: a further tick changes nothing.
    app.press(pong::game::GameKey::Down);
    let before = (
        app.ball_x,
        app.ball_y,
        app.vel_x,
        app.vel_y,
        app.player_1.pos_y,
        app.player_2.pos_y,
        app.player_1.score,
        app.player_2.score,
        app.status,
    );
    app.update();
    let after = (
        app.ball_x,
        app.ball_y,
        app.vel_x,
        app.vel_y,
        app.player_1.pos_y,
        app.player_2.pos_y,
        app.player_1.score,
        app.player_2.score,
        app.status,
    );
    assert_eq!(before, after);
}

#[test]
fn test_win_transition_right() {
    let mut app = fresh_app();
    app.player_2.score = 4;
    app.player_1.pos_y = 100;
    app.ball_x = 1;
    app.vel_x = -1;
    app.ball_y = 200;
    app.update();
    assert_eq!(app.player_2.score, 5);
    assert_eq!(app.status, Status::Finished(Winner::Right));
    assert_eq!(app.ball_x, 0);
    assert_eq!(app.ball_y, 200);
}

#[test]
fn test_top_bottom_reflection() {
    // Crossing the bottom bound flips the vertical velocity.
    let mut app = fresh_app();
    app.ball_x = 100;
    app.ball_y = 332;
    app.update();
    assert_eq!(app.ball_y, 333);
    assert_eq!(app.vel_y, -1);

    // Crossing the top bound flips it back up.
    let mut app = fresh_app();
    app.ball_x = 100;
    app.ball_y = 1;
    app.vel_y = -1;
    app.update();
    assert_eq!(app.ball_y, 0);
    assert_eq!(app.vel_y, 1);

    // In the middle of the field nothing flips.
    let mut app = fresh_app();
    app.ball_x = 100;
    app.ball_y = 49;
    app.update();
    assert_eq!(app.ball_y, 50);
    assert_eq!(app.vel_y, 1);
}

#[test]
fn test_update_moves_paddles_by_input() {
    let mut app = fresh_app();
    app.ball_x = 100;
    app.ball_y = 100;
    app.press(pong::game::GameKey::Down);
    app.press(pong::game::GameKey::S);
    app.update();
    assert_eq!(app.player_2.pos_y, 2);
    assert_eq!(app.player_1.pos_y, 2);
    app.release(pong::game::GameKey::Down);
    app.press(pong::game::GameKey::Up);
    app.update();
    assert_eq!(app.player_2.pos_y, 1);
    assert_eq!(app.player_1.pos_y, 3);
}

#[test]
fn test_largest_playfield() {
    let mut app = App::new(Size { width: 0x7fff_ffff, height: 0x7fff_ffff });
    assert_eq!(app.player_2.pos_x, 0x7fff_ffff - 10);
    app.update();
    assert_eq!(app.ball_x, 1);
    assert_eq!(app.ball_y, 1);
    assert_eq!(app.status, Status::Playing);
}

#[test]
fn test_render_data_projects_current_state() {
    let mut app = fresh_app();
    app.player_1.pos_y = 7;
    app.player_2.pos_y = 31;
    app.ball_x = 123;
    app.ball_y = 45;
    let scene = app.render_data();
    assert_eq!(scene.left, DrawRect { x: -40, y: 7, size: 50 });
    assert_eq!(scene.right, DrawRect { x: 502, y: 31, size: 50 });
    assert_eq!(scene.ball, DrawRect { x: 123, y: 45, size: 10 });
    // A pure read: rendering leaves the match untouched.
    assert_eq!(app.ball_x, 123);
    assert_eq!(app.ball_y, 45);
    assert_eq!(app.status, Status::Playing);
}
