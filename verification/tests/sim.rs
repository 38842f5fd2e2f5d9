//! Exercises the simulation with the real random generator linked in: player
//! physics, obstacle gaps, collision, and the mode machine.

use bracket_lib::random::RandomNumberGenerator;
use flappy::game::{Frame, GameMode, Input, State};
use flappy::obstacle::Obstacle;
use flappy::player::Player;

#[test]
fn gravity_velocity_monotone_capped_floor_clamped() {
    let mut p = Player::new(5, 250);
    p.flap();
    let mut last_velocity = p.velocity;
    for _ in 0..60 {
        p.gravity_and_move();
        assert!(p.velocity >= last_velocity);
        assert!(p.velocity <= 20);
        assert!(p.y >= 0);
        last_velocity = p.velocity;
    }
    assert_eq!(p.velocity, 20);
}

#[test]
fn floor_clamp_holds_from_low_position() {
    let mut p = Player::new(0, 5);
    p.flap();
    for _ in 0..4 {
        p.gravity_and_move();
        assert!(p.y >= 0);
    }
    assert_eq!(p.y, 0);
}

#[test]
fn flap_resets_velocity_exactly() {
    let mut p = Player::new(5, 250);
    for steps in [0usize, 1, 3, 25] {
        for _ in 0..steps {
            p.gravity_and_move();
        }
        p.flap();
        assert_eq!(p.velocity, -10);
    }
}

#[test]
fn gap_bounds_span_twice_half_size() {
    for size in 2..=20 {
        let o = Obstacle { x: 10, gap_y: 25, size };
        let (top, bottom) = o.gap_bounds();
        assert_eq!(bottom - top, 2 * (size / 2));
        assert_eq!(top, 25 - size / 2);
        assert_eq!(bottom, 25 + size / 2);
    }
}

#[test]
fn gap_bounds_odd_size_one_narrower() {
    let o = Obstacle { x: 10, gap_y: 20, size: 5 };
    let (top, bottom) = o.gap_bounds();
    assert_eq!((top, bottom), (18, 22));
    assert_eq!(bottom - top, 4);
}

#[test]
fn no_collision_when_columns_differ() {
    let o = Obstacle { x: 10, gap_y: 20, size: 2 };
    for (x, y) in [(3, 0), (9, 0), (11, 0), (9, 490), (80, 250)] {
        let p = Player { x, y, velocity: 0 };
        assert!(!o.collides_with(&p));
    }
}

#[test]
fn collision_above_gap() {
    let o = Obstacle { x: 10, gap_y: 20, size: 10 };
    let (top, bottom) = o.gap_bounds();
    assert_eq!((top, bottom), (15, 25));
    let p = Player { x: 10, y: 50, velocity: 0 };
    assert!(o.collides_with(&p));
}

#[test]
fn no_collision_inside_gap() {
    let o = Obstacle { x: 10, gap_y: 20, size: 10 };
    let p = Player { x: 10, y: 200, velocity: 0 };
    assert!(!o.collides_with(&p));
}

#[test]
fn collision_below_gap() {
    let o = Obstacle { x: 10, gap_y: 20, size: 10 };
    let p = Player { x: 10, y: 260, velocity: 0 };
    assert!(o.collides_with(&p));
}

#[test]
fn obstacle_size_shrinks_with_score_to_floor() {
    let mut rng = RandomNumberGenerator::seeded(7);
    assert_eq!(Obstacle::new(80, 0, &mut rng).size, 20);
    assert_eq!(Obstacle::new(80, 5, &mut rng).size, 15);
    assert_eq!(Obstacle::new(80, 18, &mut rng).size, 2);
    assert_eq!(Obstacle::new(80, 25, &mut rng).size, 2);
}

#[test]
fn obstacle_gap_center_drawn_inside_range() {
    let mut rng = RandomNumberGenerator::seeded(12345);
    let mut gaps = Vec::new();
    for _ in 0..64 {
        let o = Obstacle::new(80, 0, &mut rng);
        assert!(o.gap_y >= 10 && o.gap_y < 40);
        gaps.push(o.gap_y);
    }
    assert!(gaps.iter().any(|g| *g != gaps[0]));
}

#[test]
fn one_flap_then_ten_steps_recurrence() {
    let mut p = Player::new(5, 250);
    p.flap();
    for _ in 0..10 {
        p.gravity_and_move();
    }
    // Velocity runs -9, -8, ..., 0; y gains their sum, -45 tenths.
    assert_eq!(p.velocity, 0);
    assert_eq!(p.y, 205);
    assert_eq!(p.x, 15);
}

#[test]
fn menu_quit_raises_flag_and_keeps_mode() {
    let mut s = State::new(RandomNumberGenerator::seeded(1));
    assert_eq!(s.mode, GameMode::Menu);
    let out = s.tick(16_000, Some(Input::Quit));
    assert!(out.quit);
    assert_eq!(out.frame, Frame::Menu);
    assert_eq!(s.mode, GameMode::Menu);
    assert_eq!(s.score, 0);
    assert_eq!(s.player.x, 5);
    assert_eq!(s.player.y, 250);
}

#[test]
fn menu_other_keys_do_nothing() {
    let mut s = State::new(RandomNumberGenerator::seeded(1));
    let out = s.tick(16_000, Some(Input::Flap));
    assert!(!out.quit);
    assert_eq!(out.frame, Frame::Menu);
    assert_eq!(s.mode, GameMode::Menu);
    let out = s.tick(16_000, None);
    assert!(!out.quit);
    assert_eq!(s.mode, GameMode::Menu);
}

#[test]
fn menu_play_resets_all_state() {
    let mut s = State::new(RandomNumberGenerator::seeded(1));
    let out = s.tick(16_000, Some(Input::Play));
    assert!(!out.quit);
    assert_eq!(s.mode, GameMode::Playing);
    assert_eq!(s.player.x, 5);
    assert_eq!(s.player.y, 250);
    assert_eq!(s.player.velocity, 0);
    assert_eq!(s.score, 0);
    assert_eq!(s.frame_time, 0);
    assert_eq!(s.obstacle.x, 80);
    assert_eq!(s.obstacle.size, 20);
    assert!(s.obstacle.gap_y >= 10 && s.obstacle.gap_y < 40);
}

fn drive_to_end(s: &mut State) {
    s.tick(0, Some(Input::Play));
    for _ in 0..200 {
        if matches!(s.mode, GameMode::End) {
            return;
        }
        s.tick(80_000, None);
    }
    panic!("falling player never reached the end screen");
}

#[test]
fn restart_yields_identical_initial_state_from_every_mode() {
    // From Menu, from Playing, and from End, modulo the random gap center.
    let mut from_menu = State::new(RandomNumberGenerator::seeded(2));
    let mut from_playing = State::new(RandomNumberGenerator::seeded(3));
    from_playing.tick(0, Some(Input::Play));
    from_playing.tick(80_000, None);
    let mut from_end = State::new(RandomNumberGenerator::seeded(4));
    drive_to_end(&mut from_end);

    for s in [&mut from_menu, &mut from_playing, &mut from_end] {
        s.restart();
        assert_eq!(s.mode, GameMode::Playing);
        assert_eq!(s.player.x, 5);
        assert_eq!(s.player.y, 250);
        assert_eq!(s.player.velocity, 0);
        assert_eq!(s.score, 0);
        assert_eq!(s.frame_time, 0);
        assert_eq!(s.obstacle.x, 80);
        assert_eq!(s.obstacle.size, 20);
        assert!(s.obstacle.gap_y >= 10 && s.obstacle.gap_y < 40);
    }
}

#[test]
fn physics_steps_only_past_the_threshold() {
    let mut s = State::new(RandomNumberGenerator::seeded(5));
    s.tick(0, Some(Input::Play));
    s.tick(40_000, None);
    assert_eq!(s.player.x, 5);
    assert_eq!(s.frame_time, 40_000);
    s.tick(40_000, None);
    assert_eq!(s.player.x, 6);
    assert_eq!(s.frame_time, 0);
}

#[test]
fn flap_shows_only_on_the_next_frame() {
    let mut s = State::new(RandomNumberGenerator::seeded(6));
    s.tick(0, Some(Input::Play));
    let out = s.tick(80_000, Some(Input::Flap));
    // The frame is fixed before the flap is applied: it still shows the
    // post-gravity row, while the state already carries the flap velocity.
    match out.frame {
        Frame::Playing { player_row, score, .. } => {
            assert_eq!(player_row, 25);
            assert_eq!(score, 0);
        }
        _ => panic!("expected a playing frame"),
    }
    assert_eq!(s.player.velocity, -10);
    assert_eq!(s.player.y, 251);
}

#[test]
fn passing_the_obstacle_scores_and_replaces_it() {
    let mut s = State::new(RandomNumberGenerator::seeded(8));
    s.tick(0, Some(Input::Play));
    for _ in 0..300 {
        if matches!(s.mode, GameMode::End) || s.score >= 1 {
            break;
        }
        // Steer toward the gap center: flap when at or below it.
        let key = if s.player.y >= s.obstacle.gap_y * 10 { Some(Input::Flap) } else { None };
        s.tick(80_000, key);
    }
    assert_eq!(s.score, 1);
    assert_eq!(s.mode, GameMode::Playing);
    assert_eq!(s.obstacle.x, s.player.x + 80);
    assert_eq!(s.obstacle.size, 19);
    assert!(s.obstacle.gap_y >= 10 && s.obstacle.gap_y < 40);
}

#[test]
fn falling_off_screen_ends_the_game() {
    let mut s = State::new(RandomNumberGenerator::seeded(9));
    s.tick(0, Some(Input::Play));
    for _ in 0..200 {
        if matches!(s.mode, GameMode::End) {
            break;
        }
        s.tick(80_000, None);
    }
    assert_eq!(s.mode, GameMode::End);
    assert!(s.player.y / 10 > 50);
}

#[test]
fn end_screen_shows_final_score_and_restarts() {
    let mut s = State::new(RandomNumberGenerator::seeded(10));
    drive_to_end(&mut s);
    let final_score = s.score;
    let out = s.tick(16_000, None);
    assert_eq!(out.frame, Frame::End { score: final_score });
    assert!(!out.quit);
    assert_eq!(s.mode, GameMode::End);

    let out = s.tick(16_000, Some(Input::Quit));
    assert!(out.quit);
    assert_eq!(s.mode, GameMode::End);

    let out = s.tick(16_000, Some(Input::Play));
    assert!(!out.quit);
    assert_eq!(s.mode, GameMode::Playing);
    assert_eq!(s.score, 0);
    assert_eq!(s.player.y, 250);
}

#[test]
fn playing_frame_scrolls_the_world() {
    let mut s = State::new(RandomNumberGenerator::seeded(11));
    s.tick(0, Some(Input::Play));
    let out = s.tick(80_000, None);
    // After one step the player is at world column 6, drawn at the fixed
    // screen column 5, so the obstacle at world column 80 shows at 79.
    match out.frame {
        Frame::Playing { obstacle_x, gap_top, gap_bottom, .. } => {
            assert_eq!(obstacle_x, 79);
            assert_eq!(gap_top, s.obstacle.gap_y - 10);
            assert_eq!(gap_bottom, s.obstacle.gap_y + 10);
        }
        _ => panic!("expected a playing frame"),
    }
}
