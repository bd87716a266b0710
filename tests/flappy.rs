use flappy::camera::Camera;
use flappy::element::{Obstacle, Power, PowerUp, Terrain, DISPLAY_HEIGHT, DISPLAY_WIDTH};
use flappy::player::Player;
use flappy::session::{init_power_up, GameState, Input, State};

#[test]
fn camera_bounds_follow_position() {
    let mut camera = Camera::new(30, 25, 60, 50);
    assert_eq!(camera.left(), 0);
    assert_eq!(camera.right(), 60);
    camera.update();
    assert_eq!(camera.x, 31);
    assert_eq!(camera.left(), 1);
    assert_eq!(camera.right(), 61);
    assert_eq!(camera.height, 50);
}

#[test]
fn camera_odd_width_truncates() {
    let camera = Camera::new(10, 0, 7, 5);
    assert_eq!(camera.left(), 7);
    assert_eq!(camera.right(), 13);
}

#[test]
fn player_starts_at_rest() {
    let p = Player::new(15, 16);
    assert_eq!((p.x, p.y, p.velocity, p.power, p.flap), (15, 16, 0, 20, false));
}

#[test]
fn player_falls_under_gravity() {
    let mut p = Player::new(0, 10);
    p.update();
    assert_eq!((p.x, p.y, p.velocity), (1, 10, 2));
    for _ in 0..4 {
        p.update();
    }
    assert_eq!(p.velocity, 10);
    assert_eq!(p.y, 11);
    assert_eq!(p.x, 5);
}

#[test]
fn player_velocity_is_capped() {
    let mut p = Player::new(0, 0);
    for _ in 0..20 {
        p.update();
    }
    assert_eq!(p.velocity, 20);
    let y = p.y;
    p.update();
    assert_eq!(p.velocity, 20);
    assert_eq!(p.y, y + 2);
}

#[test]
fn player_y_never_negative() {
    let mut p = Player::new(0, 1);
    p.velocity = -40;
    p.update();
    assert_eq!(p.velocity, -38);
    assert_eq!(p.y, 0);
    for _ in 0..10 {
        p.flap();
        p.update();
        assert!(p.y >= 0);
    }
}

#[test]
fn flap_spends_power_until_exhausted() {
    let mut p = Player::new(0, 20);
    assert_eq!(p.flap(), Some(19));
    assert_eq!(p.velocity, -15);
    assert!(p.flap);
    p.power = 1;
    assert_eq!(p.flap(), Some(0));
    assert_eq!(p.flap(), None);
    assert_eq!(p.power, 0);
    assert_eq!(p.velocity, -45);
}

#[test]
fn power_up_adds_to_power() {
    let mut p = Player::new(0, 0);
    assert_eq!(p.power_up(15), 35);
    assert_eq!(p.power, 35);
}

#[test]
fn obstacle_height_shrinks_with_score() {
    assert_eq!(Obstacle::with_gap(0, 0, 20).height, 20);
    assert_eq!(Obstacle::with_gap(0, 5, 20).height, 15);
    assert_eq!(Obstacle::with_gap(0, 18, 20).height, 2);
    assert_eq!(Obstacle::with_gap(0, 1000, 20).height, 2);
    assert_eq!(Obstacle::with_gap(0, i32::MAX, 20).height, 2);
}

#[test]
fn obstacle_gap_is_random_in_range() {
    let mut seen = std::collections::BTreeSet::new();
    for _ in 0..200 {
        let o = Obstacle::new(60, 3);
        assert!(o.gap >= 10 && o.gap < 40);
        assert_eq!(o.height, 17);
        assert_eq!(o.x, 60);
        seen.insert(o.gap);
    }
    assert!(seen.len() > 1);
}

#[test]
fn obstacle_opening_scenario() {
    let o = Obstacle::with_gap(30, 0, 25);
    let half = o.height / 2;
    assert!(!o.collision(&Player::new(30, 25)));
    assert!(o.collision(&Player::new(30, 25 + half + 1)));
    assert!(o.collision(&Player::new(30, 25 - half - 1)));
    assert!(!o.collision(&Player::new(30, 25 + half)));
    for y in -5..60 {
        assert!(!o.collision(&Player::new(29, y)));
    }
}

#[test]
fn terrain_follows_wave() {
    let t = Terrain::new(60);
    assert_eq!(t.data.len(), 60);
    assert_eq!(t.current, 0);
    assert_eq!(t.data[0], 6);
    assert_eq!(t.data[15], 11);
    assert_eq!(t.data[45], 1);
    assert!(t.data.iter().all(|h| *h >= 1 && *h <= 11));
    let wide = Terrain::new(70);
    assert_eq!(wide.data[65], wide.data[5]);
}

#[test]
fn terrain_rotation_wraps() {
    let mut t = Terrain::new(3);
    t.update();
    assert_eq!(t.current, 1);
    t.update();
    t.update();
    assert_eq!(t.current, 0);
}

#[test]
fn terrain_collision_ignores_rotation() {
    let mut t = Terrain::new(60);
    let ground = DISPLAY_HEIGHT - t.data[0] as i32;
    let on = Player::new(0, ground);
    let above = Player::new(0, ground - 1);
    for _ in 0..17 {
        assert!(t.collision(&on));
        assert!(!t.collision(&above));
        t.update();
    }
    assert!(t.collision(&Player::new(60, ground)));
}

#[test]
fn power_values_by_tier() {
    assert_eq!(Power::Low.value(), 5);
    assert_eq!(Power::Med.value(), 10);
    assert_eq!(Power::High.value(), 15);
    assert_eq!(Power::from_roll(1), Power::Low);
    assert_eq!(Power::from_roll(2), Power::Med);
    assert_eq!(Power::from_roll(3), Power::High);
}

#[test]
fn power_up_box_collision() {
    let u = PowerUp::new(10, 10, Power::Med);
    assert!(u.collision(&Player::new(9, 11)));
    assert!(u.collision(&Player::new(11, 9)));
    assert!(!u.collision(&Player::new(12, 10)));
    assert!(!u.collision(&Player::new(10, 8)));
}

#[test]
fn power_up_course_has_one_per_group() {
    for _ in 0..20 {
        let course = init_power_up();
        assert_eq!(course.len(), 45);
        for (g, u) in course.iter().enumerate() {
            let base = 30 * g as i32 + 17;
            assert!(u.x > base && u.x <= base + 10);
            assert!(u.y >= 5 && u.y < 30);
        }
    }
}

#[test]
fn start_from_menu_begins_play() {
    let mut s = State::new();
    assert_eq!(s.state, GameState::Menu);
    assert!(!s.tick(10_000, Some(Input::Flap)));
    assert_eq!(s.state, GameState::Menu);
    assert!(!s.tick(10_000, Some(Input::Start)));
    assert_eq!(s.state, GameState::Playing);
    assert_eq!(s.score, 0);
    assert_eq!(s.player.power, 20);
    assert_eq!((s.player.x, s.player.y), (15, 16));
    assert_eq!(s.terrain.data.len(), DISPLAY_WIDTH as usize);
    assert_eq!(s.obstacle.x, 60);
    assert_eq!(s.power_up.len(), 45);
    assert_eq!(s.power_up_idx, 0);
}

#[test]
fn quit_from_menu_and_end() {
    let mut s = State::new();
    assert!(s.tick(0, Some(Input::Quit)));
    s.state = GameState::End;
    assert!(s.tick(0, Some(Input::Quit)));
    assert!(!s.tick(0, Some(Input::Restart)));
    assert_eq!(s.state, GameState::Playing);
}

#[test]
fn flap_then_step_scenario() {
    let mut s = State::new();
    s.tick(0, Some(Input::Start));
    s.tick(0, Some(Input::Flap));
    assert_eq!(s.player.power, 19);
    assert_eq!(s.player.y, 16);
    s.tick(80_000, None);
    assert_eq!(s.player.velocity, -13);
    assert_eq!(s.player.power, 19);
    assert_eq!(s.player.y, 15);
    assert_eq!(s.player.x, 16);
    assert_eq!(s.camera.x, 31);
    assert_eq!(s.terrain.current, 1);
}

#[test]
fn steps_need_a_full_frame() {
    let mut s = State::new();
    s.tick(0, Some(Input::Start));
    s.tick(75_000, None);
    assert_eq!(s.player.x, 15);
    s.tick(1, None);
    assert_eq!(s.player.x, 16);
    assert_eq!(s.frame_time, 0);
}

#[test]
fn flapping_flag_clears_after_timeout() {
    let mut s = State::new();
    s.tick(0, Some(Input::Start));
    s.tick(0, Some(Input::Flap));
    assert!(s.player.flap);
    s.tick(100_000, None);
    assert!(s.player.flap);
    s.tick(60_000, None);
    assert!(!s.player.flap);
}

#[test]
fn exhausted_power_stops_flapping() {
    let mut s = State::new();
    s.tick(0, Some(Input::Start));
    s.player.power = 0;
    s.tick(0, Some(Input::Flap));
    assert!(!s.power_remaining);
    assert_eq!(s.player.velocity, -15);
    s.tick(0, Some(Input::Flap));
    assert_eq!(s.player.velocity, -15);
}

#[test]
fn falling_ends_the_round() {
    let mut s = State::new();
    s.tick(0, Some(Input::Start));
    let mut ticks = 0;
    while s.state == GameState::Playing && ticks < 1000 {
        s.tick(80_000, None);
        ticks += 1;
    }
    assert_eq!(s.state, GameState::End);
    let x = s.player.x;
    s.tick(80_000, None);
    assert_eq!(s.player.x, x);
}

#[test]
fn passing_an_obstacle_scores_once() {
    let mut s = State::new();
    s.tick(0, Some(Input::Start));
    s.obstacle = Obstacle::with_gap(16, 0, 16);
    s.tick(80_000, None);
    assert_eq!(s.state, GameState::Playing);
    assert_eq!(s.score, 0);
    s.tick(80_000, None);
    assert_eq!(s.score, 1);
    assert!(!s.new_obstacle);
    s.tick(80_000, None);
    assert_eq!(s.score, 1);
}

#[test]
fn obstacle_is_replaced_behind_camera() {
    let mut s = State::new();
    s.tick(0, Some(Input::Start));
    s.obstacle = Obstacle::with_gap(1, 0, 20);
    s.new_obstacle = false;
    s.score = 7;
    s.tick(80_000, None);
    assert_eq!(s.obstacle.x, 61);
    assert_eq!(s.obstacle.height, 13);
    assert!(s.new_obstacle);
}

#[test]
fn power_up_collected_once() {
    let mut s = State::new();
    s.tick(0, Some(Input::Start));
    s.power_up = vec![
        PowerUp::new(5, 5, Power::Low),
        PowerUp::new(16, 16, Power::High),
        PowerUp::new(100, 10, Power::Med),
    ];
    s.tick(80_000, None);
    assert_eq!(s.player.power, 35);
    assert_eq!(s.power_up_idx, 2);
    let idx = s.power_up_idx;
    s.tick(80_000, None);
    assert_eq!(s.player.power, 35);
    assert!(s.power_up_idx >= idx);
}

#[test]
fn power_up_behind_camera_is_skipped() {
    let mut s = State::new();
    s.tick(0, Some(Input::Start));
    s.camera.x = 40;
    s.player.x = 25;
    s.power_up = vec![PowerUp::new(5, 5, Power::Low), PowerUp::new(100, 10, Power::Med)];
    s.tick(0, None);
    assert_eq!(s.power_up_idx, 1);
    assert_eq!(s.player.power, 20);
}

#[test]
fn terrain_collision_wraps_negative_columns() {
    let t = Terrain::new(60);
    let ground = DISPLAY_HEIGHT - t.data[59] as i32;
    assert!(t.collision(&Player::new(-1, ground)));
    assert!(!t.collision(&Player::new(-1, ground - 1)));
    let ground0 = DISPLAY_HEIGHT - t.data[0] as i32;
    assert!(t.collision(&Player::new(-60, ground0)));
    assert!(!t.collision(&Player::new(-120, ground0 - 1)));
}
