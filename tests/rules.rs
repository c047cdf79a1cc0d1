use asteroids::asteroid::{spawn_point, Asteroid};
use asteroids::collision::{
    asteroid_level, calculate_gravity, check_missiles_asteroids, check_vaisseau_asteroids,
    update_asteroids, update_missiles, update_model_vaisseau,
};
use asteroids::config_screen::ConfigScreen;
use asteroids::geometry::{integer_sqrt, mul_div, with_length, Field, Vector2, UNIT};
use asteroids::missile::Missile;
use asteroids::round::{reset_game, round_status, update_scale, victory_score, RoundOutcome};
use asteroids::stellar_object::StellarObject;
use asteroids::vaisseau::Vaisseau;

const SIZES: (i64, i64, i64) = (40_000, 20_000, 10_000);

fn px(v: i64) -> i64 {
    v * UNIT
}

fn at(x: i64, y: i64) -> Vector2 {
    Vector2::new(px(x), px(y))
}

fn screen() -> Field {
    Field::from_screen(px(800), px(600))
}

#[test]
fn square_roots_round_down() {
    assert_eq!(integer_sqrt(0), 0);
    assert_eq!(integer_sqrt(24), 4);
    assert_eq!(integer_sqrt(25), 5);
    assert_eq!(integer_sqrt(1_000_000_000_000), 1_000_000);
}

#[test]
fn scaling_rounds_toward_zero() {
    assert_eq!(mul_div(7, 3, 2), 10);
    assert_eq!(mul_div(-7, 3, 2), -10);
    assert_eq!(with_length(Vector2::new(3, 4), 10), Vector2::new(6, 8));
    assert_eq!(with_length(Vector2::new(0, -5), 3), Vector2::new(0, -3));
    assert_eq!(with_length(Vector2::zero(), 3), Vector2::zero());
    assert_eq!(with_length(Vector2::new(1, 1), 2000), Vector2::new(1414, 1414));
    assert_eq!(with_length(Vector2::new(-1, 0), 2000), Vector2::new(-2000, 0));
}

#[test]
fn split_by_a_slow_missile_keeps_the_speed() {
    let mut a = Asteroid::new(3, Vector2::new(0, 2000), SIZES, Some(at(50, 60)), screen());
    let (c1, c2) = a.split_asteroid(Vector2::new(1, 1));
    assert_eq!(c1.get_speed(), Vector2::new(-1414, 1414));
    assert_eq!(c2.get_speed(), Vector2::new(1414, -1414));
    let s = c1.get_speed();
    let sq = s.x * s.x + s.y * s.y;
    assert!(1998 * 1998 <= sq && sq <= 2000 * 2000);
}

#[test]
fn spawn_points_lie_outside_each_edge() {
    let f = screen();
    assert_eq!(spawn_point(0, px(5), px(40), f), Vector2::new(px(5), -px(40)));
    assert_eq!(spawn_point(1, px(7), px(40), f), Vector2::new(px(840), px(7)));
    assert_eq!(spawn_point(2, px(9), px(20), f), Vector2::new(px(9), px(620)));
    assert_eq!(spawn_point(3, 0, px(10), f), Vector2::new(-px(10), 0));
}

#[test]
fn playfield_keeps_its_sides_in_range() {
    let f = Field::from_screen(px(800), px(600));
    assert_eq!((f.width, f.height), (px(800), px(600)));
    let tiny = Field::from_screen(10, 10);
    assert_eq!((tiny.width, tiny.height), (px(100), px(100)));
    assert_eq!(f.center(), at(400, 300));
}

#[test]
fn asteroid_stops_exactly_on_the_edges() {
    let mut a = Asteroid::new(3, Vector2::new(-px(10), px(5)), SIZES, Some(at(10, 595)), screen());
    a.update_position(screen());
    assert_eq!(a.get_position(), at(0, 600));
}

#[test]
fn asteroid_wraps_across_the_screen() {
    let mut a = Asteroid::new(2, Vector2::new(-px(2), px(3)), SIZES, Some(at(1, 599)), screen());
    a.update_position(screen());
    assert_eq!(a.get_position(), at(799, 2));
}

#[test]
fn craft_wraps_across_the_screen() {
    let mut v = Vaisseau::new(Some(at(1, 50)), Some(0), screen(), 0);
    v.set_speed(Vector2::new(-px(2), 0));
    update_model_vaisseau(&mut v, screen());
    assert_eq!(v.get_position(), at(799, 50));
    let mut w = Vaisseau::new(Some(at(799, 50)), Some(0), screen(), 0);
    w.set_speed(Vector2::new(px(3), 0));
    w.update_position(screen());
    assert_eq!(w.get_position(), at(2, 50));
}

#[test]
fn split_sends_children_across_the_missile() {
    let mut a = Asteroid::new(3, Vector2::new(px(3), px(4)), SIZES, Some(at(50, 60)), screen());
    let (c1, c2) = a.split_asteroid(Vector2::new(0, -1500));
    assert_eq!(c1.get_level(), 2);
    assert_eq!(c2.get_level(), 2);
    assert_eq!(c1.get_position(), at(50, 60));
    assert_eq!(c2.get_position(), at(50, 60));
    assert_eq!(c1.get_speed(), Vector2::new(px(5), 0));
    assert_eq!(c2.get_speed(), Vector2::new(-px(5), 0));
    assert!(!c1.get_collided() && !c2.get_collided());
    assert_eq!(a.get_level(), 3);
}

#[test]
fn missile_hit_splits_only_above_level_one() {
    let mut big = Asteroid::new(2, Vector2::zero(), SIZES, Some(at(5, 5)), screen());
    let pair = big.handle_collision(1, true, Vector2::new(1500, 0));
    assert!(pair.is_some());
    assert!(big.get_collided());
    let mut small = Asteroid::new(1, Vector2::zero(), SIZES, Some(at(5, 5)), screen());
    assert!(small.handle_collision(1, true, Vector2::new(1500, 0)).is_none());
    assert!(small.get_collided());
    let mut rammed = Asteroid::new(3, Vector2::zero(), SIZES, Some(at(5, 5)), screen());
    assert!(rammed.handle_collision(0, true, Vector2::zero()).is_none());
    let mut missed = Asteroid::new(3, Vector2::zero(), SIZES, Some(at(5, 5)), screen());
    assert!(missed.handle_collision(1, false, Vector2::new(1500, 0)).is_none());
    assert!(!missed.get_collided());
}

#[test]
fn missile_collision_only_marks_it() {
    let mut m = Missile::new(at(3, 4), Vector2::new(0, UNIT));
    assert_eq!(m.get_speed(), Vector2::new(0, -1500));
    assert!(m.handle_collision(3, false, Vector2::zero()).is_none());
    assert!(m.get_collided());
    assert_eq!(m.get_position(), at(3, 4));
}

#[test]
fn missile_speed_follows_the_bearing() {
    let m = Missile::new(at(0, 0), Vector2::new(707, -707));
    assert_eq!(m.get_speed(), Vector2::new(1060, 1060));
    let off = Missile::new(at(0, 0), Vector2::new(-1, 0));
    assert_eq!(off.get_speed(), Vector2::new(-1, 0));
}

#[test]
fn missile_trajectory_after_many_moves() {
    let mut m = Missile::new(at(100, 100), Vector2::new(600, 800));
    let v = m.get_speed();
    for _ in 0..10 {
        m.update_position(screen());
    }
    assert_eq!(m.get_position(), Vector2::new(px(100) + 10 * v.x, px(100) + 10 * v.y));
    assert!(!m.is_off_screen(px(800), px(600)));
    assert!(m.is_off_screen(px(100), px(600)));
    assert!(!m.is_off_screen(px(100) + 10 * v.x, px(100) - 10 * v.y));
}

#[test]
fn craft_damage_by_level() {
    for (level, left) in [(1u8, 4), (2, 3), (3, 2), (4, 5), (0, 5)] {
        let mut v = Vaisseau::new(Some(at(0, 0)), Some(0), screen(), 0);
        assert!(v.handle_collision(level, true, Vector2::zero()).is_none());
        assert_eq!(v.get_shield(), left);
    }
    let mut v = Vaisseau::new(Some(at(0, 0)), Some(0), screen(), 0);
    v.dmg_shield(7);
    assert_eq!(v.get_shield(), -2);
    v.dmg_shield(i32::MAX);
    assert_eq!(v.get_shield(), i32::MIN);
}

#[test]
fn fire_waits_for_the_cooldown() {
    let mut v = Vaisseau::new(Some(at(10, 20)), Some(1000), screen(), 0);
    let up = Vector2::new(0, UNIT);
    assert!(v.fire_missile(1499, true, up).is_none());
    assert!(v.fire_missile(2000, false, up).is_none());
    let m = v.fire_missile(1500, true, up).expect("cooldown over");
    assert_eq!(m.get_position(), at(10, 20));
    assert_eq!(m.get_speed(), Vector2::new(0, -1500));
    assert!(v.fire_missile(1999, true, up).is_none());
    assert!(v.fire_missile(2000, true, up).is_some());
}

#[test]
fn craft_turns_and_thrusts() {
    let mut v = Vaisseau::new(Some(at(100, 100)), Some(0), screen(), 0);
    v.rotate(false, true);
    v.rotate(false, true);
    v.rotate(true, false);
    v.rotate(true, true);
    assert_eq!(v.get_rotation(), 1);

    let bearing = Vector2::new(0, UNIT);
    v.accelerate(true, false, bearing);
    assert_eq!(v.get_speed(), Vector2::new(0, -UNIT));
    v.accelerate(true, false, bearing);
    assert_eq!(v.get_speed(), Vector2::new(0, -UNIT));
    v.accelerate(false, false, bearing);
    assert_eq!(v.get_speed(), Vector2::new(0, -995));
    v.accelerate(false, true, bearing);
    assert_eq!(v.get_speed(), Vector2::new(0, 5));
    v.accelerate(false, false, bearing);
    assert_eq!(v.get_speed(), Vector2::zero());

    let mut w = Vaisseau::new(Some(at(100, 100)), Some(0), screen(), 0);
    w.accelerate(false, true, Vector2::new(800, 600));
    w.accelerate(false, true, Vector2::new(800, 600));
    assert_eq!(w.get_speed(), Vector2::new(800, 600));
}

#[test]
fn gravity_pulls_toward_the_asteroid() {
    let v = Vaisseau::new(Some(at(0, 0)), Some(0), screen(), 0);
    let far = Asteroid::new(3, Vector2::zero(), SIZES, Some(at(40, 0)), screen());
    assert_eq!(calculate_gravity(&v, &far, px(30), SIZES), Vector2::new(375, 0));
    let near = Asteroid::new(3, Vector2::zero(), SIZES, Some(at(0, -1)), screen());
    assert_eq!(calculate_gravity(&v, &near, px(30), SIZES), Vector2::new(0, -2000));
    let same = Asteroid::new(3, Vector2::zero(), SIZES, Some(at(0, 0)), screen());
    assert_eq!(calculate_gravity(&v, &same, px(30), SIZES), Vector2::zero());
    assert_eq!(asteroid_level(&same, SIZES), px(40));
}

#[test]
fn pull_replaces_the_craft_speed() {
    let mut v = Vaisseau::new(Some(at(100, 100)), Some(0), screen(), 0);
    v.set_speed(Vector2::new(300, 300));
    let mut asteroids = vec![Asteroid::new(3, Vector2::zero(), SIZES, Some(at(140, 100)), screen())];
    let hits = check_vaisseau_asteroids(&mut v, &mut asteroids, px(30), SIZES, px(30));
    assert_eq!(hits, 1);
    assert_eq!(v.get_speed(), Vector2::new(375, 0));
    assert_eq!(v.get_shield(), 2);

    let mut w = Vaisseau::new(Some(at(100, 100)), Some(0), screen(), 0);
    w.set_speed(Vector2::new(300, 300));
    let mut beyond = vec![Asteroid::new(3, Vector2::zero(), SIZES, Some(at(100, 165)), screen())];
    assert_eq!(check_vaisseau_asteroids(&mut w, &mut beyond, px(30), SIZES, px(20)), 1);
    assert_eq!(w.get_speed(), Vector2::new(300, 300));
    assert_eq!(w.get_shield(), 2);
}

#[test]
fn an_asteroid_strikes_once_per_tick() {
    let mut v = Vaisseau::new(Some(at(10, 10)), Some(0), screen(), 0);
    let mut asteroids = vec![
        Asteroid::new(3, Vector2::zero(), SIZES, Some(at(20, 10)), screen()),
        Asteroid::new(1, Vector2::zero(), SIZES, Some(at(10, 20)), screen()),
    ];
    assert_eq!(check_vaisseau_asteroids(&mut v, &mut asteroids, px(30), SIZES, px(30)), 2);
    assert_eq!(v.get_shield(), 1);
    assert_eq!(check_vaisseau_asteroids(&mut v, &mut asteroids, px(30), SIZES, px(30)), 0);
    assert_eq!(v.get_shield(), 1);
}

#[test]
fn first_asteroid_in_order_is_the_one_destroyed() {
    let mut asteroids = vec![
        Asteroid::new(1, Vector2::zero(), SIZES, Some(at(0, 0)), screen()),
        Asteroid::new(3, Vector2::zero(), SIZES, Some(at(5, 0)), screen()),
    ];
    let mut missiles = vec![Missile::new(at(3, 0), Vector2::new(0, UNIT))];
    let mut score = 0;
    let hits = check_missiles_asteroids(&mut missiles, &mut asteroids, px(7), SIZES, &mut score);
    assert_eq!(hits, 1);
    assert_eq!(score, 10);
    assert!(missiles.is_empty());
    assert_eq!(asteroids.len(), 1);
    assert_eq!(asteroids[0].get_level(), 3);
}

#[test]
fn fragments_join_the_end_and_misses_keep_flying() {
    let mut asteroids = vec![
        Asteroid::new(3, Vector2::new(0, px(2)), SIZES, Some(at(0, 0)), screen()),
        Asteroid::new(1, Vector2::zero(), SIZES, Some(at(500, 500)), screen()),
    ];
    let mut missiles = vec![
        Missile::new(at(300, 300), Vector2::new(0, UNIT)),
        Missile::new(at(10, 0), Vector2::new(UNIT, 0)),
    ];
    let mut score = 5;
    let hits = check_missiles_asteroids(&mut missiles, &mut asteroids, px(7), SIZES, &mut score);
    assert_eq!(hits, 1);
    assert_eq!(score, 35);
    assert_eq!(missiles.len(), 1);
    assert_eq!(missiles[0].get_position(), at(300, 300));
    assert_eq!(asteroids.len(), 3);
    assert_eq!(asteroids[0].get_level(), 1);
    assert_eq!(asteroids[1].get_level(), 2);
    assert_eq!(asteroids[2].get_level(), 2);
    assert_eq!(asteroids[1].get_speed(), Vector2::new(0, px(2)));
    assert_eq!(asteroids[2].get_speed(), Vector2::new(0, -px(2)));
}

#[test]
fn two_missiles_on_one_asteroid_remove_it_once() {
    let mut asteroids = vec![
        Asteroid::new(2, Vector2::zero(), SIZES, Some(at(0, 0)), screen()),
        Asteroid::new(1, Vector2::zero(), SIZES, Some(at(400, 400)), screen()),
    ];
    let mut missiles = vec![
        Missile::new(at(1, 0), Vector2::new(0, UNIT)),
        Missile::new(at(0, 1), Vector2::new(0, UNIT)),
    ];
    let mut score = 0;
    assert_eq!(check_missiles_asteroids(&mut missiles, &mut asteroids, px(7), SIZES, &mut score), 2);
    assert_eq!(score, 40);
    assert_eq!(asteroids.len(), 5);
    assert_eq!(asteroids[0].get_position(), at(400, 400));
}

#[test]
fn missiles_leave_with_the_screen() {
    let mut missiles = vec![
        Missile::new(at(400, 1), Vector2::new(0, UNIT)),
        Missile::new(at(400, 300), Vector2::new(0, UNIT)),
    ];
    update_missiles(&mut missiles, screen());
    assert_eq!(missiles.len(), 1);
    assert_eq!(missiles[0].get_position(), Vector2::new(px(400), px(300) - 1500));
}

#[test]
fn asteroids_all_drift() {
    let mut asteroids = vec![
        Asteroid::new(3, Vector2::new(px(1), 0), SIZES, Some(at(10, 10)), screen()),
        Asteroid::new(2, Vector2::new(0, -px(1)), SIZES, Some(at(20, 0)), screen()),
    ];
    update_asteroids(&mut asteroids, screen());
    assert_eq!(asteroids[0].get_position(), at(11, 10));
    assert_eq!(asteroids[1].get_position(), at(20, 599));
}

#[test]
fn new_asteroids_spawn_outside_the_screen() {
    let field = screen();
    let headings: Vec<Vector2> = (0..25).map(|i| Vector2::new(if i % 2 == 0 { UNIT } else { -UNIT }, 0)).collect();
    let mut asteroids = Vec::new();
    let mut v = Vaisseau::new(Some(at(1, 1)), Some(0), screen(), 0);
    let mut missiles = vec![Missile::new(at(1, 1), Vector2::new(0, UNIT))];
    let mut score = 42;
    reset_game(&mut asteroids, &mut v, &mut missiles, SIZES, 25, 5000, &mut score, None, 1234, field, &headings);
    assert_eq!(asteroids.len(), 25);
    assert!(missiles.is_empty());
    assert_eq!(score, 0);
    assert_eq!(v.get_position(), at(400, 300));
    assert_eq!(v.get_shield(), 5);
    assert!(v.fire_missile(1733, true, Vector2::new(0, UNIT)).is_none());
    assert!(v.fire_missile(1734, true, Vector2::new(0, UNIT)).is_some());
    let size = px(40);
    for a in &asteroids {
        let p = a.get_position();
        let on_border = (p.y == -size && 0 <= p.x && p.x < field.width)
            || (p.x == field.width + size && 0 <= p.y && p.y < field.height)
            || (p.y == field.height + size && 0 <= p.x && p.x < field.width)
            || (p.x == -size && 0 <= p.y && p.y < field.height);
        assert!(on_border, "{:?} is not on the border", p);
        let s = a.get_speed();
        assert_eq!(s.y, 0);
        assert!(-1400 <= s.x.abs() && s.x.abs() < 10_000, "speed {:?} out of range", s);
        assert_eq!(a.get_level(), 3);
    }
    let first = asteroids[0].get_position();
    assert!(asteroids.iter().any(|a| a.get_position() != first), "spawn points should vary");
}

#[test]
fn launch_speeds_lie_between_the_bounds() {
    let headings = vec![Vector2::new(UNIT, 0); 20];
    let mut asteroids = Vec::new();
    let mut v = Vaisseau::new(Some(at(1, 1)), Some(0), screen(), 0);
    let mut missiles = Vec::new();
    let mut score = 0;
    reset_game(&mut asteroids, &mut v, &mut missiles, SIZES, 20, 300, &mut score, Some(at(9, 9)), 0, screen(), &headings);
    for a in &asteroids {
        let s = a.get_speed();
        assert!(480 <= s.x && s.x < 600, "speed {} out of [480, 600)", s.x);
        assert_eq!(a.get_position(), at(9, 9));
    }
    assert!(asteroids.iter().any(|a| a.get_speed() != asteroids[0].get_speed()), "speeds should vary");
}

#[test]
fn scale_refuses_what_would_overflow() {
    let mut h = px(30);
    let mut r = px(7);
    let mut sizes = SIZES;
    let mut last = (1, 1);
    let mut g = px(30);
    let changed = update_scale(&mut h, &mut r, &mut sizes, &mut last, &mut g, (px(1_000_000), px(1_000_000)));
    assert!(!changed);
    assert_eq!((h, r, sizes, last, g), (px(30), px(7), SIZES, (1, 1), px(30)));
}

#[test]
fn round_ends_in_order() {
    assert_eq!(round_status(-1, 0), RoundOutcome::Defeat);
    assert_eq!(round_status(-1, 3), RoundOutcome::Defeat);
    assert_eq!(round_status(0, 0), RoundOutcome::Victory);
    assert_eq!(round_status(5, 2), RoundOutcome::Ongoing);
    assert_eq!(victory_score(60, -3, 2), 67);
}

#[test]
fn config_screen_sliders_and_buttons() {
    let field = screen();
    let mut c = ConfigScreen::new();
    assert_eq!(c.get_asteroid_count(), 10);
    assert_eq!(c.get_asteroid_speed(), 1000);
    assert!(c.get_end_message().is_none());

    let count = c.count_slider(field);
    assert_eq!((count.x, count.y, count.width), (px(250), px(240), px(300)));
    assert_eq!(count.value_x, px(250) + 9 * px(300) / 24);

    c.update(field, at(550, 245), true);
    assert_eq!(c.get_asteroid_count(), 25);
    c.update(field, at(250, 235), true);
    assert_eq!(c.get_asteroid_count(), 1);
    c.update(field, at(400, 240), false);
    assert_eq!(c.get_asteroid_count(), 1);
    c.update(field, at(400, 251), true);
    assert_eq!(c.get_asteroid_count(), 1);

    let speed = c.speed_slider(field);
    assert_eq!(speed.y, px(350));
    c.update(field, at(400, 350), true);
    assert_eq!(c.get_asteroid_speed(), 2650);
    c.update(field, at(550, 350), true);
    assert_eq!(c.get_asteroid_speed(), 5000);
    c.update(field, at(250, 350), true);
    assert_eq!(c.get_asteroid_speed(), 300);

    assert_eq!(c.start_button(field), at(300, 360));
    assert_eq!(c.exit_button(field), at(300, 420));
    assert!(c.is_start_pressed(field, at(301, 361), true));
    assert!(!c.is_start_pressed(field, at(301, 361), false));
    assert!(!c.is_start_pressed(field, at(300, 361), true));
    assert!(c.is_exit_pressed(field, at(400, 440), true));
    assert!(!c.is_exit_pressed(field, at(400, 400), true));

    c.set_end_message("Victoire ! Score : 60");
    assert_eq!(c.get_end_message().map(|m| m.as_str()), Some("Victoire ! Score : 60"));
}
