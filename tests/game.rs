use asteroids::asteroid::Asteroid;
use asteroids::collision::{check_missiles_asteroids, check_vaisseau_asteroids};
use asteroids::geometry::{Field, Vector2, UNIT};
use asteroids::missile::Missile;
use asteroids::round::{reset_game, update_scale};
use asteroids::stellar_object::StellarObject;
use asteroids::vaisseau::Vaisseau;

fn px(v: i64) -> i64 {
    v * UNIT
}

fn at(x: i64, y: i64) -> Vector2 {
    Vector2::new(px(x), px(y))
}

fn screen() -> Field {
    Field::from_screen(px(800), px(600))
}

fn bearing_of(angle: f32) -> Vector2 {
    Vector2::new(
        (angle.sin() * UNIT as f32).round() as i64,
        (angle.cos() * UNIT as f32).round() as i64,
    )
}

#[test]
fn test_vaisseau_asteroids_multiple_levels() {
    let level_size = (px(40), px(20), px(10));

    let scenarios = vec![
        (vec![at(10, 10), at(70, 100), at(500, 250)], 4),
        (vec![at(40, 200), at(10, 10), at(60, 60)], 3),
        (vec![at(100, 50), at(30, 120), at(10, 10)], 2),
    ];
    for (iteration, (positions, expected_shield)) in scenarios.into_iter().enumerate() {
        let mut vaisseau = Vaisseau::new(Some(at(10, 10)), Some(0), screen(), 0);
        let initiale_speed = vaisseau.get_speed();
        let asteroid1 = Asteroid::new(1, Vector2::zero(), level_size, Some(positions[0]), screen());
        let asteroid2 = Asteroid::new(2, Vector2::zero(), level_size, Some(positions[1]), screen());
        let asteroid3 = Asteroid::new(3, Vector2::zero(), level_size, Some(positions[2]), screen());

        let mut asteroids = vec![asteroid1, asteroid2, asteroid3];

        check_vaisseau_asteroids(&mut vaisseau, &mut asteroids, px(30), level_size, px(30));
        let check_indices = match iteration {
            0 => (1, 2),
            1 => (0, 2),
            2 => (0, 1),
            _ => unreachable!(),
        };
        assert!(vaisseau.get_shield() == expected_shield, "shield should be {}", expected_shield);
        assert!(!asteroids[check_indices.0].get_collided(), "asteroid {} must not collide", check_indices.0);
        assert!(!asteroids[check_indices.1].get_collided(), "asteroid {} must not collide", check_indices.1);
        assert!(asteroids[iteration].get_collided(), "asteroid {} must collide", iteration);
        assert!(vaisseau.get_speed() == initiale_speed, "the pull from the craft's own position is nil");
    }
}

#[test]
fn test_collision_missile_asteroid() {
    let level_size = (px(40), px(20), px(10));

    let asteroid = Asteroid::new(3, Vector2::zero(), level_size, Some(at(0, 0)), screen());

    let rayon_missile = px(7);

    let mut score = 0;

    let mut asteroids = vec![asteroid];

    let mut missiles = Vec::new();
    for i in 0..3 {
        let position = at(i * 100, i * 100);
        missiles.push(Missile::new(position, bearing_of(0.)));
    }

    for i in 0..3 {
        check_missiles_asteroids(&mut missiles, &mut asteroids, rayon_missile, level_size, &mut score);
        if let Some(last_asteroid) = asteroids.last_mut() {
            let k = i + 1;
            last_asteroid.set_position(at(k * 100, k * 100));
        }
    }
    for (i, ast) in asteroids.iter_mut().enumerate() {
        assert!(ast.get_level() == (2 - i as u8), "the level of asteroid {} is wrong", i)
    }
    assert!(missiles.is_empty(), "no missile should be left");
    assert!(score == 60, "the score should be 60 (level 3: 30 + level 2: 20 + level 1: 10)")
}

#[test]
fn test_reset_game() {
    let position = Some(Vector2::zero());
    let mut vaisseau = Vaisseau::new(Some(Vector2::zero()), Some(0), screen(), 0);
    let mut liste_asteroid =
        vec![Asteroid::new(3, Vector2::zero(), (px(40), px(20), px(10)), position, screen())];
    let mut missiles = Vec::new();
    let mut score = 100;
    let headings = vec![bearing_of(0.5); 5];

    reset_game(
        &mut liste_asteroid,
        &mut vaisseau,
        &mut missiles,
        (px(40), px(20), px(10)),
        5,
        1000,
        &mut score,
        position,
        0,
        screen(),
        &headings,
    );

    assert!(score == 0, "the score starts at 0");
    assert!(vaisseau.get_position() == Vector2::zero(), "the craft starts at the fixed position");
    assert!(liste_asteroid.len() == 5, "there must be 5 asteroids");
    assert!(missiles.len() == 0, "there must be no missile");
    for asteroid in &liste_asteroid {
        assert_eq!(asteroid.get_level(), 3);
        assert_eq!(asteroid.get_position(), Vector2::zero());
        assert!(!asteroid.get_collided());
    }
}

#[test]
fn test_missile_trajectory() {
    let vaisseau_initial_position = at(100, 100);
    let vaisseau_rotation = 135.0;

    let mut missile = Missile::new(vaisseau_initial_position, bearing_of(vaisseau_rotation));

    let missile_velocity = missile.get_speed();
    let expected_position_after_1s = Vector2::new(
        vaisseau_initial_position.x + missile_velocity.x,
        vaisseau_initial_position.y + missile_velocity.y,
    );

    let screen_width = px(101);
    let screen_height = px(102);
    let field = Field::from_screen(screen_width, screen_height);

    missile.update_position(field);

    assert!(missile.get_position() == expected_position_after_1s, "off course after one move");
    assert!(!missile.is_off_screen(screen_width, screen_height), "off screen after one move");

    let expected_position_after_2s = Vector2::new(
        expected_position_after_1s.x + missile_velocity.x,
        expected_position_after_1s.y + missile_velocity.y,
    );
    missile.update_position(field);

    assert!(missile.get_position() == expected_position_after_2s, "off course after two moves");
    assert!(missile.is_off_screen(screen_width, screen_height), "should be off screen by now");
}

#[test]
fn test_scale() {
    let mut hauteur_vaisseau = px(30);
    let mut rayon_missile = px(7);
    let mut level_size = (px(40), px(20), px(10));
    let mut gravite_dist = px(30);
    let mut last_screen_size = (px(400), px(300));

    let scaled = |v: i64| -> i64 {
        let num = px(500) as i128 * px(300) as i128 + px(400) as i128 * px(400) as i128;
        let den = 2 * px(400) as i128 * px(300) as i128;
        (v as i128 * num / den) as i64
    };

    let changed = update_scale(
        &mut hauteur_vaisseau,
        &mut rayon_missile,
        &mut level_size,
        &mut last_screen_size,
        &mut gravite_dist,
        (px(500), px(400)),
    );

    assert!(changed);
    assert_eq!(hauteur_vaisseau, scaled(px(30)));
    assert_eq!(rayon_missile, scaled(px(7)));
    assert_eq!(level_size.0, scaled(px(40)));
    assert_eq!(level_size.1, scaled(px(20)));
    assert_eq!(level_size.2, scaled(px(10)));
    assert_eq!(gravite_dist, scaled(px(30)));
    assert_eq!(last_screen_size, (px(500), px(400)));
    assert_eq!(hauteur_vaisseau, 38_750);
    assert_eq!(rayon_missile, 9_041);
}
