use crate::asteroid::{on_spawn_border, size_of_level, sizes_ok, Asteroid, LevelSizes};
use crate::collision::{all_missiles_valid, all_valid};
use crate::geometry::{div_trunc, mul_div, Field, Vector2, MAX_EXTENT, UNIT};
use crate::missile::Missile;
use crate::random::random_in;
use crate::stellar_object::StellarObject;
use crate::vaisseau::{Vaisseau, SHIELD_START};
use vstd::prelude::*;

verus! {

/// Least speed factor of a round, in thousandths (0.3).
pub const MIN_SPEED_FACTOR: i64 = 300;

/// Greatest speed factor of a round, in thousandths (5.0).
pub const MAX_SPEED_FACTOR: i64 = 5000;

/// Lower bound of the launch speed of asteroids, in sub-units per tick:
/// `0.2 + (1 - f) * 0.4` pixels for a speed factor `f`. It falls as `f` grows.
pub open spec fn min_launch_speed(factor: int) -> int {
    600 - (2 * factor) / 5
}

/// Upper bound (excluded) of the launch speed of asteroids: `2 f` pixels per tick.
pub open spec fn max_launch_speed(factor: int) -> int {
    2 * factor
}

/// The speed of an asteroid launched along `heading`, the `(cos, sin)` of
/// its angle in sub-units, at `magnitude` sub-units per tick.
pub open spec fn launch_speed(heading: Vector2, magnitude: int) -> Vector2 {
    Vector2 {
        x: div_trunc(heading.x * magnitude, UNIT as int) as i64,
        y: div_trunc(heading.y * magnitude, UNIT as int) as i64,
    }
}

/// One asteroid of a new round: large, unhit, launched along `heading` at a
/// speed between the bounds of `factor`, and placed at `spawn` or, without
/// it, just outside the screen.
pub open spec fn launched(
    a: Asteroid,
    heading: Vector2,
    factor: int,
    level_size: LevelSizes,
    spawn: Option<Vector2>,
    field: Field,
) -> bool {
    &&& a.wf()
    &&& a.level_spec() == 3
    &&& !a.collided_spec()
    &&& exists|m: int|
        min_launch_speed(factor) <= m < max_launch_speed(factor) && a.speed_spec() == #[trigger] launch_speed(
            heading,
            m,
        )
    &&& match spawn {
        Some(p) => a.position_spec() == p,
        None => on_spawn_border(a.position_spec(), size_of_level(3, level_size), field),
    }
}

/// Starts a new round: no missile, a score of zero, a new craft, and
/// `number_asteroid` large asteroids, the `i`-th launched along `headings[i]`.
/// With `fixed_spawn`, the craft and every asteroid start there and the craft
/// may fire at once; without it, the craft starts at the centre of the screen
/// with its last shot at `now`, and the asteroids just outside the screen.
pub fn reset_game(
    liste_asteroid: &mut Vec<Asteroid>,
    vaisseau: &mut Vaisseau,
    missiles: &mut Vec<Missile>,
    level_size: LevelSizes,
    number_asteroid: usize,
    asteroid_speed: i64,
    score: &mut i32,
    fixed_spawn: Option<Vector2>,
    now: i64,
    field: Field,
    headings: &Vec<Vector2>,
)
    requires
        sizes_ok(level_size),
        field.wf(),
        MIN_SPEED_FACTOR <= asteroid_speed <= MAX_SPEED_FACTOR,
        headings@.len() == number_asteroid,
        forall|i: int| 0 <= i < headings@.len() ==> #[trigger] headings@[i].is_bearing(),
        fixed_spawn matches Some(p) ==> p.in_play(),
        now >= 0,
    ensures
        *final(score) == 0,
        final(missiles)@.len() == 0,
        final(liste_asteroid)@.len() == number_asteroid,
        forall|i: int|
            0 <= i < number_asteroid ==> launched(
                #[trigger] final(liste_asteroid)@[i],
                headings@[i],
                asteroid_speed as int,
                level_size,
                fixed_spawn,
                field,
            ),
        all_valid(final(liste_asteroid)@),
        all_missiles_valid(final(missiles)@),
        final(vaisseau).wf(),
        final(vaisseau).speed_spec() == Vector2::zero_spec(),
        final(vaisseau).rotation_spec() == 0,
        final(vaisseau).shield_spec() == SHIELD_START,
        match fixed_spawn {
            Some(p) => final(vaisseau).position_spec() == p && final(vaisseau).last_shot_spec() == 0,
            None => final(vaisseau).position_spec().x == field.width / 2
                && final(vaisseau).position_spec().y == field.height / 2
                && final(vaisseau).last_shot_spec() == now,
        },
{
    liste_asteroid.clear();
    let last_shot = match fixed_spawn {
        Some(_) => Some(0),
        None => None,
    };
    *vaisseau = Vaisseau::new(fixed_spawn, last_shot, field, now);
    missiles.clear();
    *score = 0;

    let min_speed = 600 - (2 * asteroid_speed) / 5;
    let max_speed = 2 * asteroid_speed;
    for i in 0..number_asteroid
        invariant
            sizes_ok(level_size),
            field.wf(),
            MIN_SPEED_FACTOR <= asteroid_speed <= MAX_SPEED_FACTOR,
            min_speed == min_launch_speed(asteroid_speed as int),
            max_speed == max_launch_speed(asteroid_speed as int),
            headings@.len() == number_asteroid,
            forall|j: int| 0 <= j < headings@.len() ==> #[trigger] headings@[j].is_bearing(),
            fixed_spawn matches Some(p) ==> p.in_play(),
            liste_asteroid@.len() == i,
            forall|j: int|
                0 <= j < i ==> launched(
                    #[trigger] liste_asteroid@[j],
                    headings@[j],
                    asteroid_speed as int,
                    level_size,
                    fixed_spawn,
                    field,
                ),
            all_valid(liste_asteroid@),
    {
        let heading = headings[i];
        let magnitude = random_in(min_speed, max_speed);
        assert(heading.is_bearing());
        assert(-10_000_000 <= heading.x * magnitude <= 10_000_000 && -10_000_000 <= heading.y
            * magnitude <= 10_000_000) by (nonlinear_arith)
            requires
                -UNIT <= heading.x <= UNIT,
                -UNIT <= heading.y <= UNIT,
                -10_000 <= magnitude <= 10_000,
        ;
        let speed = Vector2 {
            x: mul_div(heading.x, magnitude, UNIT),
            y: mul_div(heading.y, magnitude, UNIT),
        };
        assert(-10_000 <= speed.x <= 10_000 && -10_000 <= speed.y <= 10_000) by (nonlinear_arith)
            requires
                -UNIT <= heading.x <= UNIT,
                -UNIT <= heading.y <= UNIT,
                -10_000 <= magnitude <= 10_000,
                speed.x == div_trunc(heading.x * magnitude, UNIT as int),
                speed.y == div_trunc(heading.y * magnitude, UNIT as int),
        ;
        assert(speed.is_speed()) by (nonlinear_arith)
            requires
                -10_000 <= speed.x <= 10_000,
                -10_000 <= speed.y <= 10_000,
        ;
        let asteroid = Asteroid::new(3, speed, level_size, fixed_spawn, field);
        assert(asteroid.speed_spec() == launch_speed(heading, magnitude as int));
        liste_asteroid.push(asteroid);
    }
}

/// `x` scaled by the mean of the width and height ratios of the new screen
/// `now` to the old one `before`, rounded down.
pub open spec fn rescaled(x: int, before: (i64, i64), now: (i64, i64)) -> int {
    x * (now.0 * before.1 + now.1 * before.0) / (2 * before.0 * before.1)
}

pub open spec fn screen_ok(size: (i64, i64)) -> bool {
    0 < size.0 <= MAX_EXTENT && 0 < size.1 <= MAX_EXTENT
}

/// Scales one length; `None` where the result would exceed `MAX_EXTENT`.
fn rescale(x: i64, before: (i64, i64), now: (i64, i64)) -> (r: Option<i64>)
    requires
        0 <= x <= MAX_EXTENT,
        screen_ok(before),
        screen_ok(now),
    ensures
        match r {
            Some(v) => v == rescaled(x as int, before, now) && 0 <= v <= MAX_EXTENT,
            None => rescaled(x as int, before, now) > MAX_EXTENT,
        },
{
    assert(0 <= now.0 * before.1 + now.1 * before.0 <= 2 * MAX_EXTENT * MAX_EXTENT) by (nonlinear_arith)
        requires
            screen_ok(before),
            screen_ok(now),
    ;
    assert(0 < 2 * before.0 * before.1 <= 2 * MAX_EXTENT * MAX_EXTENT) by (nonlinear_arith)
        requires
            screen_ok(before),
    ;
    let num = now.0 as i128 * before.1 as i128 + now.1 as i128 * before.0 as i128;
    let den = 2 * before.0 as i128 * before.1 as i128;
    assert(0 <= x * num <= MAX_EXTENT * (2 * MAX_EXTENT * MAX_EXTENT)) by (nonlinear_arith)
        requires
            0 <= x <= MAX_EXTENT,
            0 <= num <= 2 * MAX_EXTENT * MAX_EXTENT,
    ;
    let v = x as i128 * num / den;
    proof {
        vstd::arithmetic::div_mod::lemma_div_pos_is_pos(x * num, den as int);
    }
    if v > MAX_EXTENT as i128 {
        None
    } else {
        Some(v as i64)
    }
}

/// Follows a change of screen size: every size and distance of the game is
/// scaled by the mean of the width and height ratios, and the new size is
/// remembered. Where a scaled value would exceed `MAX_EXTENT`, nothing
/// changes and the result is `false`.
pub fn update_scale(
    hauteur_vaisseau: &mut i64,
    rayon_missile: &mut i64,
    level_size: &mut LevelSizes,
    last_screen_size: &mut (i64, i64),
    gravite_dist: &mut i64,
    current_size: (i64, i64),
) -> (r: bool)
    requires
        0 <= *old(hauteur_vaisseau) <= MAX_EXTENT,
        0 <= *old(rayon_missile) <= MAX_EXTENT,
        0 <= *old(gravite_dist) <= MAX_EXTENT,
        sizes_ok(*old(level_size)),
        screen_ok(*old(last_screen_size)),
        screen_ok(current_size),
    ensures
        ({
            let b = *old(last_screen_size);
            let fits = rescaled(*old(hauteur_vaisseau) as int, b, current_size) <= MAX_EXTENT
                && rescaled(*old(rayon_missile) as int, b, current_size) <= MAX_EXTENT
                && rescaled(old(level_size).0 as int, b, current_size) <= MAX_EXTENT
                && rescaled(old(level_size).1 as int, b, current_size) <= MAX_EXTENT
                && rescaled(old(level_size).2 as int, b, current_size) <= MAX_EXTENT
                && rescaled(*old(gravite_dist) as int, b, current_size) <= MAX_EXTENT;
            &&& r == fits
            &&& fits ==> {
                &&& *final(hauteur_vaisseau) == rescaled(*old(hauteur_vaisseau) as int, b, current_size)
                &&& *final(rayon_missile) == rescaled(*old(rayon_missile) as int, b, current_size)
                &&& final(level_size).0 == rescaled(old(level_size).0 as int, b, current_size)
                &&& final(level_size).1 == rescaled(old(level_size).1 as int, b, current_size)
                &&& final(level_size).2 == rescaled(old(level_size).2 as int, b, current_size)
                &&& *final(gravite_dist) == rescaled(*old(gravite_dist) as int, b, current_size)
                &&& *final(last_screen_size) == current_size
            }
            &&& !fits ==> {
                &&& *final(hauteur_vaisseau) == *old(hauteur_vaisseau)
                &&& *final(rayon_missile) == *old(rayon_missile)
                &&& *final(level_size) == *old(level_size)
                &&& *final(gravite_dist) == *old(gravite_dist)
                &&& *final(last_screen_size) == *old(last_screen_size)
            }
        }),
{
    let before = *last_screen_size;
    let craft = rescale(*hauteur_vaisseau, before, current_size);
    let missile = rescale(*rayon_missile, before, current_size);
    let large = rescale(level_size.0, before, current_size);
    let medium = rescale(level_size.1, before, current_size);
    let small = rescale(level_size.2, before, current_size);
    let gravity = rescale(*gravite_dist, before, current_size);
    match (craft, missile, large, medium, small, gravity) {
        (Some(c), Some(m), Some(l), Some(md), Some(s), Some(g)) => {
            *hauteur_vaisseau = c;
            *rayon_missile = m;
            *level_size = (l, md, s);
            *gravite_dist = g;
            *last_screen_size = current_size;
            true
        },
        _ => false,
    }
}

/// Where a round stands at the start of a tick.
#[derive(Clone, Copy, Debug, PartialEq, Eq, Structural)]
pub enum RoundOutcome {
    /// The shield dropped below zero.
    Defeat,
    /// No asteroid is left.
    Victory,
    /// The round goes on.
    Ongoing,
}

/// Defeat first, when the shield is below zero; else victory when no asteroid
/// is left; else the round goes on.
pub fn round_status(shield: i32, asteroids_left: usize) -> (r: RoundOutcome)
    ensures
        r == (if shield < 0 {
            RoundOutcome::Defeat
        } else if asteroids_left == 0 {
            RoundOutcome::Victory
        } else {
            RoundOutcome::Ongoing
        }),
{
    if shield < 0 {
        RoundOutcome::Defeat
    } else if asteroids_left == 0 {
        RoundOutcome::Victory
    } else {
        RoundOutcome::Ongoing
    }
}

/// The final score of a won round: the time bonus and five points per shield
/// point are added.
pub fn victory_score(score: i32, time_bonus: i32, shield: i32) -> (r: i32)
    requires
        i32::MIN <= score + time_bonus + 5 * shield <= i32::MAX,
    ensures
        r == score + time_bonus + 5 * shield,
{
    (score as i64 + time_bonus as i64 + 5 * shield as i64) as i32
}

} // verus!
