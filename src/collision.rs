use crate::asteroid::{size_of_level, sizes_ok, Asteroid, LevelSizes};
use crate::geometry::{
    wrap_spec, dist_sq, distance_squared, lemma_speed_components, sq, with_length, with_length_spec, Field,
    Vector2, MAX_EXTENT, UNIT,
};
use crate::missile::{off_screen, Missile};
use crate::stellar_object::StellarObject;
use crate::vaisseau::{clamp_i32, damage_of, Vaisseau};
use vstd::prelude::*;

verus! {

broadcast use {crate::asteroid::drifted_fields, crate::asteroid::split_fields};

/// Largest pull of one asteroid on the craft, in sub-units per tick (two pixels).
pub const MAX_PULL: i128 = 2000;

/// The size of an asteroid, by its level.
pub fn asteroid_level(asteroid: &Asteroid, level_size: LevelSizes) -> (r: i64)
    ensures
        r == size_of_level(asteroid.level_spec(), level_size),
{
    match asteroid.get_level() {
        1 => level_size.2,
        2 => level_size.1,
        3 => level_size.0,
        _ => 0,
    }
}

/// The pull of an asteroid of size `size` at `asteroid` on a craft of radius
/// `radius` at `craft`: toward the asteroid, of strength `radius * size / (2 d^2)`
/// pixels per tick at distance `d`, at most two pixels per tick. Nothing
/// pulls from the craft's own position.
pub open spec fn gravity_spec(craft: Vector2, asteroid: Vector2, radius: int, size: int) -> Vector2 {
    let d = Vector2 { x: (asteroid.x - craft.x) as i64, y: (asteroid.y - craft.y) as i64 };
    let n = d.norm_sq();
    if n == 0 {
        Vector2 { x: 0, y: 0 }
    } else {
        let force = UNIT * radius * size / (2 * n);
        with_length_spec(d, if force > MAX_PULL { MAX_PULL as int } else { force })
    }
}

/// The asteroid is within collision distance of a craft of radius `radius` at `craft`.
pub open spec fn touches(craft: Vector2, a: Asteroid, radius: int, sizes: LevelSizes) -> bool {
    dist_sq(a.position_spec(), craft) <= sq(size_of_level(a.level_spec(), sizes) + radius)
}

/// The asteroid touches the craft and lies within gravity range of it.
pub open spec fn pulls(craft: Vector2, a: Asteroid, radius: int, sizes: LevelSizes, range: int) -> bool {
    touches(craft, a, radius, sizes) && dist_sq(a.position_spec(), craft) <= sq(
        size_of_level(a.level_spec(), sizes) + range,
    )
}

/// The asteroid touches the craft and has not hit anything yet in this tick.
pub open spec fn strikes(craft: Vector2, a: Asteroid, radius: int, sizes: LevelSizes) -> bool {
    touches(craft, a, radius, sizes) && !a.collided_spec()
}

/// The shield after the asteroids of `s` strike, in order.
pub open spec fn shield_after(shield: int, craft: Vector2, s: Seq<Asteroid>, radius: int, sizes: LevelSizes) -> int
    decreases s.len(),
{
    if s.len() == 0 {
        shield
    } else {
        let prev = shield_after(shield, craft, s.drop_last(), radius, sizes);
        if strikes(craft, s.last(), radius, sizes) {
            clamp_i32(prev - damage_of(s.last().level_spec()))
        } else {
            prev
        }
    }
}

/// The craft's speed after the pulls of `s`: each pulling asteroid replaces
/// it, so the last one in order wins.
pub open spec fn speed_after(
    speed: Vector2,
    craft: Vector2,
    s: Seq<Asteroid>,
    radius: int,
    sizes: LevelSizes,
    range: int,
) -> Vector2
    decreases s.len(),
{
    if s.len() == 0 {
        speed
    } else {
        let prev = speed_after(speed, craft, s.drop_last(), radius, sizes, range);
        if pulls(craft, s.last(), radius, sizes, range) {
            gravity_spec(craft, s.last().position_spec(), radius, size_of_level(s.last().level_spec(), sizes))
        } else {
            prev
        }
    }
}

/// How many asteroids of `s` strike the craft.
pub open spec fn strike_count(craft: Vector2, s: Seq<Asteroid>, radius: int, sizes: LevelSizes) -> nat
    decreases s.len(),
{
    if s.len() == 0 {
        0
    } else {
        strike_count(craft, s.drop_last(), radius, sizes) + if strikes(craft, s.last(), radius, sizes) {
            1nat
        } else {
            0nat
        }
    }
}

pub open spec fn all_valid(s: Seq<Asteroid>) -> bool {
    forall|i: int| 0 <= i < s.len() ==> #[trigger] s[i].wf()
}

pub open spec fn all_missiles_valid(s: Seq<Missile>) -> bool {
    forall|i: int| 0 <= i < s.len() ==> #[trigger] s[i].wf()
}

/// The pull of `asteroid` on the craft for one tick.
pub fn calculate_gravity(
    vaisseau: &Vaisseau,
    asteroid: &Asteroid,
    hauteur_vaisseau: i64,
    level_size: LevelSizes,
) -> (r: Vector2)
    requires
        vaisseau.wf(),
        asteroid.wf(),
        0 <= hauteur_vaisseau <= MAX_EXTENT,
        sizes_ok(level_size),
    ensures
        r == gravity_spec(
            vaisseau.position_spec(),
            asteroid.position_spec(),
            hauteur_vaisseau as int,
            size_of_level(asteroid.level_spec(), level_size),
        ),
        r.is_speed(),
{
    let craft = vaisseau.get_position();
    let target = asteroid.get_position();
    assert(craft.in_play() && target.in_play());
    let direction = Vector2 { x: target.x - craft.x, y: target.y - craft.y };
    let n = direction.length_squared();
    if n == 0 {
        return Vector2 { x: 0, y: 0 };
    }
    let size = asteroid_level(asteroid, level_size);
    assert(0 <= UNIT * hauteur_vaisseau * size <= UNIT * MAX_EXTENT * MAX_EXTENT) by (nonlinear_arith)
        requires
            0 <= hauteur_vaisseau <= MAX_EXTENT,
            0 <= size <= MAX_EXTENT,
    ;
    let mut force = UNIT as i128 * hauteur_vaisseau as i128 * size as i128 / (2 * n);
    if force > MAX_PULL {
        force = MAX_PULL;
    }
    assert(force >= 0) by {
        vstd::arithmetic::div_mod::lemma_div_pos_is_pos(
            UNIT * hauteur_vaisseau * size,
            2 * n as int,
        );
    }
    let r = with_length(direction, force as i64);
    assert(sq(force as int) <= sq(2000)) by (nonlinear_arith)
        requires
            0 <= force <= 2000,
    ;
    r
}

/// The craft against every asteroid, once per tick. An asteroid within
/// collision distance and within gravity range sets the craft's speed to its
/// pull; one within collision distance that has not hit anything yet this tick
/// damages the shield and is marked as collided. Returns the number of hits.
pub fn check_vaisseau_asteroids(
    vaisseau: &mut Vaisseau,
    asteroids: &mut Vec<Asteroid>,
    hauteur_vaisseau: i64,
    level_size: LevelSizes,
    gravite_dist: i64,
) -> (hits: usize)
    requires
        old(vaisseau).wf(),
        all_valid(old(asteroids)@),
        0 <= hauteur_vaisseau <= MAX_EXTENT,
        0 <= gravite_dist <= MAX_EXTENT,
        sizes_ok(level_size),
    ensures
        final(vaisseau).wf(),
        all_valid(final(asteroids)@),
        final(asteroids)@.len() == old(asteroids)@.len(),
        forall|i: int|
            0 <= i < old(asteroids)@.len() ==> {
                let (a, b) = (#[trigger] final(asteroids)@[i], old(asteroids)@[i]);
                &&& a.position_spec() == b.position_spec()
                &&& a.speed_spec() == b.speed_spec()
                &&& a.level_spec() == b.level_spec()
                &&& a.collided_spec() == (b.collided_spec() || touches(
                    old(vaisseau).position_spec(),
                    b,
                    hauteur_vaisseau as int,
                    level_size,
                ))
            },
        final(vaisseau).position_spec() == old(vaisseau).position_spec(),
        final(vaisseau).rotation_spec() == old(vaisseau).rotation_spec(),
        final(vaisseau).last_shot_spec() == old(vaisseau).last_shot_spec(),
        final(vaisseau).shield_spec() == shield_after(
            old(vaisseau).shield_spec() as int,
            old(vaisseau).position_spec(),
            old(asteroids)@,
            hauteur_vaisseau as int,
            level_size,
        ),
        final(vaisseau).speed_spec() == speed_after(
            old(vaisseau).speed_spec(),
            old(vaisseau).position_spec(),
            old(asteroids)@,
            hauteur_vaisseau as int,
            level_size,
            gravite_dist as int,
        ),
        hits == strike_count(
            old(vaisseau).position_spec(),
            old(asteroids)@,
            hauteur_vaisseau as int,
            level_size,
        ),
{
    let ghost s = asteroids@;
    let ghost v0 = *vaisseau;
    let craft = vaisseau.get_position();
    let radius = hauteur_vaisseau;
    let mut hits: usize = 0;
    let n = asteroids.len();
    for i in 0..n
        invariant
            n == s.len(),
            asteroids@.len() == n,
            craft == v0.position_spec(),
            vaisseau.wf(),
            v0.wf(),
            all_valid(s),
            all_valid(asteroids@),
            0 <= radius <= MAX_EXTENT,
            0 <= gravite_dist <= MAX_EXTENT,
            sizes_ok(level_size),
            hits <= i,
            forall|j: int| i <= j < n ==> #[trigger] asteroids@[j] == s[j],
            forall|j: int|
                0 <= j < i ==> {
                    let (a, b) = (#[trigger] asteroids@[j], s[j]);
                    &&& a.position_spec() == b.position_spec()
                    &&& a.speed_spec() == b.speed_spec()
                    &&& a.level_spec() == b.level_spec()
                    &&& a.collided_spec() == (b.collided_spec() || touches(
                        craft,
                        b,
                        radius as int,
                        level_size,
                    ))
                },
            vaisseau.position_spec() == craft,
            vaisseau.rotation_spec() == v0.rotation_spec(),
            vaisseau.last_shot_spec() == v0.last_shot_spec(),
            vaisseau.shield_spec() == shield_after(
                v0.shield_spec() as int,
                craft,
                s.take(i as int),
                radius as int,
                level_size,
            ),
            vaisseau.speed_spec() == speed_after(
                v0.speed_spec(),
                craft,
                s.take(i as int),
                radius as int,
                level_size,
                gravite_dist as int,
            ),
            hits == strike_count(craft, s.take(i as int), radius as int, level_size),
    {
        let ghost before = *vaisseau;
        proof {
            assert(s.take(i + 1).drop_last() =~= s.take(i as int));
            assert(s.take(i + 1).last() == s[i as int]);
        }
        let mut asteroid = asteroids[i];
        assert(asteroid.wf());
        let size = asteroid_level(&asteroid, level_size);
        let distance = distance_squared(asteroid.get_position(), craft);
        let reach = size as i128 + radius as i128;
        assert(reach * reach <= 4 * MAX_EXTENT * MAX_EXTENT) by (nonlinear_arith)
            requires
                0 <= reach <= 2 * MAX_EXTENT,
        ;
        let collision = reach * reach;
        if distance <= collision {
            let range = size as i128 + gravite_dist as i128;
            assert(range * range <= 4 * MAX_EXTENT * MAX_EXTENT) by (nonlinear_arith)
                requires
                    0 <= range <= 2 * MAX_EXTENT,
            ;
            if distance <= range * range {
                let pull = calculate_gravity(vaisseau, &asteroid, radius, level_size);
                vaisseau.set_speed(pull);
            }
            if !asteroid.get_collided() {
                vaisseau.handle_collision(asteroid.get_level(), true, Vector2 { x: 0, y: 0 });
                asteroid.handle_collision(0, true, Vector2 { x: 0, y: 0 });
                asteroids.set(i, asteroid);
                hits = hits + 1;
            }
        }
    }
    proof {
        assert(s.take(n as int) =~= s);
    }
    hits
}

/// The missile lies within collision distance of the asteroid.
pub open spec fn missile_hits(m: Missile, a: Asteroid, radius: int, sizes: LevelSizes) -> bool {
    dist_sq(m.position_spec(), a.position_spec()) < sq(size_of_level(a.level_spec(), sizes) + radius)
}

/// Index of the first asteroid of `s` that the missile hits; `s.len()` if none.
pub open spec fn first_target(m: Missile, s: Seq<Asteroid>, radius: int, sizes: LevelSizes) -> int
    decreases s.len(),
{
    if s.len() == 0 {
        0
    } else if missile_hits(m, s[0], radius, sizes) {
        0
    } else {
        1 + first_target(m, s.drop_first(), radius, sizes)
    }
}

/// The asteroid of `s` that the missile destroys: the first one in order
/// within reach.
pub open spec fn target(m: Missile, s: Seq<Asteroid>, radius: int, sizes: LevelSizes) -> Option<int> {
    let t = first_target(m, s, radius, sizes);
    if t < s.len() {
        Some(t)
    } else {
        None
    }
}

/// Points won by the missiles of `ms` against the asteroids of `s`: ten per
/// level of each asteroid hit.
pub open spec fn score_gain(ms: Seq<Missile>, s: Seq<Asteroid>, radius: int, sizes: LevelSizes) -> int
    decreases ms.len(),
{
    if ms.len() == 0 {
        0
    } else {
        score_gain(ms.drop_last(), s, radius, sizes) + match target(ms.last(), s, radius, sizes) {
            Some(t) => 10 * s[t].level_spec(),
            None => 0,
        }
    }
}

/// How many missiles of `ms` hit an asteroid of `s`.
pub open spec fn hit_count(ms: Seq<Missile>, s: Seq<Asteroid>, radius: int, sizes: LevelSizes) -> nat
    decreases ms.len(),
{
    if ms.len() == 0 {
        0
    } else {
        hit_count(ms.drop_last(), s, radius, sizes) + if target(ms.last(), s, radius, sizes) is Some {
            1nat
        } else {
            0nat
        }
    }
}

/// The fragments of the asteroids that the missiles of `ms` split, in the
/// order of the missiles.
pub open spec fn fragments(ms: Seq<Missile>, s: Seq<Asteroid>, radius: int, sizes: LevelSizes) -> Seq<Asteroid>
    decreases ms.len(),
{
    if ms.len() == 0 {
        seq![]
    } else {
        fragments(ms.drop_last(), s, radius, sizes) + match target(ms.last(), s, radius, sizes) {
            Some(t) => if s[t].level_spec() > 1 {
                let pair = s[t].split_spec(ms.last().speed_spec());
                seq![pair.0, pair.1]
            } else {
                seq![]
            },
            None => seq![],
        }
    }
}

/// The missiles of `ms` that hit nothing and had not collided before.
pub open spec fn flying(ms: Seq<Missile>, s: Seq<Asteroid>, radius: int, sizes: LevelSizes) -> Seq<Missile>
    decreases ms.len(),
{
    if ms.len() == 0 {
        seq![]
    } else {
        flying(ms.drop_last(), s, radius, sizes) + if target(ms.last(), s, radius, sizes) is None
            && !ms.last().collided_spec() {
            seq![ms.last()]
        } else {
            seq![]
        }
    }
}

/// Some missile of `ms` destroys the asteroid at index `j` of `s`.
pub open spec fn targeted(ms: Seq<Missile>, s: Seq<Asteroid>, radius: int, sizes: LevelSizes, j: int) -> bool
    decreases ms.len(),
{
    if ms.len() == 0 {
        false
    } else {
        targeted(ms.drop_last(), s, radius, sizes, j) || target(ms.last(), s, radius, sizes) == Some(j)
    }
}

/// The first `n` asteroids of `s`, less those that a missile of `ms` destroys.
pub open spec fn kept(s: Seq<Asteroid>, ms: Seq<Missile>, radius: int, sizes: LevelSizes, n: int) -> Seq<Asteroid>
    decreases n,
{
    if n <= 0 {
        seq![]
    } else {
        kept(s, ms, radius, sizes, n - 1) + if targeted(ms, s, radius, sizes, n - 1) {
            seq![]
        } else {
            seq![s[n - 1]]
        }
    }
}

proof fn lemma_first_target(m: Missile, s: Seq<Asteroid>, radius: int, sizes: LevelSizes, j: int)
    requires
        0 <= j <= s.len(),
        forall|k: int| 0 <= k < j ==> !missile_hits(m, #[trigger] s[k], radius, sizes),
        j < s.len() ==> missile_hits(m, s[j], radius, sizes),
    ensures
        first_target(m, s, radius, sizes) == j,
    decreases j,
{
    if j > 0 {
        assert(!missile_hits(m, s[0], radius, sizes));
        let t = s.drop_first();
        assert forall|k: int| 0 <= k < j - 1 implies !missile_hits(m, #[trigger] t[k], radius, sizes) by {
            assert(t[k] == s[k + 1]);
        }
        if j < s.len() {
            assert(t[j - 1] == s[j]);
        }
        lemma_first_target(m, t, radius, sizes, j - 1);
    }
}

/// Index of the first asteroid that the missile hits, or the number of asteroids.
fn first_asteroid_hit(m: &Missile, asteroids: &Vec<Asteroid>, radius: i64, level_size: LevelSizes) -> (r: usize)
    requires
        m.wf(),
        all_valid(asteroids@),
        0 <= radius <= MAX_EXTENT,
        sizes_ok(level_size),
    ensures
        r == first_target(*m, asteroids@, radius as int, level_size),
        r <= asteroids@.len(),
{
    let n = asteroids.len();
    let mut j: usize = 0;
    while j < n
        invariant
            n == asteroids@.len(),
            0 <= j <= n,
            m.wf(),
            all_valid(asteroids@),
            0 <= radius <= MAX_EXTENT,
            sizes_ok(level_size),
            forall|k: int| 0 <= k < j ==> !missile_hits(*m, #[trigger] asteroids@[k], radius as int, level_size),
        decreases n - j,
    {
        let a = &asteroids[j];
        assert(a.wf());
        let size = asteroid_level(a, level_size);
        let distance = distance_squared(m.get_position(), a.get_position());
        let reach = size as i128 + radius as i128;
        assert(reach * reach <= 4 * MAX_EXTENT * MAX_EXTENT) by (nonlinear_arith)
            requires
                0 <= reach <= 2 * MAX_EXTENT,
        ;
        if distance < reach * reach {
            proof {
                lemma_first_target(*m, asteroids@, radius as int, level_size, j as int);
            }
            return j;
        }
        j = j + 1;
    }
    proof {
        lemma_first_target(*m, asteroids@, radius as int, level_size, n as int);
    }
    n
}

/// Every missile against the asteroids, once per tick. A missile destroys
/// the first asteroid in order within its reach, wins ten points per level of
/// it, and splits it when its level is above 1. Then the spent missiles go,
/// the destroyed asteroids go, and the fragments join the end of the list.
/// Returns the number of missiles that hit.
pub fn check_missiles_asteroids(
    missiles: &mut Vec<Missile>,
    asteroids: &mut Vec<Asteroid>,
    rayon_missile: i64,
    level_size: LevelSizes,
    score: &mut i32,
) -> (hits: usize)
    requires
        all_missiles_valid(old(missiles)@),
        all_valid(old(asteroids)@),
        0 <= rayon_missile <= MAX_EXTENT,
        sizes_ok(level_size),
        *old(score) + 30 * old(missiles)@.len() <= i32::MAX,
    ensures
        *final(score) == *old(score) + score_gain(
            old(missiles)@,
            old(asteroids)@,
            rayon_missile as int,
            level_size,
        ),
        final(missiles)@ == flying(old(missiles)@, old(asteroids)@, rayon_missile as int, level_size),
        final(asteroids)@ == kept(
            old(asteroids)@,
            old(missiles)@,
            rayon_missile as int,
            level_size,
            old(asteroids)@.len() as int,
        ) + fragments(old(missiles)@, old(asteroids)@, rayon_missile as int, level_size),
        hits == hit_count(old(missiles)@, old(asteroids)@, rayon_missile as int, level_size),
        *old(score) <= *final(score),
        all_missiles_valid(final(missiles)@),
        all_valid(final(asteroids)@),
{
    let ghost ms = missiles@;
    let ghost s = asteroids@;
    let ghost score0 = *score as int;
    let radius = rayon_missile;
    let na = asteroids.len();
    let nm = missiles.len();
    let mut struck: Vec<bool> = Vec::new();
    for j in 0..na
        invariant
            struck@.len() == j,
            forall|k: int| 0 <= k < j ==> !#[trigger] struck@[k],
    {
        struck.push(false);
    }
    let mut still_flying: Vec<Missile> = Vec::new();
    let mut pieces: Vec<Asteroid> = Vec::new();
    let mut hits: usize = 0;
    for i in 0..nm
        invariant
            nm == ms.len(),
            na == s.len(),
            missiles@ == ms,
            asteroids@ == s,
            all_missiles_valid(ms),
            all_valid(s),
            0 <= radius <= MAX_EXTENT,
            sizes_ok(level_size),
            score0 + 30 * nm <= i32::MAX,
            struck@.len() == na,
            forall|j: int| 0 <= j < na ==> #[trigger] struck@[j] == targeted(ms.take(i as int), s, radius as int, level_size, j),
            *score == score0 + score_gain(ms.take(i as int), s, radius as int, level_size),
            0 <= score_gain(ms.take(i as int), s, radius as int, level_size) <= 30 * i,
            still_flying@ == flying(ms.take(i as int), s, radius as int, level_size),
            pieces@ == fragments(ms.take(i as int), s, radius as int, level_size),
            hits == hit_count(ms.take(i as int), s, radius as int, level_size),
            hits <= i,
            all_missiles_valid(still_flying@),
            all_valid(pieces@),
    {
        proof {
            assert(ms.take(i + 1).drop_last() =~= ms.take(i as int));
            assert(ms.take(i + 1).last() == ms[i as int]);
        }
        let mut m = missiles[i];
        assert(m.wf());
        let t = first_asteroid_hit(&m, asteroids, radius, level_size);
        if t < na {
            let mut a = asteroids[t];
            assert(a.wf());
            let level = a.get_level();
            *score = *score + level as i32 * 10;
            m.handle_collision(0, true, Vector2 { x: 0, y: 0 });
            let speed = m.get_speed();
            let split = a.handle_collision(1, true, speed);
            match split {
                Some(pair) => {
                    pieces.push(pair.0);
                    pieces.push(pair.1);
                    proof {
                        assert(pieces@ =~= fragments(ms.take(i + 1), s, radius as int, level_size));
                    }
                },
                None => {
                    proof {
                        assert(pieces@ =~= fragments(ms.take(i + 1), s, radius as int, level_size));
                    }
                },
            }
            struck.set(t, true);
            hits = hits + 1;
            proof {
                assert(still_flying@ =~= flying(ms.take(i + 1), s, radius as int, level_size));
            }
        } else {
            if !m.get_collided() {
                still_flying.push(m);
            }
            proof {
                assert(still_flying@ =~= flying(ms.take(i + 1), s, radius as int, level_size));
                assert(pieces@ =~= fragments(ms.take(i + 1), s, radius as int, level_size));
            }
        }
    }
    proof {
        assert(ms.take(nm as int) =~= ms);
    }
    let mut survivors: Vec<Asteroid> = Vec::new();
    for j in 0..na
        invariant
            na == s.len(),
            asteroids@ == s,
            all_valid(s),
            struck@.len() == na,
            forall|k: int| 0 <= k < na ==> #[trigger] struck@[k] == targeted(ms, s, radius as int, level_size, k),
            survivors@ == kept(s, ms, radius as int, level_size, j as int),
            all_valid(survivors@),
    {
        if !struck[j] {
            survivors.push(asteroids[j]);
        }
        proof {
            assert(survivors@ =~= kept(s, ms, radius as int, level_size, j + 1));
        }
    }
    let ghost base = survivors@;
    let np = pieces.len();
    for k in 0..np
        invariant
            np == pieces@.len(),
            survivors@ == base + pieces@.take(k as int),
            all_valid(base),
            all_valid(pieces@),
    {
        survivors.push(pieces[k]);
        proof {
            assert(survivors@ =~= base + pieces@.take(k + 1));
        }
    }
    proof {
        assert(pieces@.take(np as int) =~= pieces@);
    }
    *asteroids = survivors;
    *missiles = still_flying;
    hits
}

/// Moves every asteroid for one tick.
pub fn update_asteroids(asteroids: &mut Vec<Asteroid>, field: Field)
    requires
        all_valid(old(asteroids)@),
        field.wf(),
    ensures
        final(asteroids)@.len() == old(asteroids)@.len(),
        forall|i: int|
            0 <= i < old(asteroids)@.len() ==> #[trigger] final(asteroids)@[i] == old(asteroids)@[i].drifted(field),
        forall|i: int|
            0 <= i < old(asteroids)@.len() ==> {
                let (a, b) = (#[trigger] final(asteroids)@[i], old(asteroids)@[i]);
                &&& a.position_spec().x == wrap_spec(b.position_spec().x + b.speed_spec().x, field.width as int)
                &&& a.position_spec().y == wrap_spec(b.position_spec().y + b.speed_spec().y, field.height as int)
                &&& a.speed_spec() == b.speed_spec()
                &&& a.level_spec() == b.level_spec()
                &&& a.collided_spec() == b.collided_spec()
            },
        all_valid(final(asteroids)@),
{
    let ghost s = asteroids@;
    let n = asteroids.len();
    for i in 0..n
        invariant
            n == s.len(),
            asteroids@.len() == n,
            field.wf(),
            all_valid(asteroids@),
            forall|j: int| 0 <= j < i ==> #[trigger] asteroids@[j] == s[j].drifted(field),
            forall|j: int| i <= j < n ==> #[trigger] asteroids@[j] == s[j],
    {
        let mut a = asteroids[i];
        assert(a.wf());
        a.update_position(field);
        asteroids.set(i, a);
    }
    assert forall|i: int| 0 <= i < n implies {
        let (a, b) = (#[trigger] asteroids@[i], s[i]);
        &&& a.position_spec().x == wrap_spec(b.position_spec().x + b.speed_spec().x, field.width as int)
        &&& a.position_spec().y == wrap_spec(b.position_spec().y + b.speed_spec().y, field.height as int)
    } by {
        assert(s[i].wf());
        lemma_speed_components(s[i].speed_spec());
    }
}

/// The missile, once moved, is still on the screen of `field`.
pub open spec fn stays_on_screen(m: Missile, field: Field) -> bool {
    !off_screen(m.advanced().position_spec(), field.width as int, field.height as int)
}

/// The missiles of `ms` moved by one tick, less those that left the screen.
pub open spec fn moved_missiles(ms: Seq<Missile>, field: Field) -> Seq<Missile>
    decreases ms.len(),
{
    if ms.len() == 0 {
        seq![]
    } else {
        moved_missiles(ms.drop_last(), field) + if stays_on_screen(ms.last(), field) {
            seq![ms.last().advanced()]
        } else {
            seq![]
        }
    }
}

/// Moves every missile for one tick and drops those that left the screen.
pub fn update_missiles(missiles: &mut Vec<Missile>, field: Field)
    requires
        all_missiles_valid(old(missiles)@),
        field.wf(),
    ensures
        final(missiles)@ == moved_missiles(old(missiles)@, field),
        all_missiles_valid(final(missiles)@),
{
    let ghost ms = missiles@;
    let n = missiles.len();
    let mut remaining: Vec<Missile> = Vec::new();
    for i in 0..n
        invariant
            n == ms.len(),
            missiles@ == ms,
            field.wf(),
            all_missiles_valid(ms),
            all_missiles_valid(remaining@),
            remaining@ == moved_missiles(ms.take(i as int), field),
    {
        proof {
            assert(ms.take(i + 1).drop_last() =~= ms.take(i as int));
            assert(ms.take(i + 1).last() == ms[i as int]);
        }
        let mut m = missiles[i];
        assert(m.wf());
        let p = m.get_position();
        let v = m.get_speed();
        proof {
            lemma_speed_components(v);
        }
        let next = Vector2 { x: p.x + v.x, y: p.y + v.y };
        proof {
            m.lemma_advanced();
        }
        if -MAX_EXTENT <= next.x && next.x <= 3 * MAX_EXTENT && -MAX_EXTENT <= next.y && next.y <= 3
            * MAX_EXTENT {
            m.update_position(field);
            if !m.is_off_screen(field.width, field.height) {
                remaining.push(m);
            }
        }
        proof {
            assert(remaining@ =~= moved_missiles(ms.take(i + 1), field));
        }
    }
    proof {
        assert(ms.take(n as int) =~= ms);
    }
    *missiles = remaining;
}

/// Moves the craft for one tick.
pub fn update_model_vaisseau(vaisseau: &mut Vaisseau, field: Field)
    requires
        old(vaisseau).wf(),
        field.wf(),
    ensures
        final(vaisseau).wf(),
        final(vaisseau).speed_spec() == old(vaisseau).speed_spec(),
        final(vaisseau).position_spec() == (Vector2 {
            x: wrap_spec(old(vaisseau).position_spec().x + old(vaisseau).speed_spec().x, field.width as int) as i64,
            y: wrap_spec(old(vaisseau).position_spec().y + old(vaisseau).speed_spec().y, field.height as int) as i64,
        }),
        -field.width <= old(vaisseau).position_spec().x + old(vaisseau).speed_spec().x <= 2 * field.width
            ==> 0 <= final(vaisseau).position_spec().x <= field.width,
        -field.height <= old(vaisseau).position_spec().y + old(vaisseau).speed_spec().y <= 2 * field.height
            ==> 0 <= final(vaisseau).position_spec().y <= field.height,
        final(vaisseau).rotation_spec() == old(vaisseau).rotation_spec(),
        final(vaisseau).shield_spec() == old(vaisseau).shield_spec(),
        final(vaisseau).last_shot_spec() == old(vaisseau).last_shot_spec(),
{
    vaisseau.update_position(field);
}

proof fn lemma_no_strikes(shield: int, craft: Vector2, s: Seq<Asteroid>, radius: int, sizes: LevelSizes)
    requires
        forall|i: int| 0 <= i < s.len() ==> !strikes(craft, #[trigger] s[i], radius, sizes),
    ensures
        shield_after(shield, craft, s, radius, sizes) == shield,
        strike_count(craft, s, radius, sizes) == 0,
    decreases s.len(),
{
    if s.len() > 0 {
        let t = s.drop_last();
        assert forall|i: int| 0 <= i < t.len() implies !strikes(craft, #[trigger] t[i], radius, sizes) by {
            assert(t[i] == s[i]);
        }
        assert(!strikes(craft, s[s.len() - 1], radius, sizes));
        lemma_no_strikes(shield, craft, t, radius, sizes);
    }
}

/// Within one tick an asteroid hits the craft at most once: a second pass
/// over the asteroids as a first pass left them, with the craft where it was,
/// takes nothing off the shield and counts no hit.
pub proof fn second_pass_harmless(
    shield: int,
    craft: Vector2,
    before: Seq<Asteroid>,
    after: Seq<Asteroid>,
    radius: int,
    sizes: LevelSizes,
)
    requires
        after.len() == before.len(),
        forall|i: int|
            0 <= i < before.len() ==> {
                let (a, b) = (#[trigger] after[i], before[i]);
                &&& a.position_spec() == b.position_spec()
                &&& a.level_spec() == b.level_spec()
                &&& a.collided_spec() == (b.collided_spec() || touches(craft, b, radius, sizes))
            },
    ensures
        shield_after(shield, craft, after, radius, sizes) == shield,
        strike_count(craft, after, radius, sizes) == 0,
{
    assert forall|i: int| 0 <= i < after.len() implies !strikes(craft, #[trigger] after[i], radius, sizes) by {
        assert(touches(craft, after[i], radius, sizes) == touches(craft, before[i], radius, sizes));
    }
    lemma_no_strikes(shield, craft, after, radius, sizes);
}

} // verus!
