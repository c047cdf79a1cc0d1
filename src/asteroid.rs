use crate::geometry::{
    abs, floor_root, integer_sqrt, lemma_speed_components, sq, with_length,
    with_length_spec, wrap_position, wrap_spec, Field, Vector2, MAX_EXTENT, MAX_SPEED,
};
use crate::random::random_in;
use crate::stellar_object::StellarObject;
use vstd::prelude::*;

verus! {

/// Sizes of asteroids by level, in sub-units: `(level 3, level 2, level 1)`.
pub type LevelSizes = (i64, i64, i64);

pub open spec fn sizes_ok(s: LevelSizes) -> bool {
    0 <= s.0 <= MAX_EXTENT && 0 <= s.1 <= MAX_EXTENT && 0 <= s.2 <= MAX_EXTENT
}

/// The size of an asteroid of the given level; zero for a level outside 1 to 3.
pub open spec fn size_of_level(level: u8, s: LevelSizes) -> int {
    if level == 3 {
        s.0 as int
    } else if level == 2 {
        s.1 as int
    } else if level == 1 {
        s.2 as int
    } else {
        0
    }
}

/// A spawn point just outside one of the four edges of the screen, one size
/// away from it, so that the asteroid drifts into view.
pub open spec fn on_spawn_border(p: Vector2, size: int, field: Field) -> bool {
    ||| 0 <= p.x < field.width && p.y == -size
    ||| p.x == field.width + size && 0 <= p.y < field.height
    ||| 0 <= p.x < field.width && p.y == field.height + size
    ||| p.x == -size && 0 <= p.y < field.height
}

/// `v` turned a quarter turn one way: `(-v.y, v.x)`.
pub open spec fn perp_left(v: Vector2) -> Vector2 {
    Vector2 { x: -v.y as i64, y: v.x }
}

/// `v` turned a quarter turn the other way: `(v.y, -v.x)`.
pub open spec fn perp_right(v: Vector2) -> Vector2 {
    Vector2 { x: v.y, y: -v.x as i64 }
}

/// The spawn point `size` outside edge `side` of the screen (0 top, 1 right,
/// 2 bottom, 3 left), at `offset` along that edge.
pub open spec fn spawn_point_spec(side: int, offset: int, size: int, field: Field) -> Vector2 {
    if side == 0 {
        Vector2 { x: offset as i64, y: -size as i64 }
    } else if side == 1 {
        Vector2 { x: (field.width + size) as i64, y: offset as i64 }
    } else if side == 2 {
        Vector2 { x: offset as i64, y: (field.height + size) as i64 }
    } else {
        Vector2 { x: -size as i64, y: offset as i64 }
    }
}

/// Places a new asteroid just outside edge `side` of the screen, at `offset`
/// along that edge.
pub fn spawn_point(side: i64, offset: i64, size: i64, field: Field) -> (r: Vector2)
    requires
        0 <= side < 4,
        0 <= size <= MAX_EXTENT,
        field.wf(),
        0 <= offset < (if side % 2 == 0 { field.width } else { field.height }),
    ensures
        r == spawn_point_spec(side as int, offset as int, size as int, field),
        on_spawn_border(r, size as int, field),
        r.in_play(),
{
    if side == 0 {
        Vector2 { x: offset, y: -size }
    } else if side == 1 {
        Vector2 { x: field.width + size, y: offset }
    } else if side == 2 {
        Vector2 { x: offset, y: field.height + size }
    } else {
        Vector2 { x: -size, y: offset }
    }
}

/// An asteroid: it drifts across the screen, wraps at its edges, and splits
/// in two when a missile hits it at a level above 1.
#[derive(Clone, Copy, Debug)]
pub struct Asteroid {
    position: Vector2,
    speed: Vector2,
    /// 3 is large, 2 medium, 1 small.
    level: u8,
    /// Set by a collision in the current tick.
    has_collided: bool,
}

impl Asteroid {
    pub closed spec fn level_spec(&self) -> u8 {
        self.level
    }

    pub closed spec fn collided_spec(&self) -> bool {
        self.has_collided
    }

    /// The two children of a split by a missile of speed `speed_missile`: at the
    /// parent's position, one level lower, each moving a quarter turn off the
    /// missile's course, with the parent's speed rounded down.
    pub closed spec fn split_spec(self, speed_missile: Vector2) -> (Asteroid, Asteroid) {
        let len = floor_root(self.speed.norm_sq());
        (
            Asteroid {
                position: self.position,
                speed: with_length_spec(perp_left(speed_missile), len),
                level: (self.level - 1) as u8,
                has_collided: false,
            },
            Asteroid {
                position: self.position,
                speed: with_length_spec(perp_right(speed_missile), len),
                level: (self.level - 1) as u8,
                has_collided: false,
            },
        )
    }

    /// The asteroid after one tick's drift on `field`: moved by its speed,
    /// each coordinate wrapped across the screen.
    pub closed spec fn drifted(self, field: Field) -> Asteroid {
        Asteroid {
            position: Vector2 {
                x: wrap_spec(self.position.x + self.speed.x, field.width as int) as i64,
                y: wrap_spec(self.position.y + self.speed.y, field.height as int) as i64,
            },
            ..self
        }
    }

    /// A new asteroid; without a position it spawns at random just outside
    /// the screen.
    pub fn new(
        level: u8,
        speed: Vector2,
        level_size: LevelSizes,
        position: Option<Vector2>,
        field: Field,
    ) -> (r: Self)
        requires
            1 <= level <= 3,
            speed.is_speed(),
            sizes_ok(level_size),
            field.wf(),
            position matches Some(p) ==> p.in_play(),
        ensures
            r.wf(),
            r.level_spec() == level,
            r.speed_spec() == speed,
            !r.collided_spec(),
            match position {
                Some(p) => r.position_spec() == p,
                None => on_spawn_border(r.position_spec(), size_of_level(level, level_size), field),
            },
    {
        let position = match position {
            Some(p) => p,
            None => Self::random_position(level, level_size, field),
        };
        Asteroid { position, speed, level, has_collided: false }
    }

    pub fn get_level(&self) -> (r: u8)
        ensures
            r == self.level_spec(),
    {
        self.level
    }

    pub fn get_collided(&self) -> (r: bool)
        ensures
            r == self.collided_spec(),
    {
        self.has_collided
    }

    /// A random point just outside one of the four edges, the edge drawn
    /// uniformly.
    fn random_position(level: u8, level_size: LevelSizes, field: Field) -> (r: Vector2)
        requires
            sizes_ok(level_size),
            field.wf(),
        ensures
            on_spawn_border(r, size_of_level(level, level_size), field),
            r.in_play(),
    {
        let size = match level {
            3 => level_size.0,
            2 => level_size.1,
            1 => level_size.2,
            _ => 0,
        };
        let side = random_in(0, 4);
        let along = if side % 2 == 0 {
            field.width
        } else {
            field.height
        };
        let offset = random_in(0, along);
        spawn_point(side, offset, size, field)
    }

    /// Splits the asteroid in two, at the impact of a missile of speed
    /// `speed_missile`. The asteroid itself is left as it is.
    pub fn split_asteroid(&mut self, speed_missile: Vector2) -> (r: (Asteroid, Asteroid))
        requires
            old(self).wf(),
            old(self).level_spec() > 1,
            speed_missile.is_speed(),
        ensures
            *final(self) == *old(self),
            r == old(self).split_spec(speed_missile),
            r.0.wf(),
            r.1.wf(),
    {
        proof {
            lemma_speed_components(self.speed);
            lemma_speed_components(speed_missile);
        }
        let n = self.speed.length_squared();
        assert(n <= sq(MAX_SPEED as int));
        let root = integer_sqrt(n);
        assert(root <= MAX_SPEED) by (nonlinear_arith)
            requires
                root * root <= n,
                n <= sq(MAX_SPEED as int),
                root >= 0,
        ;
        let len = root as i64;
        let left = Vector2 { x: -speed_missile.y, y: speed_missile.x };
        let right = Vector2 { x: speed_missile.y, y: -speed_missile.x };
        let s1 = with_length(left, len);
        let s2 = with_length(right, len);
        assert(sq(len as int) <= n) by (nonlinear_arith)
            requires
                root * root <= n,
                len == root,
        ;
        (
            Asteroid { position: self.position, speed: s1, level: self.level - 1, has_collided: false },
            Asteroid { position: self.position, speed: s2, level: self.level - 1, has_collided: false },
        )
    }
}

impl StellarObject for Asteroid {
    closed spec fn position_spec(&self) -> Vector2 {
        self.position
    }

    closed spec fn speed_spec(&self) -> Vector2 {
        self.speed
    }

    /// A level of 1 to 3, a position in play, a bounded speed.
    open spec fn wf(&self) -> bool {
        1 <= self.level_spec() <= 3 && self.position_spec().in_play() && self.speed_spec().is_speed()
    }

    open spec fn can_move(&self, field: Field) -> bool {
        field.wf()
    }

    fn get_position(&self) -> (r: Vector2) {
        self.position
    }

    fn set_position(&mut self, new_position: Vector2)
        ensures
            final(self).level_spec() == old(self).level_spec(),
            final(self).collided_spec() == old(self).collided_spec(),
    {
        self.position = new_position;
    }

    fn get_speed(&self) -> (r: Vector2) {
        self.speed
    }

    fn set_speed(&mut self, new_speed: Vector2)
        ensures
            final(self).level_spec() == old(self).level_spec(),
            final(self).collided_spec() == old(self).collided_spec(),
    {
        self.speed = new_speed;
    }

    /// Moves by the speed, then wraps each coordinate across the screen. A
    /// move that lands within one screen side of the screen ends on it.
    fn update_position(&mut self, field: Field)
        ensures
            *final(self) == old(self).drifted(field),
            -field.width <= old(self).position_spec().x + old(self).speed_spec().x <= 2 * field.width
                ==> 0 <= final(self).position_spec().x <= field.width,
            -field.height <= old(self).position_spec().y + old(self).speed_spec().y <= 2 * field.height
                ==> 0 <= final(self).position_spec().y <= field.height,
            final(self).position_spec() == (Vector2 {
                x: wrap_spec(old(self).position_spec().x + old(self).speed_spec().x, field.width as int) as i64,
                y: wrap_spec(old(self).position_spec().y + old(self).speed_spec().y, field.height as int) as i64,
            }),
            final(self).level_spec() == old(self).level_spec(),
            final(self).collided_spec() == old(self).collided_spec(),
    {
        proof {
            lemma_speed_components(self.speed);
        }
        let x = wrap_position(self.position.x + self.speed.x, field.width);
        let y = wrap_position(self.position.y + self.speed.y, field.height);
        self.position = Vector2 { x, y };
    }

    /// Records whether the collision holds; a missile hit on an asteroid above
    /// level 1 splits it (`asteroid_level` 1 stands for a missile).
    fn handle_collision(&mut self, asteroid_level: u8, status: bool, speed_missile: Vector2) -> (r:
        Option<(Asteroid, Asteroid)>)
        ensures
            final(self).position_spec() == old(self).position_spec(),
            final(self).speed_spec() == old(self).speed_spec(),
            final(self).level_spec() == old(self).level_spec(),
            final(self).collided_spec() == status,
            r matches Some(pair) ==> pair.0.wf() && pair.1.wf(),
            r == (if status && asteroid_level == 1 && old(self).level_spec() > 1 {
                Some(old(self).split_spec(speed_missile))
            } else {
                None
            }),
    {
        self.has_collided = status;
        if self.has_collided && asteroid_level == 1 && self.level > 1 {
            return Some(self.split_asteroid(speed_missile));
        }
        None
    }
}

/// An asteroid on the screen is still on it after one tick's drift.
pub proof fn drift_stays_on_screen(a: Asteroid, field: Field)
    requires
        a.wf(),
        field.wf(),
        0 <= a.position_spec().x <= field.width,
        0 <= a.position_spec().y <= field.height,
    ensures
        0 <= a.drifted(field).position_spec().x <= field.width,
        0 <= a.drifted(field).position_spec().y <= field.height,
{
    lemma_speed_components(a.speed);
    crate::geometry::wrap_stays_within(a.position.x as int, a.speed.x as int, field.width as int);
    crate::geometry::wrap_stays_within(a.position.y as int, a.speed.y as int, field.height as int);
}

proof fn lemma_cross_bound(a: int, b: int, ra: int, rb: int, len: int, n: int)
    requires
        a >= 0,
        b >= 0,
        ra >= 0,
        rb >= 0,
        n > 0,
        n * sq(ra) <= sq(a) * sq(len),
        sq(a) * sq(len) < n * sq(ra + 1),
        n * sq(rb) <= sq(b) * sq(len),
        sq(b) * sq(len) < n * sq(rb + 1),
    ensures
        -b <= ra * b - rb * a <= a,
        a == 0 ==> ra == 0,
        b == 0 ==> rb == 0,
{
    if a == 0 {
        assert(n * (ra * ra) <= 0) by (nonlinear_arith)
            requires
                n * (ra * ra) <= (a * a) * (len * len),
                a == 0,
        ;
        assert(ra == 0) by (nonlinear_arith)
            requires
                n * (ra * ra) <= 0,
                n > 0,
                ra >= 0,
        ;
    } else {
        assert(n * sq(ra * b) < n * sq((rb + 1) * a)) by (nonlinear_arith)
            requires
                n * (ra * ra) <= (a * a) * (len * len),
                (b * b) * (len * len) < n * ((rb + 1) * (rb + 1)),
                a > 0,
                b >= 0,
        ;
        assert(ra * b < (rb + 1) * a) by (nonlinear_arith)
            requires
                n * ((ra * b) * (ra * b)) < n * (((rb + 1) * a) * ((rb + 1) * a)),
                n > 0,
                ra * b >= 0,
                (rb + 1) * a >= 0,
        ;
    }
    if b == 0 {
        assert(n * (rb * rb) <= 0) by (nonlinear_arith)
            requires
                n * (rb * rb) <= (b * b) * (len * len),
                b == 0,
        ;
        assert(rb == 0) by (nonlinear_arith)
            requires
                n * (rb * rb) <= 0,
                n > 0,
                rb >= 0,
        ;
    } else {
        assert(n * sq(rb * a) < n * sq((ra + 1) * b)) by (nonlinear_arith)
            requires
                n * (rb * rb) <= (b * b) * (len * len),
                (a * a) * (len * len) < n * ((ra + 1) * (ra + 1)),
                b > 0,
                a >= 0,
        ;
        assert(rb * a < (ra + 1) * b) by (nonlinear_arith)
            requires
                n * ((rb * a) * (rb * a)) < n * (((ra + 1) * b) * ((ra + 1) * b)),
                n > 0,
                rb * a >= 0,
                (ra + 1) * b >= 0,
        ;
    }
    assert((rb + 1) * a == rb * a + a && (ra + 1) * b == ra * b + b) by (nonlinear_arith);
    if a == 0 {
        assert(ra * b == 0 && rb * a == 0) by (nonlinear_arith)
            requires
                a == 0,
                ra == 0,
        ;
    }
    if b == 0 {
        assert(ra * b == 0 && rb * a == 0) by (nonlinear_arith)
            requires
                b == 0,
                rb == 0,
        ;
    }
}

/// A split gives two children one level down, at the parent's position, with
/// opposite speeds that cross the missile's course at a right angle and keep
/// the parent's speed, both up to rounding. With `v` the missile's speed, `n`
/// its squared length and `s` the parent's speed rounded down:
/// - the children are no faster than the parent, and, when `v` is not zero,
///   no slower than `s - 2`;
/// - their dot product with `v` is at most `|v.x| + |v.y|` in size;
/// - each component of the first child's speed has the size of the matching
///   component of `s (-v.y, v.x) / sqrt(n)`, rounded down.
pub proof fn split_children(a: Asteroid, speed_missile: Vector2)
    requires
        a.wf(),
        a.level_spec() > 1,
        speed_missile.is_speed(),
    ensures
        ({
            let (c1, c2) = a.split_spec(speed_missile);
            let (vx, vy) = (speed_missile.x as int, speed_missile.y as int);
            let n = speed_missile.norm_sq();
            let s = floor_root(a.speed_spec().norm_sq());
            let dot = c1.speed_spec().x * vx + c1.speed_spec().y * vy;
            &&& c1.level_spec() == a.level_spec() - 1
            &&& c2.level_spec() == a.level_spec() - 1
            &&& c1.position_spec() == a.position_spec()
            &&& c2.position_spec() == a.position_spec()
            &&& !c1.collided_spec() && !c2.collided_spec()
            &&& c2.speed_spec().x == -c1.speed_spec().x
            &&& c2.speed_spec().y == -c1.speed_spec().y
            &&& c1.speed_spec().norm_sq() <= a.speed_spec().norm_sq()
            &&& c2.speed_spec().norm_sq() <= a.speed_spec().norm_sq()
            &&& n != 0 && s >= 2 ==> c1.speed_spec().norm_sq() >= sq(s - 2) && c2.speed_spec().norm_sq()
                >= sq(s - 2)
            &&& -(abs(vx) + abs(vy)) <= dot <= abs(vx) + abs(vy)
            &&& n != 0 ==> {
                &&& n * sq(c1.speed_spec().x as int) <= sq(vy) * sq(s) < n * sq(abs(c1.speed_spec().x as int) + 1)
                &&& n * sq(c1.speed_spec().y as int) <= sq(vx) * sq(s) < n * sq(abs(c1.speed_spec().y as int) + 1)
            }
        }),
{
    let (c1, c2) = a.split_spec(speed_missile);
    let m = speed_missile;
    lemma_speed_components(m);
    lemma_speed_components(a.speed);
    crate::geometry::lemma_floor_root_of_speed(a.speed);
    let len = floor_root(a.speed.norm_sq());
    let left = perp_left(m);
    let right = perp_right(m);
    let (mx, my) = (m.x as int, m.y as int);
    assert(left.x as int == -my && left.y as int == mx && right.x as int == my && right.y as int == -mx);
    assert(sq(-my) == sq(my) && sq(-mx) == sq(mx)) by (nonlinear_arith);
    assert(left.norm_sq() == right.norm_sq() && left.norm_sq() == m.norm_sq());
    crate::geometry::lemma_with_length(left, len);
    crate::geometry::lemma_with_length(right, len);
    let n = m.norm_sq();
    if n == 0 {
        assert(m.x == 0 && m.y == 0) by (nonlinear_arith)
            requires
                m.x * m.x + m.y * m.y == 0,
        ;
    } else {
        assert(mx * mx <= n && my * my <= n) by (nonlinear_arith)
            requires
                n == mx * mx + my * my,
        ;
        assert((-my) * (-my) <= n && (-mx) * (-mx) <= n) by (nonlinear_arith)
            requires
                mx * mx <= n,
                my * my <= n,
        ;
        crate::geometry::lemma_scaled_component(my, len, n);
        crate::geometry::lemma_scaled_component(-my, len, n);
        crate::geometry::lemma_scaled_component(mx, len, n);
        crate::geometry::lemma_scaled_component(-mx, len, n);
        let tx = crate::geometry::scaled_component(-my, len, n);
        let ty = crate::geometry::scaled_component(mx, len, n);
        assert(c1.speed.x == tx && c1.speed.y == ty);
        assert(c2.speed.x == -tx && c2.speed.y == -ty);
        assert(sq(-my) == sq(my) && sq(abs(tx)) == sq(tx) && sq(abs(ty)) == sq(ty)) by (nonlinear_arith);
        let ra = abs(ty);
        let rb = abs(tx);
        lemma_cross_bound(abs(mx), abs(my), ra, rb, len, n);
        assert(sq(abs(mx)) == sq(mx) && sq(abs(my)) == sq(my)) by (nonlinear_arith);
        let dot = tx * mx + ty * my;
        let e = ra * abs(my) - rb * abs(mx);
        if mx >= 0 && my > 0 {
            assert(dot == e) by (nonlinear_arith)
                requires
                    tx == -rb,
                    ty == ra,
                    dot == tx * mx + ty * my,
                    e == ra * my - rb * mx,
            ;
        } else if mx >= 0 {
            assert(dot == -e) by (nonlinear_arith)
                requires
                    tx == rb,
                    ty == ra,
                    dot == tx * mx + ty * my,
                    e == ra * (-my) - rb * mx,
            ;
        } else if my > 0 {
            assert(dot == -e) by (nonlinear_arith)
                requires
                    tx == -rb,
                    ty == -ra,
                    dot == tx * mx + ty * my,
                    e == ra * my - rb * (-mx),
            ;
        } else {
            assert(dot == e) by (nonlinear_arith)
                requires
                    tx == rb,
                    ty == -ra,
                    dot == tx * mx + ty * my,
                    e == ra * (-my) - rb * (-mx),
            ;
        }
    }
}

/// What a drift changes: the position only, moved by the speed and wrapped.
pub broadcast proof fn drifted_fields(a: Asteroid, field: Field)
    ensures
        #![trigger a.drifted(field)]
        a.drifted(field).position_spec() == (Vector2 {
            x: wrap_spec(a.position_spec().x + a.speed_spec().x, field.width as int) as i64,
            y: wrap_spec(a.position_spec().y + a.speed_spec().y, field.height as int) as i64,
        }),
        a.drifted(field).speed_spec() == a.speed_spec(),
        a.drifted(field).level_spec() == a.level_spec(),
        a.drifted(field).collided_spec() == a.collided_spec(),
{
}

/// The two children of a split, field by field.
pub broadcast proof fn split_fields(a: Asteroid, speed_missile: Vector2)
    ensures
        #![trigger a.split_spec(speed_missile)]
        a.split_spec(speed_missile).0.position_spec() == a.position_spec(),
        a.split_spec(speed_missile).1.position_spec() == a.position_spec(),
        a.split_spec(speed_missile).0.level_spec() == (a.level_spec() - 1) as u8,
        a.split_spec(speed_missile).1.level_spec() == (a.level_spec() - 1) as u8,
        !a.split_spec(speed_missile).0.collided_spec(),
        !a.split_spec(speed_missile).1.collided_spec(),
        a.split_spec(speed_missile).0.speed_spec() == with_length_spec(
            perp_left(speed_missile),
            floor_root(a.speed_spec().norm_sq()),
        ),
        a.split_spec(speed_missile).1.speed_spec() == with_length_spec(
            perp_right(speed_missile),
            floor_root(a.speed_spec().norm_sq()),
        ),
{
}

} // verus!
