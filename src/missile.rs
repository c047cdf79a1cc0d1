use crate::asteroid::Asteroid;
use crate::geometry::{coord_in_play, div_trunc, lemma_speed_components, mul_div, Field, Vector2};
use crate::stellar_object::StellarObject;
use vstd::prelude::*;

verus! {

/// The speed of a missile fired along `bearing`, the `(sin, cos)` of the
/// firing angle: `(1.5 sin, -1.5 cos)`, rounded toward zero. Angle 0 points
/// up the screen.
pub open spec fn missile_speed(bearing: Vector2) -> Vector2 {
    Vector2 { x: div_trunc(bearing.x * 3, 2) as i64, y: div_trunc(-bearing.y * 3, 2) as i64 }
}

/// `p` lies outside `[0, width] x [0, height]`.
pub open spec fn off_screen(p: Vector2, width: int, height: int) -> bool {
    p.x < 0 || p.x > width || p.y < 0 || p.y > height
}

/// A missile: it flies straight, never wraps, and is gone once it leaves the
/// screen or hits an asteroid.
#[derive(Clone, Copy, Debug)]
pub struct Missile {
    position: Vector2,
    speed: Vector2,
    has_collided: bool,
}

impl Missile {
    pub closed spec fn collided_spec(&self) -> bool {
        self.has_collided
    }

    /// The missile after one move: shifted by its speed.
    pub closed spec fn advanced(self) -> Missile {
        Missile {
            position: Vector2 {
                x: (self.position.x + self.speed.x) as i64,
                y: (self.position.y + self.speed.y) as i64,
            },
            ..self
        }
    }

    /// The missile after `n` moves.
    pub closed spec fn flown(self, n: nat) -> Missile
        decreases n,
    {
        if n == 0 {
            self
        } else {
            self.flown((n - 1) as nat).advanced()
        }
    }

    /// What a move changes: only the position, by the speed.
    pub proof fn lemma_advanced(self)
        ensures
            self.advanced().position_spec() == (Vector2 {
                x: (self.position_spec().x + self.speed_spec().x) as i64,
                y: (self.position_spec().y + self.speed_spec().y) as i64,
            }),
            self.advanced().speed_spec() == self.speed_spec(),
            self.advanced().collided_spec() == self.collided_spec(),
    {
    }

    /// A missile at `position`, fired along `bearing`.
    pub fn new(position: Vector2, bearing: Vector2) -> (r: Self)
        requires
            position.in_play(),
            bearing.is_bearing(),
        ensures
            r.wf(),
            r.position_spec() == position,
            r.speed_spec() == missile_speed(bearing),
            !r.collided_spec(),
    {
        let speed = Vector2 { x: mul_div(bearing.x, 3, 2), y: mul_div(-bearing.y, 3, 2) };
        assert(speed.is_speed()) by (nonlinear_arith)
            requires
                -1500 <= speed.x <= 1500,
                -1500 <= speed.y <= 1500,
        ;
        Missile { position, speed, has_collided: false }
    }

    /// Whether the missile is outside `[0, screen_width] x [0, screen_height]`.
    pub fn is_off_screen(&self, screen_width: i64, screen_height: i64) -> (r: bool)
        ensures
            r == off_screen(self.position_spec(), screen_width as int, screen_height as int),
    {
        self.position.x < 0 || self.position.x > screen_width || self.position.y < 0
            || self.position.y > screen_height
    }

    pub fn get_collided(&self) -> (r: bool)
        ensures
            r == self.collided_spec(),
    {
        self.has_collided
    }
}

impl StellarObject for Missile {
    closed spec fn position_spec(&self) -> Vector2 {
        self.position
    }

    closed spec fn speed_spec(&self) -> Vector2 {
        self.speed
    }

    open spec fn wf(&self) -> bool {
        self.position_spec().in_play() && self.speed_spec().is_speed()
    }

    /// A missile can move while its next position is still in play.
    open spec fn can_move(&self, field: Field) -> bool {
        (Vector2 {
            x: (self.position_spec().x + self.speed_spec().x) as i64,
            y: (self.position_spec().y + self.speed_spec().y) as i64,
        }).in_play()
    }

    fn get_position(&self) -> (r: Vector2) {
        self.position
    }

    fn set_position(&mut self, new_position: Vector2)
        ensures
            final(self).collided_spec() == old(self).collided_spec(),
    {
        self.position = new_position;
    }

    fn get_speed(&self) -> (r: Vector2) {
        self.speed
    }

    fn set_speed(&mut self, new_speed: Vector2)
        ensures
            final(self).collided_spec() == old(self).collided_spec(),
    {
        self.speed = new_speed;
    }

    /// Moves by the speed; a missile does not wrap.
    fn update_position(&mut self, field: Field)
        ensures
            *final(self) == old(self).advanced(),
            final(self).position_spec().x == old(self).position_spec().x + old(self).speed_spec().x,
            final(self).position_spec().y == old(self).position_spec().y + old(self).speed_spec().y,
            final(self).collided_spec() == old(self).collided_spec(),
    {
        proof {
            lemma_speed_components(self.speed);
        }
        self.position = Vector2 { x: self.position.x + self.speed.x, y: self.position.y + self.speed.y };
    }

    /// Marks the missile as spent, whatever it hit.
    fn handle_collision(&mut self, asteroid_level: u8, status: bool, speed_missile: Vector2) -> (r:
        Option<(Asteroid, Asteroid)>)
        ensures
            final(self).position_spec() == old(self).position_spec(),
            final(self).speed_spec() == old(self).speed_spec(),
            final(self).collided_spec(),
            r is None,
    {
        self.has_collided = true;
        None
    }
}

/// A missile that starts at `p` with speed `v` is at `p + n * v` after `n`
/// moves, while that point is in play, and is off the screen exactly when
/// that point lies outside `[0, width] x [0, height]`.
pub proof fn missile_trajectory(m: Missile, n: nat, width: int, height: int)
    requires
        m.wf(),
        coord_in_play(m.position_spec().x + n * m.speed_spec().x),
        coord_in_play(m.position_spec().y + n * m.speed_spec().y),
    ensures
        m.flown(n).position_spec().x == m.position_spec().x + n * m.speed_spec().x,
        m.flown(n).position_spec().y == m.position_spec().y + n * m.speed_spec().y,
        m.flown(n).speed_spec() == m.speed_spec(),
        m.flown(n).collided_spec() == m.collided_spec(),
        off_screen(m.flown(n).position_spec(), width, height) <==> {
            ||| m.position_spec().x + n * m.speed_spec().x < 0
            ||| m.position_spec().x + n * m.speed_spec().x > width
            ||| m.position_spec().y + n * m.speed_spec().y < 0
            ||| m.position_spec().y + n * m.speed_spec().y > height
        },
    decreases n,
{
    if n > 0 {
        let (px, py) = (m.position.x as int, m.position.y as int);
        let (vx, vy) = (m.speed.x as int, m.speed.y as int);
        let k = (n - 1) as nat;
        assert(k * vx + vx == n * vx && k * vy + vy == n * vy) by (nonlinear_arith)
            requires
                k == n - 1,
        ;
        assert((0 <= k * vx <= n * vx || n * vx <= k * vx <= 0) && (0 <= k * vy <= n * vy || n * vy
            <= k * vy <= 0)) by (nonlinear_arith)
            requires
                k == n - 1,
                n > 0,
        ;
        missile_trajectory(m, k, width, height);
        assert(m.flown(n) == m.flown(k).advanced());
    } else {
        assert(n * m.speed.x == 0 && n * m.speed.y == 0) by (nonlinear_arith)
            requires
                n == 0,
        ;
    }
}

} // verus!
