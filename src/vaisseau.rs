use crate::asteroid::Asteroid;
use crate::geometry::{
    div_trunc, lemma_speed_components, mul_div, sq,
    with_length, with_length_spec, wrap_position, wrap_spec, Field, Vector2, MAX_SPEED, UNIT,
};
use crate::missile::{missile_speed, Missile};
use crate::stellar_object::StellarObject;
use vstd::prelude::*;

verus! {

/// Shield points of a new craft.
pub const SHIELD_START: i32 = 5;

/// Least time between two shots, in milliseconds.
pub const FIRE_COOLDOWN: i64 = 500;

/// Square of the craft's top speed of one pixel per tick.
pub const TOP_SPEED_SQ: i128 = 1_000_000;

/// Squared speed under which a coasting craft stops (a hundredth of a pixel per tick).
pub const REST_SPEED_SQ: i128 = 100;

/// Shield damage from an asteroid of the given level.
pub open spec fn damage_of(level: u8) -> int {
    if level == 1 {
        1
    } else if level == 2 {
        2
    } else if level == 3 {
        3
    } else {
        0
    }
}

/// `v` brought into the range of `i32`.
pub open spec fn clamp_i32(v: int) -> int {
    if v < i32::MIN {
        i32::MIN as int
    } else if v > i32::MAX {
        i32::MAX as int
    } else {
        v
    }
}

/// Friction on a coasting craft: the speed times 0.995, rounded toward zero.
pub open spec fn friction_spec(v: Vector2) -> Vector2 {
    Vector2 { x: div_trunc(v.x * 995, 1000) as i64, y: div_trunc(v.y * 995, 1000) as i64 }
}

/// The craft's speed after one tick of thrust. Forward thrust pushes against
/// `bearing`, backward thrust along it; with neither, friction slows the craft
/// and a crawl stops it. A speed above one pixel per tick is brought back to it.
pub open spec fn thrust_spec(speed: Vector2, forward: bool, backward: bool, bearing: Vector2) -> Vector2 {
    let base = if forward || backward {
        speed
    } else if speed.norm_sq() > REST_SPEED_SQ {
        friction_spec(speed)
    } else {
        Vector2 { x: 0, y: 0 }
    };
    let v = if forward {
        Vector2 { x: (base.x - bearing.x) as i64, y: (base.y - bearing.y) as i64 }
    } else if backward {
        Vector2 { x: (base.x + bearing.x) as i64, y: (base.y + bearing.y) as i64 }
    } else {
        base
    };
    if v.norm_sq() > sq(UNIT as int) {
        with_length_spec(v, UNIT as int)
    } else {
        v
    }
}

/// The player's craft.
#[derive(Clone, Copy, Debug)]
pub struct Vaisseau {
    position: Vector2,
    /// Heading, in tenths of a radian, clockwise; not reduced modulo a turn.
    rotation: i64,
    speed: Vector2,
    /// The round is lost once this drops below zero.
    shield: i32,
    /// Time of the last shot, in milliseconds.
    last_shot: i64,
}

impl Vaisseau {
    pub closed spec fn rotation_spec(&self) -> i64 {
        self.rotation
    }

    pub closed spec fn shield_spec(&self) -> i32 {
        self.shield
    }

    pub closed spec fn last_shot_spec(&self) -> i64 {
        self.last_shot
    }

    /// A craft at rest, heading up, with a full shield: at `position`, or at
    /// the centre of `field` without it; its last shot at `last_shot`, or at
    /// `now` without it.
    pub fn new(position: Option<Vector2>, last_shot: Option<i64>, field: Field, now: i64) -> (r: Self)
        requires
            position matches Some(p) ==> p.in_play(),
            last_shot matches Some(t) ==> t >= 0,
            field.wf(),
            now >= 0,
        ensures
            r.wf(),
            match position {
                Some(p) => r.position_spec() == p,
                None => r.position_spec().x == field.width / 2 && r.position_spec().y == field.height / 2,
            },
            r.speed_spec() == Vector2::zero_spec(),
            r.rotation_spec() == 0,
            r.shield_spec() == SHIELD_START,
            r.last_shot_spec() == match last_shot {
                Some(t) => t,
                None => now,
            },
    {
        let position = match position {
            Some(p) => p,
            None => field.center(),
        };
        let last_shot = match last_shot {
            Some(t) => t,
            None => now,
        };
        Vaisseau { position, rotation: 0, speed: Vector2 { x: 0, y: 0 }, shield: SHIELD_START, last_shot }
    }

    pub fn get_shield(&self) -> (r: i32)
        ensures
            r == self.shield_spec(),
    {
        self.shield
    }

    /// Takes `dmg` points off the shield, which stays within the range of `i32`.
    pub fn dmg_shield(&mut self, dmg: i32)
        ensures
            final(self).shield_spec() == clamp_i32(old(self).shield_spec() - dmg),
            final(self).position_spec() == old(self).position_spec(),
            final(self).speed_spec() == old(self).speed_spec(),
            final(self).rotation_spec() == old(self).rotation_spec(),
            final(self).last_shot_spec() == old(self).last_shot_spec(),
            old(self).wf() ==> final(self).wf(),
    {
        let v = self.shield as i64 - dmg as i64;
        self.shield = if v < i32::MIN as i64 {
            i32::MIN
        } else if v > i32::MAX as i64 {
            i32::MAX
        } else {
            v as i32
        };
    }

    pub fn get_rotation(&self) -> (r: i64)
        ensures
            r == self.rotation_spec(),
    {
        self.rotation
    }

    /// Turns the craft a tenth of a radian for each turn key held.
    pub fn rotate(&mut self, left: bool, right: bool)
        requires
            i64::MIN < old(self).rotation_spec() < i64::MAX,
        ensures
            final(self).rotation_spec() == old(self).rotation_spec() + (if right {
                1int
            } else {
                0int
            }) - (if left {
                1int
            } else {
                0int
            }),
            final(self).position_spec() == old(self).position_spec(),
            final(self).speed_spec() == old(self).speed_spec(),
            final(self).shield_spec() == old(self).shield_spec(),
            final(self).last_shot_spec() == old(self).last_shot_spec(),
            old(self).wf() ==> final(self).wf(),
    {
        if right {
            self.rotation = self.rotation + 1;
        }
        if left {
            self.rotation = self.rotation - 1;
        }
    }

    /// Applies thrust or friction for one tick; `bearing` is the `(sin, cos)` of
    /// the craft's current heading.
    pub fn accelerate(&mut self, forward: bool, backward: bool, bearing: Vector2)
        requires
            old(self).wf(),
            bearing.is_bearing(),
        ensures
            final(self).wf(),
            final(self).speed_spec() == thrust_spec(old(self).speed_spec(), forward, backward, bearing),
            final(self).position_spec() == old(self).position_spec(),
            final(self).rotation_spec() == old(self).rotation_spec(),
            final(self).shield_spec() == old(self).shield_spec(),
            final(self).last_shot_spec() == old(self).last_shot_spec(),
    {
        proof {
            lemma_speed_components(self.speed);
        }
        let base = if forward || backward {
            self.speed
        } else if self.speed.length_squared() > REST_SPEED_SQ {
            Vector2 { x: mul_div(self.speed.x, 995, 1000), y: mul_div(self.speed.y, 995, 1000) }
        } else {
            Vector2 { x: 0, y: 0 }
        };
        let v = if forward {
            Vector2 { x: base.x - bearing.x, y: base.y - bearing.y }
        } else if backward {
            Vector2 { x: base.x + bearing.x, y: base.y + bearing.y }
        } else {
            base
        };
        let n = v.length_squared();
        if n > TOP_SPEED_SQ {
            self.speed = with_length(v, UNIT);
        } else {
            self.speed = v;
        }
        assert(sq(UNIT as int) <= sq(MAX_SPEED as int));
    }

    /// Fires a missile along `bearing` when the fire key is held and the last
    /// shot is at least `FIRE_COOLDOWN` old at `current_time`.
    pub fn fire_missile(&mut self, current_time: i64, fire_held: bool, bearing: Vector2) -> (r:
        Option<Missile>)
        requires
            old(self).wf(),
            current_time >= 0,
            bearing.is_bearing(),
        ensures
            final(self).wf(),
            final(self).position_spec() == old(self).position_spec(),
            final(self).speed_spec() == old(self).speed_spec(),
            final(self).rotation_spec() == old(self).rotation_spec(),
            final(self).shield_spec() == old(self).shield_spec(),
            (fire_held && current_time - old(self).last_shot_spec() >= FIRE_COOLDOWN) ==> {
                &&& r matches Some(m)
                &&& m.wf()
                &&& !m.collided_spec()
                &&& m.position_spec() == old(self).position_spec()
                &&& m.speed_spec() == missile_speed(bearing)
                &&& final(self).last_shot_spec() == current_time
            },
            !(fire_held && current_time - old(self).last_shot_spec() >= FIRE_COOLDOWN) ==> {
                &&& r is None
                &&& final(self).last_shot_spec() == old(self).last_shot_spec()
            },
    {
        if fire_held && current_time - self.last_shot >= FIRE_COOLDOWN {
            self.last_shot = current_time;
            Some(Missile::new(self.position, bearing))
        } else {
            None
        }
    }
}

impl Vector2 {
    pub open spec fn zero_spec() -> Vector2 {
        Vector2 { x: 0, y: 0 }
    }
}

impl StellarObject for Vaisseau {
    closed spec fn position_spec(&self) -> Vector2 {
        self.position
    }

    closed spec fn speed_spec(&self) -> Vector2 {
        self.speed
    }

    open spec fn wf(&self) -> bool {
        self.position_spec().in_play() && self.speed_spec().is_speed() && self.last_shot_spec() >= 0
    }

    open spec fn can_move(&self, field: Field) -> bool {
        field.wf()
    }

    fn get_position(&self) -> (r: Vector2) {
        self.position
    }

    fn set_position(&mut self, new_position: Vector2)
        ensures
            final(self).rotation_spec() == old(self).rotation_spec(),
            final(self).shield_spec() == old(self).shield_spec(),
            final(self).last_shot_spec() == old(self).last_shot_spec(),
    {
        self.position = new_position;
    }

    fn get_speed(&self) -> (r: Vector2) {
        self.speed
    }

    fn set_speed(&mut self, new_speed: Vector2)
        ensures
            final(self).rotation_spec() == old(self).rotation_spec(),
            final(self).shield_spec() == old(self).shield_spec(),
            final(self).last_shot_spec() == old(self).last_shot_spec(),
    {
        self.speed = new_speed;
    }

    /// Moves by the speed, then wraps each coordinate across the screen. A
    /// move that lands within one screen side of the screen ends on it.
    fn update_position(&mut self, field: Field)
        ensures
            final(self).position_spec() == (Vector2 {
                x: wrap_spec(old(self).position_spec().x + old(self).speed_spec().x, field.width as int) as i64,
                y: wrap_spec(old(self).position_spec().y + old(self).speed_spec().y, field.height as int) as i64,
            }),
            -field.width <= old(self).position_spec().x + old(self).speed_spec().x <= 2 * field.width
                ==> 0 <= final(self).position_spec().x <= field.width,
            -field.height <= old(self).position_spec().y + old(self).speed_spec().y <= 2 * field.height
                ==> 0 <= final(self).position_spec().y <= field.height,
            final(self).rotation_spec() == old(self).rotation_spec(),
            final(self).shield_spec() == old(self).shield_spec(),
            final(self).last_shot_spec() == old(self).last_shot_spec(),
    {
        proof {
            lemma_speed_components(self.speed);
        }
        let x = wrap_position(self.position.x + self.speed.x, field.width);
        let y = wrap_position(self.position.y + self.speed.y, field.height);
        self.position = Vector2 { x, y };
    }

    /// Takes the damage of an asteroid of level `asteroid_level` off the shield.
    fn handle_collision(&mut self, asteroid_level: u8, status: bool, speed_missile: Vector2) -> (r:
        Option<(Asteroid, Asteroid)>)
        ensures
            final(self).shield_spec() == clamp_i32(old(self).shield_spec() - damage_of(asteroid_level)),
            final(self).position_spec() == old(self).position_spec(),
            final(self).speed_spec() == old(self).speed_spec(),
            final(self).rotation_spec() == old(self).rotation_spec(),
            final(self).last_shot_spec() == old(self).last_shot_spec(),
            r is None,
    {
        let dmg: i32 = match asteroid_level {
            1 => 1,
            2 => 2,
            3 => 3,
            _ => 0,
        };
        self.dmg_shield(dmg);
        None
    }
}

} // verus!
