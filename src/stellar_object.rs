use crate::asteroid::Asteroid;
use crate::geometry::{Field, Vector2};
use vstd::prelude::*;

verus! {

/// What every object of the game offers: a position, a speed, a move per
/// tick and the consequences of a collision.
pub trait StellarObject: Sized {
    /// Where the object is.
    spec fn position_spec(&self) -> Vector2;

    /// How far the object moves in one tick.
    spec fn speed_spec(&self) -> Vector2;

    /// The object's invariant.
    spec fn wf(&self) -> bool;

    /// What one move asks of the object and of the playfield.
    spec fn can_move(&self, field: Field) -> bool;

    fn get_position(&self) -> (r: Vector2)
        ensures
            r == self.position_spec(),
    ;

    fn set_position(&mut self, new_position: Vector2)
        requires
            old(self).wf(),
            new_position.in_play(),
        ensures
            final(self).wf(),
            final(self).position_spec() == new_position,
            final(self).speed_spec() == old(self).speed_spec(),
    ;

    fn get_speed(&self) -> (r: Vector2)
        ensures
            r == self.speed_spec(),
    ;

    fn set_speed(&mut self, new_speed: Vector2)
        requires
            old(self).wf(),
            new_speed.is_speed(),
        ensures
            final(self).wf(),
            final(self).speed_spec() == new_speed,
            final(self).position_spec() == old(self).position_spec(),
    ;

    /// Advances the object by its speed, for one tick.
    fn update_position(&mut self, field: Field)
        requires
            old(self).wf(),
            old(self).can_move(field),
        ensures
            final(self).wf(),
            final(self).speed_spec() == old(self).speed_spec(),
    ;

    /// Applies a collision to this object. `asteroid_level` and `status` tell
    /// what was hit and whether the hit holds; `speed_missile` is the speed of
    /// the missile involved, if any. Only a splitting asteroid returns a pair.
    fn handle_collision(&mut self, asteroid_level: u8, status: bool, speed_missile: Vector2) -> (r:
        Option<(Asteroid, Asteroid)>)
        requires
            old(self).wf(),
            speed_missile.is_speed(),
        ensures
            final(self).wf(),
    ;
}

} // verus!
