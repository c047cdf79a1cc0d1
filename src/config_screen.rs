use crate::geometry::{Field, Vector2, MAX_EXTENT, UNIT};
use crate::round::{MAX_SPEED_FACTOR, MIN_SPEED_FACTOR};
use vstd::prelude::*;

verus! {

/// Fewest asteroids a round may start with.
pub const MIN_ASTEROIDS: i32 = 1;

/// Most asteroids a round may start with.
pub const MAX_ASTEROIDS: i32 = 25;

/// Left end of a slider centred on a screen of width `width`.
pub open spec fn slider_x(width: int, slider_width: int) -> int {
    width / 2 - slider_width / 2
}

/// Height of the slider for the number of asteroids: two fifths down the screen.
pub open spec fn count_slider_y(height: int) -> int {
    height * 2 / 5
}

/// Height of the slider for the speed: fifty pixels below the middle.
pub open spec fn speed_slider_y(height: int) -> int {
    height / 2 + 50 * UNIT
}

/// The pointer is over a slider: between its ends and within ten pixels of its line.
pub open spec fn over_slider(mouse: Vector2, x: int, y: int, slider_width: int) -> bool {
    x <= mouse.x <= x + slider_width && -10 * UNIT <= mouse.y - y <= 10 * UNIT
}

/// Number of asteroids for a pointer at `mouse_x` over a slider starting at `x`.
pub open spec fn count_at(mouse_x: int, x: int, slider_width: int) -> int {
    (mouse_x - x) * (MAX_ASTEROIDS - MIN_ASTEROIDS) / slider_width + MIN_ASTEROIDS
}

/// Speed factor, in thousandths, for a pointer at `mouse_x` over a slider starting at `x`.
pub open spec fn speed_at(mouse_x: int, x: int, slider_width: int) -> int {
    (mouse_x - x) * (MAX_SPEED_FACTOR - MIN_SPEED_FACTOR) / slider_width + MIN_SPEED_FACTOR
}

/// The pointer is strictly inside the rectangle at `corner` of size `size`.
pub open spec fn inside(mouse: Vector2, corner: (int, int), size: Vector2) -> bool {
    corner.0 < mouse.x < corner.0 + size.x && corner.1 < mouse.y < corner.1 + size.y
}

/// Top-left corner of the start button: centred, three fifths down the screen.
pub open spec fn start_corner(field: Field, size: Vector2) -> (int, int) {
    (field.width / 2 - size.x / 2, field.height * 3 / 5)
}

/// Top-left corner of the exit button: ten pixels below the start button.
pub open spec fn exit_corner(field: Field, size: Vector2) -> (int, int) {
    (field.width / 2 - size.x / 2, field.height * 3 / 5 + size.y + 10 * UNIT)
}

/// A slider as drawn: its left end, its height, its width, and the position
/// of its current value.
#[derive(Clone, Copy, Debug, PartialEq, Eq, Structural)]
pub struct SliderLayout {
    pub x: i64,
    pub y: i64,
    pub width: i64,
    pub value_x: i64,
}

/// The settings of the next round, chosen before it starts, and the message
/// that ended the last one.
pub struct ConfigScreen {
    asteroid_count: i32,
    /// Speed factor, in thousandths.
    asteroid_speed: i64,
    slider_width: i64,
    button_size: Vector2,
    end_message: Option<String>,
}

impl ConfigScreen {
    pub closed spec fn count_spec(&self) -> i32 {
        self.asteroid_count
    }

    pub closed spec fn speed_spec(&self) -> i64 {
        self.asteroid_speed
    }

    pub closed spec fn slider_width_spec(&self) -> i64 {
        self.slider_width
    }

    pub closed spec fn button_size_spec(&self) -> Vector2 {
        self.button_size
    }

    pub closed spec fn message_spec(&self) -> Option<Seq<char>> {
        match self.end_message {
            Some(m) => Some(m@),
            None => None,
        }
    }

    /// Settings within their ranges, and a layout that fits any screen.
    pub open spec fn wf(&self) -> bool {
        &&& MIN_ASTEROIDS <= self.count_spec() <= MAX_ASTEROIDS
        &&& MIN_SPEED_FACTOR <= self.speed_spec() <= MAX_SPEED_FACTOR
        &&& 0 < self.slider_width_spec() <= MAX_EXTENT
        &&& 0 <= self.button_size_spec().x <= MAX_EXTENT
        &&& 0 <= self.button_size_spec().y <= MAX_EXTENT
    }

    /// Ten asteroids at speed 1.0, a 300-pixel slider, 200 by 50 pixel buttons, no message.
    pub fn new() -> (r: Self)
        ensures
            r.wf(),
            r.count_spec() == 10,
            r.speed_spec() == 1000,
            r.slider_width_spec() == 300 * UNIT,
            r.button_size_spec().x == 200 * UNIT,
            r.button_size_spec().y == 50 * UNIT,
            r.message_spec() is None,
    {
        ConfigScreen {
            asteroid_count: 10,
            asteroid_speed: 1000,
            slider_width: 300 * UNIT,
            button_size: Vector2 { x: 200 * UNIT, y: 50 * UNIT },
            end_message: None,
        }
    }

    /// Follows the pointer: with the button held over a slider, the slider's
    /// setting takes the value under the pointer.
    pub fn update(&mut self, field: Field, mouse: Vector2, button_down: bool)
        requires
            old(self).wf(),
            field.wf(),
        ensures
            final(self).wf(),
            final(self).slider_width_spec() == old(self).slider_width_spec(),
            final(self).button_size_spec() == old(self).button_size_spec(),
            final(self).message_spec() == old(self).message_spec(),
            ({
                let sw = old(self).slider_width_spec() as int;
                let x = slider_x(field.width as int, sw);
                &&& final(self).count_spec() == if button_down && over_slider(
                    mouse,
                    x,
                    count_slider_y(field.height as int),
                    sw,
                ) {
                    count_at(mouse.x as int, x, sw)
                } else {
                    old(self).count_spec() as int
                }
                &&& final(self).speed_spec() == if button_down && over_slider(
                    mouse,
                    x,
                    speed_slider_y(field.height as int),
                    sw,
                ) {
                    speed_at(mouse.x as int, x, sw)
                } else {
                    old(self).speed_spec() as int
                }
            }),
    {
        let sw = self.slider_width as i128;
        let x = field.width as i128 / 2 - sw / 2;
        let mx = mouse.x as i128;
        let my = mouse.y as i128;
        let count_y = field.height as i128 * 2 / 5;
        let reach = 10 * UNIT as i128;
        if button_down && x <= mx && mx <= x + sw && -reach <= my - count_y && my - count_y <= reach {
            let c = (mx - x) * 24 / sw + 1;
            assert(0 <= (mx - x) * 24 <= sw * 24) by (nonlinear_arith)
                requires
                    0 <= mx - x <= sw,
            ;
            proof {
                vstd::arithmetic::div_mod::lemma_div_pos_is_pos((mx - x) * 24, sw as int);
                vstd::arithmetic::div_mod::lemma_multiply_divide_le((mx - x) * 24, sw as int, 24);
            }
            self.asteroid_count = c as i32;
        }
        let speed_y = field.height as i128 / 2 + 50 * UNIT as i128;
        if button_down && x <= mx && mx <= x + sw && -reach <= my - speed_y && my - speed_y <= reach {
            let v = (mx - x) * 4700 / sw + 300;
            assert(0 <= (mx - x) * 4700 <= sw * 4700) by (nonlinear_arith)
                requires
                    0 <= mx - x <= sw,
            ;
            proof {
                vstd::arithmetic::div_mod::lemma_div_pos_is_pos((mx - x) * 4700, sw as int);
                vstd::arithmetic::div_mod::lemma_multiply_divide_le((mx - x) * 4700, sw as int, 4700);
            }
            self.asteroid_speed = v as i64;
        }
    }

    /// The slider for the number of asteroids, as drawn on `field`.
    pub fn count_slider(&self, field: Field) -> (r: SliderLayout)
        requires
            self.wf(),
            field.wf(),
        ensures
            r.x == slider_x(field.width as int, self.slider_width_spec() as int),
            r.y == count_slider_y(field.height as int),
            r.width == self.slider_width_spec(),
            r.value_x == r.x + (self.count_spec() - MIN_ASTEROIDS) * self.slider_width_spec() / (
            MAX_ASTEROIDS - MIN_ASTEROIDS),
    {
        let x = field.width / 2 - self.slider_width / 2;
        assert(0 <= (self.asteroid_count - 1) * self.slider_width <= 24 * MAX_EXTENT) by (nonlinear_arith)
            requires
                0 <= self.asteroid_count - 1 <= 24,
                0 < self.slider_width <= MAX_EXTENT,
        ;
        let step = (self.asteroid_count as i64 - 1) * self.slider_width;
        SliderLayout { x, y: field.height * 2 / 5, width: self.slider_width, value_x: x + step / 24 }
    }

    /// The slider for the speed, as drawn on `field`.
    pub fn speed_slider(&self, field: Field) -> (r: SliderLayout)
        requires
            self.wf(),
            field.wf(),
        ensures
            r.x == slider_x(field.width as int, self.slider_width_spec() as int),
            r.y == speed_slider_y(field.height as int),
            r.width == self.slider_width_spec(),
            r.value_x == r.x + (self.speed_spec() - MIN_SPEED_FACTOR) * self.slider_width_spec() / (
            MAX_SPEED_FACTOR - MIN_SPEED_FACTOR),
    {
        let x = field.width / 2 - self.slider_width / 2;
        assert(0 <= (self.asteroid_speed - 300) * self.slider_width <= 4700 * MAX_EXTENT) by (nonlinear_arith)
            requires
                0 <= self.asteroid_speed - 300 <= 4700,
                0 < self.slider_width <= MAX_EXTENT,
        ;
        let step = (self.asteroid_speed - 300) as i128 * self.slider_width as i128;
        proof {
            vstd::arithmetic::div_mod::lemma_div_pos_is_pos(step as int, 4700);
            vstd::arithmetic::div_mod::lemma_multiply_divide_le(step as int, 4700, MAX_EXTENT as int);
        }
        SliderLayout {
            x,
            y: field.height / 2 + 50 * UNIT,
            width: self.slider_width,
            value_x: x + (step / 4700) as i64,
        }
    }

    /// Top-left corner of the start button on `field`.
    pub fn start_button(&self, field: Field) -> (r: Vector2)
        requires
            self.wf(),
            field.wf(),
        ensures
            (r.x as int, r.y as int) == start_corner(field, self.button_size_spec()),
    {
        Vector2 { x: field.width / 2 - self.button_size.x / 2, y: field.height * 3 / 5 }
    }

    /// Top-left corner of the exit button on `field`.
    pub fn exit_button(&self, field: Field) -> (r: Vector2)
        requires
            self.wf(),
            field.wf(),
        ensures
            (r.x as int, r.y as int) == exit_corner(field, self.button_size_spec()),
    {
        let start = self.start_button(field);
        Vector2 { x: start.x, y: start.y + self.button_size.y + 10 * UNIT }
    }

    /// A click strictly inside the start button.
    pub fn is_start_pressed(&self, field: Field, mouse: Vector2, clicked: bool) -> (r: bool)
        requires
            self.wf(),
            field.wf(),
        ensures
            r == (clicked && inside(mouse, start_corner(field, self.button_size_spec()), self.button_size_spec())),
    {
        let corner = self.start_button(field);
        clicked && corner.x < mouse.x && (mouse.x as i128) < corner.x as i128 + self.button_size.x as i128
            && corner.y < mouse.y && (mouse.y as i128) < corner.y as i128 + self.button_size.y as i128
    }

    /// A click strictly inside the exit button.
    pub fn is_exit_pressed(&self, field: Field, mouse: Vector2, clicked: bool) -> (r: bool)
        requires
            self.wf(),
            field.wf(),
        ensures
            r == (clicked && inside(mouse, exit_corner(field, self.button_size_spec()), self.button_size_spec())),
    {
        let corner = self.exit_button(field);
        clicked && corner.x < mouse.x && (mouse.x as i128) < corner.x as i128 + self.button_size.x as i128
            && corner.y < mouse.y && (mouse.y as i128) < corner.y as i128 + self.button_size.y as i128
    }

    pub fn get_asteroid_count(&self) -> (r: i32)
        ensures
            r == self.count_spec(),
    {
        self.asteroid_count
    }

    /// The speed factor, in thousandths.
    pub fn get_asteroid_speed(&self) -> (r: i64)
        ensures
            r == self.speed_spec(),
    {
        self.asteroid_speed
    }

    pub fn get_button_size(&self) -> (r: Vector2)
        ensures
            r == self.button_size_spec(),
    {
        self.button_size
    }

    pub fn set_end_message(&mut self, message: &str)
        ensures
            final(self).message_spec() == Some(message@),
            final(self).count_spec() == old(self).count_spec(),
            final(self).speed_spec() == old(self).speed_spec(),
            final(self).slider_width_spec() == old(self).slider_width_spec(),
            final(self).button_size_spec() == old(self).button_size_spec(),
    {
        self.end_message = Some(message.to_owned());
    }

    pub fn get_end_message(&self) -> (r: Option<&String>)
        ensures
            match r {
                Some(m) => self.message_spec() == Some(m@),
                None => self.message_spec() is None,
            },
    {
        self.end_message.as_ref()
    }
}

} // verus!
