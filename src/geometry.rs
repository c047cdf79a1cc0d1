use vstd::arithmetic::div_mod::{lemma_div_pos_is_pos, lemma_multiply_divide_le};
use vstd::prelude::*;

verus! {

/// Sub-units per pixel: every length, position and speed of the game is an
/// integer count of thousandths of a pixel.
pub const UNIT: i64 = 1000;

/// Largest screen side, object size or interaction radius, in sub-units.
pub const MAX_EXTENT: i64 = 1_000_000_000_000;

/// Largest speed component, in sub-units per tick (a hundred pixels per tick).
pub const MAX_SPEED: i64 = 100_000;

/// Smallest screen side: no object crosses a whole screen in one tick.
pub const MIN_SIDE: i64 = 100_000;

/// Largest argument of `integer_sqrt`.
pub const SQRT_LIMIT: i128 = 100_000_000_000_000_000_000_000_000;

/// A pair of integer coordinates, in sub-units: a position, a speed or a direction.
#[derive(Clone, Copy, Debug, PartialEq, Eq, Structural)]
pub struct Vector2 {
    pub x: i64,
    pub y: i64,
}

/// A coordinate that objects in play may hold: one extent before the origin,
/// three after it.
pub open spec fn coord_in_play(c: int) -> bool {
    -MAX_EXTENT <= c <= 3 * MAX_EXTENT
}

pub open spec fn sq(a: int) -> int {
    a * a
}

/// Squared Euclidean distance between two points.
pub open spec fn dist_sq(a: Vector2, b: Vector2) -> int {
    sq(a.x - b.x) + sq(a.y - b.y)
}

/// `r` is the integer square root of `n`: the largest `r` with `r * r <= n`.
pub open spec fn is_isqrt(n: int, r: int) -> bool {
    0 <= r && r * r <= n < (r + 1) * (r + 1)
}

/// Division rounded toward zero, for a positive divisor.
pub open spec fn div_trunc(a: int, d: int) -> int {
    if a >= 0 {
        a / d
    } else {
        -((-a) / d)
    }
}

impl Vector2 {
    pub open spec fn in_play(self) -> bool {
        coord_in_play(self.x as int) && coord_in_play(self.y as int)
    }

    /// A speed no longer than `MAX_SPEED`.
    pub open spec fn is_speed(self) -> bool {
        self.norm_sq() <= sq(MAX_SPEED as int)
    }

    /// A direction of length about one pixel: `(sin, cos)` of an angle, in sub-units.
    pub open spec fn is_bearing(self) -> bool {
        -UNIT <= self.x <= UNIT && -UNIT <= self.y <= UNIT
    }

    pub open spec fn norm_sq(self) -> int {
        sq(self.x as int) + sq(self.y as int)
    }

    pub fn new(x: i64, y: i64) -> (r: Vector2)
        ensures
            r.x == x,
            r.y == y,
    {
        Vector2 { x, y }
    }

    pub fn zero() -> (r: Vector2)
        ensures
            r.x == 0,
            r.y == 0,
    {
        Vector2 { x: 0, y: 0 }
    }

    /// Both components within four extents of zero.
    pub open spec fn is_bounded(self) -> bool {
        -4 * MAX_EXTENT <= self.x <= 4 * MAX_EXTENT && -4 * MAX_EXTENT <= self.y <= 4 * MAX_EXTENT
    }

    /// Squared length.
    pub fn length_squared(&self) -> (r: i128)
        requires
            self.is_bounded(),
        ensures
            r == self.norm_sq(),
            0 <= r <= 32 * sq(MAX_EXTENT as int),
    {
        let x = self.x as i128;
        let y = self.y as i128;
        proof {
            lemma_sq_bound(x as int, 4 * MAX_EXTENT);
            lemma_sq_bound(y as int, 4 * MAX_EXTENT);
            lemma_extent_squares();
        }
        x * x + y * y
    }
}

proof fn lemma_extent_squares()
    ensures
        sq(4 * MAX_EXTENT) == 16 * sq(MAX_EXTENT as int),
        32 * sq(MAX_EXTENT as int) < SQRT_LIMIT,
{
    assert(sq(4 * MAX_EXTENT) == 16 * sq(MAX_EXTENT as int)) by (nonlinear_arith);
    assert(32 * sq(MAX_EXTENT as int) < SQRT_LIMIT) by (nonlinear_arith);
}

proof fn lemma_sq_bound(a: int, b: int)
    requires
        -b <= a <= b,
    ensures
        0 <= sq(a) <= sq(b),
{
    assert(0 <= a * a <= b * b) by (nonlinear_arith)
        requires
            -b <= a <= b,
    ;
}

/// Squared distance between two points in play.
pub fn distance_squared(a: Vector2, b: Vector2) -> (r: i128)
    requires
        a.in_play(),
        b.in_play(),
    ensures
        r == dist_sq(a, b),
        0 <= r <= 32 * sq(MAX_EXTENT as int),
{
    let dx = a.x as i128 - b.x as i128;
    let dy = a.y as i128 - b.y as i128;
    proof {
        lemma_sq_bound(dx as int, 4 * MAX_EXTENT);
        lemma_sq_bound(dy as int, 4 * MAX_EXTENT);
        assert(sq(4 * MAX_EXTENT) == 16 * sq(MAX_EXTENT as int));
    }
    dx * dx + dy * dy
}

/// The integer square root of `n`.
pub open spec fn floor_root(n: int) -> int {
    choose|r: int| is_isqrt(n, r)
}

proof fn lemma_isqrt_unique(n: int, a: int, b: int)
    requires
        is_isqrt(n, a),
        is_isqrt(n, b),
    ensures
        a == b,
{
    if a < b {
        assert((a + 1) * (a + 1) <= b * b) by (nonlinear_arith)
            requires
                0 <= a,
                a + 1 <= b,
        ;
    } else if b < a {
        assert((b + 1) * (b + 1) <= a * a) by (nonlinear_arith)
            requires
                0 <= b,
                b + 1 <= a,
        ;
    }
}

/// A speed's components are no larger than `MAX_SPEED`.
pub proof fn lemma_speed_components(v: Vector2)
    requires
        v.is_speed(),
    ensures
        -MAX_SPEED <= v.x <= MAX_SPEED,
        -MAX_SPEED <= v.y <= MAX_SPEED,
{
    lemma_sq_neg(v.x as int);
    lemma_sq_neg(v.y as int);
    assert(-MAX_SPEED <= v.x <= MAX_SPEED) by (nonlinear_arith)
        requires
            sq(v.x as int) <= sq(MAX_SPEED as int),
    ;
    assert(-MAX_SPEED <= v.y <= MAX_SPEED) by (nonlinear_arith)
        requires
            sq(v.y as int) <= sq(MAX_SPEED as int),
    ;
}

/// Integer square root, by bisection.
pub fn integer_sqrt(n: i128) -> (r: i128)
    requires
        0 <= n <= SQRT_LIMIT,
    ensures
        is_isqrt(n as int, r as int),
        r == floor_root(n as int),
{
    let mut lo: i128 = 0;
    let mut hi: i128 = 10_000_000_000_001;
    assert(hi * hi > SQRT_LIMIT);
    while hi - lo > 1
        invariant
            0 <= lo < hi <= 10_000_000_000_001,
            lo * lo <= n,
            n < hi * hi,
        decreases hi - lo,
    {
        let mid = lo + (hi - lo) / 2;
        assert(mid * mid <= 10_000_000_000_001 * 10_000_000_000_001) by (nonlinear_arith)
            requires
                0 <= mid <= 10_000_000_000_001,
        ;
        if mid * mid <= n {
            lo = mid;
        } else {
            hi = mid;
        }
    }
    proof {
        lemma_isqrt_unique(n as int, lo as int, floor_root(n as int));
    }
    lo
}

/// `a * num / den`, rounded toward zero.
pub fn mul_div(a: i64, num: i64, den: i64) -> (r: i64)
    requires
        den > 0,
        -(i64::MAX * den) <= a * num <= i64::MAX * den,
    ensures
        r == div_trunc(a * num, den as int),
{
    let p = a as i128 * num as i128;
    let d = den as i128;
    if p >= 0 {
        proof {
            lemma_multiply_divide_le(p as int, d as int, i64::MAX as int);
            lemma_div_pos_is_pos(p as int, d as int);
        }
        (p / d) as i64
    } else {
        let q = -p;
        proof {
            lemma_multiply_divide_le(q as int, d as int, i64::MAX as int);
            lemma_div_pos_is_pos(q as int, d as int);
        }
        -((q / d) as i64)
    }
}

proof fn lemma_sq_neg(a: int)
    ensures
        sq(-a) == sq(a),
        sq(a) >= 0,
{
    assert(sq(-a) == sq(a)) by (nonlinear_arith);
    assert(sq(a) >= 0) by (nonlinear_arith);
}

proof fn lemma_isqrt_exists(n: int)
    requires
        n >= 0,
    ensures
        exists|r: int| is_isqrt(n, r),
    decreases n,
{
    if n == 0 {
        assert(is_isqrt(0, 0));
    } else {
        lemma_isqrt_exists(n - 1);
        let r = choose|r: int| #[trigger] is_isqrt(n - 1, r);
        if n < (r + 1) * (r + 1) {
            assert(is_isqrt(n, r));
        } else {
            assert(n < (r + 2) * (r + 2)) by (nonlinear_arith)
                requires
                    n - 1 < (r + 1) * (r + 1),
                    r >= 0,
            ;
            assert(is_isqrt(n, r + 1));
        }
    }
}

/// The integer square root of a speed's squared length is at most `MAX_SPEED`.
pub proof fn lemma_floor_root_of_speed(v: Vector2)
    requires
        v.is_speed(),
    ensures
        is_isqrt(v.norm_sq(), floor_root(v.norm_sq())),
        0 <= floor_root(v.norm_sq()) <= MAX_SPEED,
        sq(floor_root(v.norm_sq())) <= v.norm_sq(),
{
    lemma_sq_neg(v.x as int);
    lemma_sq_neg(v.y as int);
    lemma_isqrt_exists(v.norm_sq());
    let r = floor_root(v.norm_sq());
    assert(r <= MAX_SPEED) by (nonlinear_arith)
        requires
            r * r <= v.norm_sq(),
            v.norm_sq() <= sq(MAX_SPEED as int),
            r >= 0,
    ;
}

/// One component `c` of a vector of squared length `n`, brought to a vector
/// of length `len`: the integer square root of `c^2 len^2 / n`, with the sign
/// of `c`. Its size is `|c| len / sqrt(n)` rounded down.
pub open spec fn scaled_component(c: int, len: int, n: int) -> int {
    let r = floor_root(c * c * (len * len) / n);
    if c >= 0 {
        r
    } else {
        -r
    }
}

/// `v` brought to length `len`, each component rounded down in size; the
/// zero vector stays as it is.
pub open spec fn with_length_spec(v: Vector2, len: int) -> Vector2 {
    let n = v.norm_sq();
    if n == 0 {
        v
    } else {
        Vector2 { x: scaled_component(v.x as int, len, n) as i64, y: scaled_component(v.y as int, len, n) as i64 }
    }
}

pub open spec fn abs(a: int) -> int {
    if a >= 0 {
        a
    } else {
        -a
    }
}

/// The size `r` of a scaled component is `|c| len / sqrt(n)` rounded down:
/// `n r^2 <= c^2 len^2 < n (r + 1)^2`.
pub proof fn lemma_scaled_component(c: int, len: int, n: int)
    requires
        n > 0,
        len >= 0,
        c * c <= n,
    ensures
        abs(scaled_component(c, len, n)) == floor_root(c * c * (len * len) / n),
        n * sq(abs(scaled_component(c, len, n))) <= sq(c) * sq(len),
        sq(c) * sq(len) < n * sq(abs(scaled_component(c, len, n)) + 1),
        0 <= abs(scaled_component(c, len, n)) <= len,
        scaled_component(-c, len, n) == -scaled_component(c, len, n),
{
    let a = c * c * (len * len);
    assert(0 <= a) by (nonlinear_arith)
        requires
            len >= 0,
            a == c * c * (len * len),
    ;
    assert((-c) * (-c) * (len * len) == a) by (nonlinear_arith)
        requires
            a == c * c * (len * len),
    ;
    assert(sq(c) * sq(len) == a) by (nonlinear_arith)
        requires
            a == c * c * (len * len),
    ;
    let q = a / n;
    vstd::arithmetic::div_mod::lemma_fundamental_div_mod(a, n);
    vstd::arithmetic::div_mod::lemma_mod_pos_bound(a, n);
    lemma_div_pos_is_pos(a, n);
    lemma_isqrt_exists(q);
    let r = floor_root(q);
    assert(n * q <= a < n * (q + 1)) by (nonlinear_arith)
        requires
            a == n * q + a % n,
            0 <= a % n < n,
    ;
    assert(n * sq(r) <= a) by (nonlinear_arith)
        requires
            r * r <= q,
            n * q <= a,
            n > 0,
    ;
    assert(a < n * sq(r + 1)) by (nonlinear_arith)
        requires
            q < (r + 1) * (r + 1),
            a < n * (q + 1),
            n > 0,
    ;
    if c == 0 {
        assert(q == 0) by (nonlinear_arith)
            requires
                n * q <= a,
                a == c * c * (len * len),
                c == 0,
                q >= 0,
                n > 0,
        ;
        assert(r == 0) by (nonlinear_arith)
            requires
                r * r <= q,
                q == 0,
                r >= 0,
        ;
    }
    assert(r <= len) by (nonlinear_arith)
        requires
            n * (r * r) <= c * c * (len * len),
            c * c <= n,
            n > 0,
            r >= 0,
            len >= 0,
    ;
}

/// Two sizes whose increments reach past `len` make a vector no shorter
/// than `len - 2`.
proof fn lemma_length_floor(x: int, y: int, len: int)
    requires
        x >= 0,
        y >= 0,
        len >= 2,
        sq(x + 1) + sq(y + 1) > sq(len),
    ensures
        sq(x) + sq(y) >= sq(len - 2),
{
    let s = sq(x) + sq(y);
    let t = x + y;
    assert(t * t <= 2 * s) by (nonlinear_arith)
        requires
            s == x * x + y * y,
            t == x + y,
    ;
    assert(s + 2 * t + 2 > len * len) by (nonlinear_arith)
        requires
            (x + 1) * (x + 1) + (y + 1) * (y + 1) > len * len,
            s == x * x + y * y,
            t == x + y,
    ;
    if s < sq(len - 2) {
        assert(2 * t < 3 * (len - 2)) by (nonlinear_arith)
            requires
                t * t <= 2 * s,
                s < (len - 2) * (len - 2),
                t >= 0,
                len >= 2,
        ;
        assert(false) by (nonlinear_arith)
            requires
                s + 2 * t + 2 > len * len,
                s < (len - 2) * (len - 2),
                2 * t < 3 * (len - 2),
                len >= 2,
        ;
    }
}

/// Scaling to length `len` gives a vector no longer than `len` and, but for
/// the zero vector, no shorter than `len - 2`.
pub proof fn lemma_with_length(v: Vector2, len: int)
    requires
        0 <= len <= MAX_EXTENT,
    ensures
        with_length_spec(v, len).norm_sq() <= sq(len),
        v.norm_sq() != 0 ==> {
            &&& with_length_spec(v, len).x as int == scaled_component(v.x as int, len, v.norm_sq())
            &&& with_length_spec(v, len).y as int == scaled_component(v.y as int, len, v.norm_sq())
            &&& sq(abs(with_length_spec(v, len).x as int) + 1) + sq(abs(with_length_spec(v, len).y as int) + 1) > sq(len)
            &&& len >= 2 ==> with_length_spec(v, len).norm_sq() >= sq(len - 2)
        },
{
    let n = v.norm_sq();
    lemma_sq_neg(v.x as int);
    lemma_sq_neg(v.y as int);
    if n != 0 {
        let (vx, vy) = (v.x as int, v.y as int);
        assert(vx * vx <= n && vy * vy <= n);
        lemma_scaled_component(vx, len, n);
        lemma_scaled_component(vy, len, n);
        let x = abs(scaled_component(vx, len, n));
        let y = abs(scaled_component(vy, len, n));
        lemma_sq_neg(scaled_component(vx, len, n));
        lemma_sq_neg(scaled_component(vy, len, n));
        assert(sq(scaled_component(vx, len, n)) == sq(x));
        assert(sq(scaled_component(vy, len, n)) == sq(y));
        assert(sq(vx) * sq(len) + sq(vy) * sq(len) == n * sq(len)) by (nonlinear_arith)
            requires
                n == sq(vx) + sq(vy),
        ;
        assert(sq(x) + sq(y) <= sq(len)) by (nonlinear_arith)
            requires
                n * sq(x) + n * sq(y) <= n * sq(len),
                n > 0,
        ;
        assert(sq(x + 1) + sq(y + 1) > sq(len)) by (nonlinear_arith)
            requires
                n * sq(x + 1) + n * sq(y + 1) > n * sq(len),
                n > 0,
        ;
        if len >= 2 {
            lemma_length_floor(x, y, len);
        }
    }
}

/// One component of `with_length`.
fn scale_component(c: i64, len: i64, n: i128) -> (r: i64)
    requires
        n > 0,
        c * c <= n,
        -4 * MAX_EXTENT <= c <= 4 * MAX_EXTENT,
        0 <= len <= MAX_SPEED,
    ensures
        r == scaled_component(c as int, len as int, n as int),
{
    assert(0 <= c * c <= 16 * MAX_EXTENT * MAX_EXTENT) by (nonlinear_arith)
        requires
            -4 * MAX_EXTENT <= c <= 4 * MAX_EXTENT,
    ;
    assert(0 <= len * len <= MAX_SPEED * MAX_SPEED) by (nonlinear_arith)
        requires
            0 <= len <= MAX_SPEED,
    ;
    let c2 = c as i128 * c as i128;
    let l2 = len as i128 * len as i128;
    assert(0 <= c2 * l2 <= (16 * MAX_EXTENT * MAX_EXTENT) * (MAX_SPEED * MAX_SPEED)) by (nonlinear_arith)
        requires
            0 <= c2 <= 16 * MAX_EXTENT * MAX_EXTENT,
            0 <= l2 <= MAX_SPEED * MAX_SPEED,
    ;
    let a = c2 * l2;
    let q = a / n;
    proof {
        assert(a <= n * l2) by (nonlinear_arith)
            requires
                a == c2 * l2,
                c2 <= n,
                l2 >= 0,
        ;
        lemma_multiply_divide_le(a as int, n as int, l2 as int);
        lemma_div_pos_is_pos(a as int, n as int);
    }
    let r = integer_sqrt(q);
    assert(r <= len) by (nonlinear_arith)
        requires
            r * r <= q,
            q <= len * len,
            r >= 0,
            len >= 0,
    ;
    if c >= 0 {
        r as i64
    } else {
        -(r as i64)
    }
}

/// Scales a vector to length `len`, up to rounding.
pub fn with_length(v: Vector2, len: i64) -> (r: Vector2)
    requires
        v.is_bounded(),
        0 <= len <= MAX_SPEED,
    ensures
        r == with_length_spec(v, len as int),
        r.norm_sq() <= sq(len as int),
        v.norm_sq() != 0 && len >= 2 ==> r.norm_sq() >= sq(len - 2),
{
    let n = v.length_squared();
    proof {
        lemma_with_length(v, len as int);
        lemma_sq_neg(v.x as int);
        lemma_sq_neg(v.y as int);
    }
    if n == 0 {
        return v;
    }
    let x = scale_component(v.x, len, n);
    let y = scale_component(v.y, len, n);
    Vector2 { x, y }
}

/// Toroidal wrap of one coordinate, as the craft and the asteroids use it: a
/// negative coordinate re-enters at `max + coord`, one past `max` at `coord - max`.
pub open spec fn wrap_spec(coord: int, max: int) -> int {
    if coord < 0 {
        max + coord
    } else if coord > max {
        coord - max
    } else {
        coord
    }
}

pub fn wrap_position(coord: i64, max: i64) -> (r: i64)
    requires
        -4 * MAX_EXTENT <= coord <= 4 * MAX_EXTENT,
        0 <= max <= MAX_EXTENT,
    ensures
        r == wrap_spec(coord as int, max as int),
{
    if coord < 0 {
        max + coord
    } else if coord > max {
        coord - max
    } else {
        coord
    }
}

/// The playfield: the screen's width and height, in sub-units.
#[derive(Clone, Copy, Debug, PartialEq, Eq, Structural)]
pub struct Field {
    pub width: i64,
    pub height: i64,
}

impl Field {
    pub open spec fn wf(self) -> bool {
        MIN_SIDE <= self.width <= MAX_EXTENT && MIN_SIDE <= self.height <= MAX_EXTENT
    }

    /// The playfield for a screen of the given size, each side brought into
    /// `[MIN_SIDE, MAX_EXTENT]`.
    pub fn from_screen(width: i64, height: i64) -> (r: Field)
        ensures
            r.wf(),
            r.width == clamp_side_spec(width as int),
            r.height == clamp_side_spec(height as int),
    {
        Field { width: clamp_side(width), height: clamp_side(height) }
    }

    /// The centre of the screen.
    pub fn center(&self) -> (r: Vector2)
        requires
            self.wf(),
        ensures
            r.x == self.width / 2,
            r.y == self.height / 2,
            r.in_play(),
    {
        Vector2 { x: self.width / 2, y: self.height / 2 }
    }
}

/// A screen side brought into `[MIN_SIDE, MAX_EXTENT]`.
pub open spec fn clamp_side_spec(s: int) -> int {
    if s < MIN_SIDE {
        MIN_SIDE as int
    } else if s > MAX_EXTENT {
        MAX_EXTENT as int
    } else {
        s
    }
}

fn clamp_side(s: i64) -> (r: i64)
    ensures
        r == clamp_side_spec(s as int),
{
    if s < MIN_SIDE {
        MIN_SIDE
    } else if s > MAX_EXTENT {
        MAX_EXTENT
    } else {
        s
    }
}

/// A coordinate that a move brings to exactly `0` or `max` is left where it
/// is, so it stays within `[0, max]`.
pub proof fn wrap_keeps_edges(max: int)
    requires
        0 <= max,
    ensures
        wrap_spec(0, max) == 0,
        wrap_spec(max, max) == max,
{
}

/// Under the wrap rule, a coordinate moved by at most `max` from within
/// `[0, max]` wraps back into `[0, max]`.
pub proof fn wrap_stays_within(coord: int, step: int, max: int)
    requires
        0 <= coord <= max,
        -max <= step <= max,
    ensures
        0 <= wrap_spec(coord + step, max) <= max,
{
}

} // verus!
