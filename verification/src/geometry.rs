//! Fixed-point plane geometry: vectors, the viewport, movement along an axis,
//! confinement to the viewport and the proximity test.
//!
//! Every length is an integer count of units, `ONE` units to the logical pixel.
//! A direction is a vector whose length is about `ONE`. Time is counted in
//! nanoseconds. Quotients round toward zero, so that a step to the left is the
//! exact mirror image of the same step to the right.

use vstd::prelude::*;

verus! {

/// Units in one whole: one logical pixel of length, or the length of a unit direction.
pub const ONE: i64 = 1_000_000;

/// Nanoseconds in one second.
pub const NANOS_PER_SECOND: u64 = 1_000_000_000;

/// Largest magnitude of a position coordinate. Movement saturates here, far
/// outside any viewport.
pub const COORD_MAX: i64 = 1_000_000_000_000_000_000;

/// Largest speed, in units per second, that movement accepts.
pub const SPEED_MAX: i64 = 1_000_000_000_000;

/// Quotient of `n` by a positive `d`, rounded toward zero.
pub open spec fn trunc_div(n: int, d: int) -> int {
    if n >= 0 {
        n / d
    } else {
        -((-n) / d)
    }
}

/// Signed distance covered along one axis in `dt` nanoseconds at `speed` units
/// per second, heading along the direction component `direction`.
pub open spec fn displacement(direction: int, speed: int, dt: int) -> int {
    trunc_div(direction * speed * dt, ONE * NANOS_PER_SECOND)
}

/// `c` brought into the coordinate range `[-COORD_MAX, COORD_MAX]`.
pub open spec fn saturate(c: int) -> int {
    if c < -COORD_MAX {
        -COORD_MAX as int
    } else if c > COORD_MAX {
        COORD_MAX as int
    } else {
        c
    }
}

/// The coordinate reached from `position` after `dt` nanoseconds.
pub open spec fn advance(position: int, direction: int, speed: int, dt: int) -> int {
    saturate(position + displacement(direction, speed, dt))
}

/// The component `direction` of a direction, stretched to a vector of length `length`.
pub open spec fn stretch(direction: int, length: int) -> int {
    trunc_div(direction * length, ONE as int)
}

/// Whether the coordinate `p` of a sprite's centre lies outside `[half, extent - half]`.
pub open spec fn outside(p: int, half: int, extent: int) -> bool {
    p < half || p > extent - half
}

/// The coordinate `p` brought back to `[half, extent - half]`: a coordinate
/// below the interval goes to its lower end, one above it to its upper end.
pub open spec fn confine(p: int, half: int, extent: int) -> int {
    if p < half {
        half
    } else if p > extent - half {
        extent - half
    } else {
        p
    }
}

/// Square of the Euclidean distance between two points.
pub open spec fn distance_squared(a: Vector2, b: Vector2) -> int {
    (a.x - b.x) * (a.x - b.x) + (a.y - b.y) * (a.y - b.y)
}

/// Whether two centres are strictly closer to each other than `reach`.
pub open spec fn within_reach(a: Vector2, b: Vector2, reach: int) -> bool {
    0 <= reach && distance_squared(a, b) < reach * reach
}

/// A point or a direction in the plane.
#[derive(Clone, Copy, Debug, PartialEq, Eq, Structural)]
pub struct Vector2 {
    pub x: i64,
    pub y: i64,
}

/// The visible area: `[0, width]` by `[0, height]`.
#[derive(Clone, Copy, Debug, PartialEq, Eq, Structural)]
pub struct Viewport {
    pub width: i64,
    pub height: i64,
}

impl Vector2 {
    /// Both coordinates lie in the coordinate range.
    pub open spec fn spec_is_position(&self) -> bool {
        &&& -COORD_MAX <= self.x <= COORD_MAX
        &&& -COORD_MAX <= self.y <= COORD_MAX
    }

    /// Neither component is longer than a unit.
    pub open spec fn spec_is_direction(&self) -> bool {
        &&& -ONE <= self.x <= ONE
        &&& -ONE <= self.y <= ONE
    }

    /// The vector moved for `dt` nanoseconds along `direction`.
    pub open spec fn spec_advanced(self, direction: Vector2, speed: int, dt: int) -> Vector2 {
        Vector2 {
            x: advance(self.x as int, direction.x as int, speed, dt) as i64,
            y: advance(self.y as int, direction.y as int, speed, dt) as i64,
        }
    }

    /// The vector brought back into the part of `viewport` in which a sprite
    /// of half size `half` is wholly visible, each axis by itself.
    pub open spec fn spec_confined(self, half: int, viewport: Viewport) -> Vector2 {
        Vector2 {
            x: confine(self.x as int, half, viewport.width as int) as i64,
            y: confine(self.y as int, half, viewport.height as int) as i64,
        }
    }

    /// The vector with its horizontal component negated if `flip_x`, and its
    /// vertical component negated if `flip_y`.
    pub open spec fn spec_reflected(self, flip_x: bool, flip_y: bool) -> Vector2 {
        Vector2 {
            x: if flip_x { (-self.x) as i64 } else { self.x },
            y: if flip_y { (-self.y) as i64 } else { self.y },
        }
    }

    /// The point at `length` from `self` in the direction `direction`.
    pub open spec fn spec_offset(self, direction: Vector2, length: int) -> Vector2 {
        Vector2 {
            x: (self.x + stretch(direction.x as int, length)) as i64,
            y: (self.y + stretch(direction.y as int, length)) as i64,
        }
    }

    /// The vector with the given components.
    pub fn new(x: i64, y: i64) -> (v: Vector2)
        ensures
            v == (Vector2 { x, y }),
    {
        Vector2 { x, y }
    }

    /// Tells whether both coordinates lie in the coordinate range.
    #[verifier::when_used_as_spec(spec_is_position)]
    pub fn is_position(&self) -> (b: bool)
        ensures
            b == self.spec_is_position(),
    {
        -COORD_MAX <= self.x && self.x <= COORD_MAX && -COORD_MAX <= self.y && self.y <= COORD_MAX
    }

    /// Tells whether neither component is longer than a unit.
    #[verifier::when_used_as_spec(spec_is_direction)]
    pub fn is_direction(&self) -> (b: bool)
        ensures
            b == self.spec_is_direction(),
    {
        -ONE <= self.x && self.x <= ONE && -ONE <= self.y && self.y <= ONE
    }

    /// Moves the point for `dt` nanoseconds at `speed` along `direction`.
    pub fn advanced(self, direction: Vector2, speed: i64, dt: u64) -> (moved: Vector2)
        requires
            self.is_position(),
            direction.is_direction(),
            0 <= speed <= SPEED_MAX,
        ensures
            moved == self.spec_advanced(direction, speed as int, dt as int),
            moved.is_position(),
    {
        Vector2 {
            x: advance_axis(self.x, direction.x, speed, dt),
            y: advance_axis(self.y, direction.y, speed, dt),
        }
    }

    /// Clamps the point into the part of `viewport` where a sprite of half
    /// size `half` is wholly visible.
    pub fn confined(self, half: i64, viewport: &Viewport) -> (kept: Vector2)
        requires
            0 <= half <= COORD_MAX,
            viewport.is_valid(),
        ensures
            kept == self.spec_confined(half as int, *viewport),
            self.is_position() ==> kept.is_position(),
    {
        Vector2 {
            x: confine_axis(self.x, half, viewport.width),
            y: confine_axis(self.y, half, viewport.height),
        }
    }

    /// Negates the chosen components.
    pub fn reflected(self, flip_x: bool, flip_y: bool) -> (turned: Vector2)
        requires
            self.is_direction(),
        ensures
            turned == self.spec_reflected(flip_x, flip_y),
            turned.is_direction(),
    {
        Vector2 {
            x: if flip_x { -self.x } else { self.x },
            y: if flip_y { -self.y } else { self.y },
        }
    }

    /// The point at `length` from this one, in the direction `direction`.
    pub fn offset(self, direction: Vector2, length: i64) -> (placed: Vector2)
        requires
            self.is_position(),
            direction.is_direction(),
            0 <= length <= COORD_MAX,
        ensures
            placed == self.spec_offset(direction, length as int),
            self.x - length <= placed.x <= self.x + length,
            self.y - length <= placed.y <= self.y + length,
    {
        Vector2 {
            x: self.x + stretch_axis(direction.x, length),
            y: self.y + stretch_axis(direction.y, length),
        }
    }
}

impl Viewport {
    /// Both extents are non-negative and within the coordinate range.
    pub open spec fn spec_is_valid(&self) -> bool {
        &&& 0 <= self.width <= COORD_MAX
        &&& 0 <= self.height <= COORD_MAX
    }

    /// The middle of the viewport.
    pub open spec fn spec_center(&self) -> Vector2 {
        Vector2 { x: (self.width / 2) as i64, y: (self.height / 2) as i64 }
    }

    /// The viewport with the given extents.
    pub fn new(width: i64, height: i64) -> (viewport: Viewport)
        ensures
            viewport == (Viewport { width, height }),
    {
        Viewport { width, height }
    }

    /// Tells whether both extents are non-negative and within the
    /// coordinate range.
    #[verifier::when_used_as_spec(spec_is_valid)]
    pub fn is_valid(&self) -> (b: bool)
        ensures
            b == self.spec_is_valid(),
    {
        0 <= self.width && self.width <= COORD_MAX && 0 <= self.height && self.height <= COORD_MAX
    }

    /// The middle of the viewport.
    #[verifier::when_used_as_spec(spec_center)]
    pub fn center(&self) -> (middle: Vector2)
        requires
            self.is_valid(),
        ensures
            middle == self.spec_center(),
            0 <= middle.x <= self.width,
            0 <= middle.y <= self.height,
    {
        Vector2 { x: self.width / 2, y: self.height / 2 }
    }
}

/// Magnitude of `v`.
fn magnitude(v: i64) -> (m: u128)
    requires
        -COORD_MAX <= v <= COORD_MAX,
    ensures
        m == if v >= 0 { v as int } else { -v as int },
{
    if v >= 0 {
        v as u128
    } else {
        (-v) as u128
    }
}

/// One coordinate after `dt` nanoseconds of movement.
pub fn advance_axis(position: i64, direction: i64, speed: i64, dt: u64) -> (moved: i64)
    requires
        -COORD_MAX <= position <= COORD_MAX,
        -ONE <= direction <= ONE,
        0 <= speed <= SPEED_MAX,
    ensures
        moved == advance(position as int, direction as int, speed as int, dt as int),
        -COORD_MAX <= moved <= COORD_MAX,
{
    let along: u128 = magnitude(direction);
    let rate: u128 = speed as u128;
    let span: u128 = dt as u128;
    assert(along * rate <= 1_000_000 * 1_000_000_000_000) by (nonlinear_arith)
        requires
            along <= 1_000_000,
            rate <= 1_000_000_000_000,
    ;
    let per_second: u128 = along * rate;
    assert(per_second * span <= 1_000_000_000_000_000_000 * 0x1_0000_0000_0000_0000)
        by (nonlinear_arith)
        requires
            per_second <= 1_000_000_000_000_000_000,
            span <= 0x1_0000_0000_0000_0000,
    ;
    let covered: u128 = per_second * span / 1_000_000_000_000_000;
    proof {
        let d = direction as int;
        let s = speed as int;
        let t = dt as int;
        assert(ONE * NANOS_PER_SECOND == 1_000_000_000_000_000);
        if d >= 0 {
            assert(d * s * t == along * rate * span);
            assert(d * s * t >= 0) by (nonlinear_arith)
                requires
                    d >= 0,
                    s >= 0,
                    t >= 0,
            ;
        } else {
            assert(-(d * s * t) == along * rate * span) by (nonlinear_arith)
                requires
                    along == -d,
                    rate == s,
                    span == t,
            ;
            assert(d * s * t <= 0) by (nonlinear_arith)
                requires
                    d < 0,
                    s >= 0,
                    t >= 0,
            ;
        }
    }
    if covered > 2_000_000_000_000_000_000 {
        if direction >= 0 {
            COORD_MAX
        } else {
            -COORD_MAX
        }
    } else {
        let step: i128 = if direction >= 0 {
            covered as i128
        } else {
            -(covered as i128)
        };
        let target: i128 = position as i128 + step;
        if target < -(COORD_MAX as i128) {
            -COORD_MAX
        } else if target > COORD_MAX as i128 {
            COORD_MAX
        } else {
            target as i64
        }
    }
}

/// One component of a direction stretched to `length`.
pub fn stretch_axis(direction: i64, length: i64) -> (scaled: i64)
    requires
        -ONE <= direction <= ONE,
        0 <= length <= COORD_MAX,
    ensures
        scaled == stretch(direction as int, length as int),
        -length <= scaled <= length,
{
    let along: u128 = magnitude(direction);
    let whole: u128 = length as u128;
    assert(along * whole <= 1_000_000 * whole) by (nonlinear_arith)
        requires
            along <= 1_000_000,
            whole >= 0,
    ;
    let part: u128 = along * whole / 1_000_000;
    proof {
        let d = direction as int;
        let l = length as int;
        if d >= 0 {
            assert(d * l >= 0) by (nonlinear_arith)
                requires
                    d >= 0,
                    l >= 0,
            ;
        } else {
            assert(-(d * l) == along * whole) by (nonlinear_arith)
                requires
                    along == -d,
                    whole == l,
            ;
            assert(d * l <= 0) by (nonlinear_arith)
                requires
                    d < 0,
                    l >= 0,
            ;
        }
    }
    if direction >= 0 {
        part as i64
    } else {
        -(part as i64)
    }
}

/// One coordinate of a sprite's centre, clamped so that the sprite is wholly
/// inside `[0, extent]`.
pub fn confine_axis(p: i64, half: i64, extent: i64) -> (kept: i64)
    requires
        0 <= half <= COORD_MAX,
        0 <= extent <= COORD_MAX,
    ensures
        kept == confine(p as int, half as int, extent as int),
{
    if p < half {
        half
    } else if p > extent - half {
        extent - half
    } else {
        p
    }
}

/// Whether one coordinate of a sprite's centre is past the confinement bounds.
pub fn is_outside(p: i64, half: i64, extent: i64) -> (out: bool)
    requires
        0 <= half <= COORD_MAX,
        0 <= extent <= COORD_MAX,
    ensures
        out == outside(p as int, half as int, extent as int),
{
    p < half || p > extent - half
}

/// Tells whether the centres `a` and `b` are strictly closer than `reach`.
/// Compares squares, so no root is taken: the distance itself is below
/// `reach` exactly when its square is below the square of `reach`.
pub fn collides(a: Vector2, b: Vector2, reach: i64) -> (hit: bool)
    requires
        a.is_position(),
        b.is_position(),
    ensures
        hit == within_reach(a, b, reach as int),
{
    if reach < 0 {
        return false;
    }
    let dx: i128 = a.x as i128 - b.x as i128;
    let dy: i128 = a.y as i128 - b.y as i128;
    let r: i128 = reach as i128;
    assert(0 <= dx * dx <= 4_000_000_000_000_000_000_000_000_000_000_000_000) by (nonlinear_arith)
        requires
            -2_000_000_000_000_000_000 <= dx <= 2_000_000_000_000_000_000,
    ;
    assert(0 <= dy * dy <= 4_000_000_000_000_000_000_000_000_000_000_000_000) by (nonlinear_arith)
        requires
            -2_000_000_000_000_000_000 <= dy <= 2_000_000_000_000_000_000,
    ;
    assert(0 <= r * r <= 0x4000_0000_0000_0000_0000_0000_0000_0000) by (nonlinear_arith)
        requires
            0 <= r <= 0x8000_0000_0000_0000,
    ;
    dx * dx + dy * dy < r * r
}

/// A confined coordinate lies in `[half, extent - half]`, so it is not
/// outside, wherever the coordinate was before. This needs the interval to
/// hold a point at all: the extent is at least twice the half size.
pub proof fn lemma_confined_is_inside(p: int, half: int, extent: int)
    requires
        half <= extent - half,
    ensures
        half <= confine(p, half, extent) <= extent - half,
        !outside(confine(p, half, extent), half, extent),
{
}

/// Confining a coordinate that is already confined changes nothing.
pub proof fn lemma_confine_is_idempotent(p: int, half: int, extent: int)
    requires
        half <= extent - half,
    ensures
        confine(confine(p, half, extent), half, extent) == confine(p, half, extent),
{
}

/// Confinement leaves alone exactly the coordinates that are not outside.
pub proof fn lemma_confine_moves_only_what_is_outside(p: int, half: int, extent: int)
    ensures
        !outside(p, half, extent) <==> confine(p, half, extent) == p,
{
}

/// A coordinate exactly on one of the two bounds is not outside.
pub proof fn lemma_on_bound_is_not_outside(p: int, half: int, extent: int)
    requires
        half <= extent - half,
        p == half || p == extent - half,
    ensures
        !outside(p, half, extent),
{
}

/// That movement saturates at the ends of the coordinate range does not show
/// in a viewport: whether the coordinate is outside, and where confinement
/// puts it, is the same as if the coordinate had moved without any limit.
pub proof fn lemma_confinement_hides_saturation(
    position: int,
    direction: int,
    speed: int,
    dt: int,
    half: int,
    extent: int,
)
    requires
        0 < half <= COORD_MAX,
        0 <= extent <= COORD_MAX,
    ensures
        confine(advance(position, direction, speed, dt), half, extent) == confine(
            position + displacement(direction, speed, dt),
            half,
            extent,
        ),
        outside(advance(position, direction, speed, dt), half, extent) == outside(
            position + displacement(direction, speed, dt),
            half,
            extent,
        ),
{
}

/// The proximity test is strict: two centres that are exactly `reach` apart
/// are not within reach, and neither are centres further apart.
pub proof fn lemma_at_reach_is_not_within_reach(a: Vector2, b: Vector2, reach: int)
    requires
        distance_squared(a, b) >= reach * reach,
    ensures
        !within_reach(a, b, reach),
{
}

/// The proximity test on one axis in plain terms: two centres on a common
/// horizontal line are within reach exactly when their horizontal distance is
/// strictly less than `reach`.
pub proof fn lemma_within_reach_on_a_line(a: Vector2, b: Vector2, reach: int)
    requires
        a.y == b.y,
        0 <= reach,
    ensures
        within_reach(a, b, reach) <==> (-reach < a.x - b.x < reach),
{
    let d = a.x - b.x;
    assert(distance_squared(a, b) == d * d);
    assert((d * d < reach * reach) <==> (-reach < d < reach)) by (nonlinear_arith)
        requires
            0 <= reach,
    ;
}

/// The proximity test does not depend on which centre is named first.
pub proof fn lemma_within_reach_is_symmetric(a: Vector2, b: Vector2, reach: int)
    ensures
        within_reach(a, b, reach) == within_reach(b, a, reach),
{
    assert((a.x - b.x) * (a.x - b.x) == (b.x - a.x) * (b.x - a.x)) by (nonlinear_arith);
    assert((a.y - b.y) * (a.y - b.y) == (b.y - a.y) * (b.y - a.y)) by (nonlinear_arith);
}

/// A step to the left is the mirror image of the same step to the right.
pub proof fn lemma_displacement_is_odd(direction: int, speed: int, dt: int)
    ensures
        displacement(-direction, speed, dt) == -displacement(direction, speed, dt),
{
    assert((-direction) * speed * dt == -(direction * speed * dt)) by (nonlinear_arith);
}

/// No time, no movement; and no direction, no movement.
pub proof fn lemma_displacement_zero(direction: int, speed: int, dt: int)
    ensures
        displacement(direction, speed, 0) == 0,
        displacement(0, speed, dt) == 0,
{
    assert(direction * speed * 0 == 0) by (nonlinear_arith);
    assert(0 * speed * dt == 0) by (nonlinear_arith);
}

} // verus!
