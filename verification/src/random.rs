//! The random source: uniform draws, and the spawn positions made from them.
//!
//! A draw is a 32-bit number `raw` that stands for the fraction `raw / 2^32`
//! of the half-open interval `[0, 1)`. A spawn coordinate is that fraction of
//! the viewport's extent, rounded down, so it lies in `[0, extent)`.

use vstd::prelude::*;
use crate::geometry::{Vector2, Viewport, COORD_MAX};

verus! {

/// Number of values that a draw can take: a draw `raw` stands for the
/// fraction `raw / DRAW_RANGE`.
pub const DRAW_RANGE: u64 = 0x1_0000_0000;

/// The coordinate that the draw `raw` picks on an axis of length `extent`.
pub open spec fn place(raw: int, extent: int) -> int {
    raw * extent / (DRAW_RANGE as int)
}

/// The spawn position that the draws `raw_x` and `raw_y` pick in `viewport`.
pub open spec fn spec_position_at(viewport: Viewport, raw_x: u32, raw_y: u32) -> Vector2 {
    Vector2 {
        x: place(raw_x as int, viewport.width as int) as i64,
        y: place(raw_y as int, viewport.height as int) as i64,
    }
}

/// Whether some pair of draws picks `position` in `viewport`.
pub open spec fn is_spawn_position(viewport: Viewport, position: Vector2) -> bool {
    exists|raw_x: u32, raw_y: u32| position == spec_position_at(viewport, raw_x, raw_y)
}

/// Calls `rand::random::<u32>()`, which hands out the next 32 bits of the
/// calling thread's generator. Nothing is claimed of the value: every `u32` can
/// come back, and two calls need not agree. The generator is seeded from the
/// operating system on a thread's first draw and panics if that fails.
#[verifier::external_body]
pub(crate) fn random_u32() -> (raw: u32) {
    rand::random::<u32>()
}

/// Calls `rand::random::<bool>()`, a fair coin from the calling thread's
/// generator. Nothing is claimed of the value: either outcome can come back.
#[verifier::external_body]
pub(crate) fn random_bool() -> (coin: bool) {
    rand::random::<bool>()
}

/// The coordinate that the draw `raw` picks on an axis of length `extent`.
pub fn place_axis(raw: u32, extent: i64) -> (coordinate: i64)
    requires
        0 <= extent <= COORD_MAX,
    ensures
        coordinate == place(raw as int, extent as int),
        0 <= coordinate <= extent,
        extent > 0 ==> coordinate < extent,
{
    let share: u128 = raw as u128;
    let whole: u128 = extent as u128;
    assert(share * whole <= 0xffff_ffff * whole) by (nonlinear_arith)
        requires
            share <= 0xffff_ffff,
            whole >= 0,
    ;
    let picked: u128 = share * whole / 0x1_0000_0000;
    picked as i64
}

/// The spawn position that the draws `raw_x` and `raw_y` pick in `viewport`.
pub fn position_at(viewport: &Viewport, raw_x: u32, raw_y: u32) -> (position: Vector2)
    requires
        viewport.is_valid(),
    ensures
        position == spec_position_at(*viewport, raw_x, raw_y),
        position.is_position(),
        0 <= position.x <= viewport.width,
        0 <= position.y <= viewport.height,
        viewport.width > 0 ==> position.x < viewport.width,
        viewport.height > 0 ==> position.y < viewport.height,
{
    Vector2 { x: place_axis(raw_x, viewport.width), y: place_axis(raw_y, viewport.height) }
}

/// Draws a spawn position in `viewport`: one draw for the horizontal
/// coordinate, then one for the vertical.
pub fn random_position(viewport: &Viewport) -> (position: Vector2)
    requires
        viewport.is_valid(),
    ensures
        is_spawn_position(*viewport, position),
        position.is_position(),
        0 <= position.x <= viewport.width,
        0 <= position.y <= viewport.height,
        viewport.width > 0 ==> position.x < viewport.width,
        viewport.height > 0 ==> position.y < viewport.height,
{
    let raw_x: u32 = random_u32();
    let raw_y: u32 = random_u32();
    position_at(viewport, raw_x, raw_y)
}

} // verus!
