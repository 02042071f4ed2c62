//! The stars: spawning at startup and over time.

use vstd::prelude::*;
use crate::geometry::{Vector2, Viewport};
use crate::random::{is_spawn_position, random_position};
use crate::timer::{Timer, TimerMode};
use crate::world::{World, WorldView};

verus! {

/// Number of stars spawned at startup.
pub const INITIAL_NUMBER_OF_STARS: usize = 10;

/// Width and height of a star's sprite.
pub const STAR_SIZE: i64 = 30_000_000;

/// Half of `STAR_SIZE`: how far the sprite reaches from its centre.
pub const STAR_HALF_SIZE: i64 = 15_000_000;

/// Nanoseconds between two timed star spawns.
pub const STAR_SPAWN_TIME: u64 = 250_000_000;

/// A star, worth one point to the player who touches it.
#[derive(Clone, Copy, Debug, PartialEq, Eq, Structural)]
pub struct Star {
    /// Centre of the sprite.
    pub position: Vector2,
}

/// The repeating timer that paces timed star spawns.
#[derive(Clone, Copy, Debug, PartialEq, Eq, Structural)]
pub struct StarSpawnTimer(pub Timer);

impl StarSpawnTimer {
    /// The timer at the start of a run.
    pub open spec fn initial() -> Timer {
        Timer::spec_new(STAR_SPAWN_TIME, TimerMode::Repeating)
    }
}

impl Default for StarSpawnTimer {
    fn default() -> (timer: StarSpawnTimer)
        ensures
            timer.0 == StarSpawnTimer::initial(),
            timer.0.is_valid(),
    {
        StarSpawnTimer(Timer::new(STAR_SPAWN_TIME, TimerMode::Repeating))
    }
}

/// The star centred at `position`.
pub open spec fn star_at(position: Vector2) -> Star {
    Star { position }
}

/// The stars centred at the positions, in their order.
pub open spec fn stars_at(positions: Seq<Vector2>) -> Seq<Star> {
    positions.map_values(|position: Vector2| star_at(position))
}

/// The world with one more star, after those that were there.
pub open spec fn with_star(world: WorldView, position: Vector2) -> WorldView {
    WorldView { stars: world.stars.push(star_at(position)), ..world }
}

/// The world with one star added at each of the positions, in their order,
/// after the stars that were there.
pub open spec fn with_stars(world: WorldView, positions: Seq<Vector2>) -> WorldView {
    WorldView {
        stars: world.stars + stars_at(positions),
        ..world
    }
}

/// Whether every one of the positions is a spawn position of `viewport`.
pub open spec fn are_spawn_positions(viewport: Viewport, positions: Seq<Vector2>) -> bool {
    forall|i: int| 0 <= i < positions.len() ==> is_spawn_position(viewport, #[trigger] positions[i])
}

/// The world after the timed star spawn, where `position` is the place drawn
/// for a new star: the star is added if the star spawn timer is finished.
pub open spec fn after_star_spawn(world: WorldView, position: Vector2) -> WorldView {
    if world.star_spawn_timer.finished {
        with_star(world, position)
    } else {
        world
    }
}

/// The world after the star spawn timer has gathered `dt` more nanoseconds.
pub open spec fn after_star_timer_tick(world: WorldView, dt: int) -> WorldView {
    WorldView { star_spawn_timer: world.star_spawn_timer.ticked(dt), ..world }
}

/// Adds a star to the world.
pub fn spawn_star_at(world: &mut World, position: Vector2)
    requires
        old(world)@.is_valid(),
        position.is_position(),
    ensures
        final(world)@ == with_star(old(world)@, position),
        final(world)@.is_valid(),
{
    world.stars.push(Star { position });
}

/// Adds `INITIAL_NUMBER_OF_STARS` stars, each at a position drawn in the
/// viewport.
fn push_random_stars(stars: &mut Vec<Star>, viewport: &Viewport)
    requires
        viewport.is_valid(),
        forall|i: int|
            0 <= i < old(stars)@.len() ==> (#[trigger] old(stars)@[i]).position.is_position(),
    ensures
        exists|positions: Seq<Vector2>|
            positions.len() == INITIAL_NUMBER_OF_STARS && are_spawn_positions(
                *viewport,
                positions,
            ) && final(stars)@ == old(stars)@ + #[trigger] stars_at(positions),
        forall|i: int|
            0 <= i < final(stars)@.len() ==> (#[trigger] final(stars)@[i]).position.is_position(),
{
    let ghost mut drawn: Seq<Vector2> = Seq::empty();
    let mut i: usize = 0;
    while i < INITIAL_NUMBER_OF_STARS
        invariant
            i <= INITIAL_NUMBER_OF_STARS,
            viewport.is_valid(),
            drawn.len() == i,
            are_spawn_positions(*viewport, drawn),
            stars@ == old(stars)@ + stars_at(drawn),
            forall|j: int| 0 <= j < stars@.len() ==> (#[trigger] stars@[j]).position.is_position(),
        decreases INITIAL_NUMBER_OF_STARS - i,
    {
        let position = random_position(viewport);
        let ghost before = stars@;
        let ghost drawn_before = drawn;
        stars.push(Star { position });
        proof {
            drawn = drawn.push(position);
            assert forall|j: int| 0 <= j < stars@.len() implies (
            #[trigger] stars@[j]).position.is_position() by {
                if j < before.len() {
                    assert(stars@[j] == before[j]);
                }
            }
            assert forall|j: int| 0 <= j < drawn.len() implies is_spawn_position(
                *viewport,
                #[trigger] drawn[j],
            ) by {
                if j < drawn_before.len() {
                    assert(drawn[j] == drawn_before[j]);
                }
            }
            assert(stars_at(drawn) =~= stars_at(drawn_before).push(star_at(position)));
        }
        i += 1;
    }
}

/// Spawns the stars of the startup: `INITIAL_NUMBER_OF_STARS` of them, each
/// at a position drawn in the viewport.
pub fn spawn_stars(world: &mut World, viewport: &Viewport)
    requires
        old(world)@.is_valid(),
        viewport.is_valid(),
    ensures
        exists|positions: Seq<Vector2>|
            positions.len() == INITIAL_NUMBER_OF_STARS && are_spawn_positions(
                *viewport,
                positions,
            ) && final(world)@ == #[trigger] with_stars(old(world)@, positions),
        final(world)@.is_valid(),
{
    push_random_stars(&mut world.stars, viewport);
    proof {
        let positions = choose|positions: Seq<Vector2>|
            positions.len() == INITIAL_NUMBER_OF_STARS && are_spawn_positions(
                *viewport,
                positions,
            ) && world.stars@ == old(world).stars@ + #[trigger] stars_at(positions);
        assert(world@ == with_stars(old(world)@, positions));
    }
}

/// Hands `dt` nanoseconds to the star spawn timer.
pub fn tick_star_spawn_timer(world: &mut World, dt: u64)
    requires
        old(world)@.is_valid(),
    ensures
        final(world)@ == after_star_timer_tick(old(world)@, dt as int),
        final(world)@.is_valid(),
{
    world.star_spawn_timer.0.tick(dt);
}

/// The timed star spawn: if the star spawn timer is finished, draws a
/// position in the viewport and adds a star there. The timer is left as it is.
pub fn spawn_stars_over_time(world: &mut World, viewport: &Viewport)
    requires
        old(world)@.is_valid(),
        viewport.is_valid(),
    ensures
        exists|position: Vector2|
            is_spawn_position(*viewport, position) && final(world)@ == #[trigger] after_star_spawn(
                old(world)@,
                position,
            ),
        !old(world)@.star_spawn_timer.finished ==> final(world)@ == old(world)@,
        final(world)@.is_valid(),
{
    if world.star_spawn_timer.0.finished() {
        let position = random_position(viewport);
        world.stars.push(Star { position });
        assert(world@ == after_star_spawn(old(world)@, position));
    } else {
        let ghost position = crate::random::spec_position_at(*viewport, 0, 0);
        assert(is_spawn_position(*viewport, position));
        assert(world@ == after_star_spawn(old(world)@, position));
    }
}

} // verus!
