//! The player: movement from the held keys, confinement to the viewport, and
//! what happens when the player touches an enemy or a star.

use vstd::prelude::*;
use crate::enemy::{Enemy, ENEMY_HALF_SIZE};
use crate::events::{GameOver, SoundEffect};
use crate::geometry::{collides, within_reach, Vector2, Viewport, ONE};
use crate::input::{Input, MovementKeys};
use crate::star::{Star, STAR_HALF_SIZE};
use crate::world::{World, WorldView};

verus! {

/// Width and height of the player's sprite.
pub const PLAYER_SIZE: i64 = 64_000_000;

/// Half of `PLAYER_SIZE`: how far the sprite reaches from its centre.
pub const PLAYER_HALF_SIZE: i64 = 32_000_000;

/// The player's speed, in units per second.
pub const PLAYER_SPEED: i64 = 500_000_000;

/// Each component of a diagonal unit direction: `ONE` divided by the square
/// root of two, to the nearest unit.
pub const DIAGONAL: i64 = 707_107;

/// The player's avatar.
#[derive(Clone, Copy, Debug, PartialEq, Eq, Structural)]
pub struct Player {
    /// Centre of the sprite.
    pub position: Vector2,
}

/// What two opposing keys ask for on their axis: 1 toward `positive`, -1
/// toward `negative`, 0 if neither or both are held.
pub open spec fn axis_intent(negative: bool, positive: bool) -> int {
    (if positive { 1int } else { 0int }) - (if negative { 1int } else { 0int })
}

/// The direction that the held keys ask for: the zero vector if nothing is
/// asked for, a unit vector along an axis if one axis is asked for, and a
/// diagonal of unit length, to the nearest unit, if both are.
pub open spec fn spec_key_direction(keys: MovementKeys) -> Vector2 {
    let dx = axis_intent(keys.left, keys.right);
    let dy = axis_intent(keys.down, keys.up);
    if dx != 0 && dy != 0 {
        Vector2 { x: (dx * DIAGONAL) as i64, y: (dy * DIAGONAL) as i64 }
    } else {
        Vector2 { x: (dx * ONE) as i64, y: (dy * ONE) as i64 }
    }
}

/// The world with the player at the middle of the viewport.
pub open spec fn after_spawn_player(world: WorldView, viewport: Viewport) -> WorldView {
    WorldView { player: Some(Player { position: viewport.center() }), ..world }
}

/// The world after the player has moved for `dt` nanoseconds as the held keys
/// ask. Without a player nothing changes.
pub open spec fn after_player_movement(world: WorldView, keys: MovementKeys, dt: int) -> WorldView {
    match world.player {
        Some(player) => WorldView {
            player: Some(
                Player {
                    position: player.position.spec_advanced(
                        spec_key_direction(keys),
                        PLAYER_SPEED as int,
                        dt,
                    ),
                },
            ),
            ..world
        },
        None => world,
    }
}

/// The world after the player has been brought back inside the confinement
/// bounds. Without a player nothing changes.
pub open spec fn after_player_confinement(world: WorldView, viewport: Viewport) -> WorldView {
    match world.player {
        Some(player) => WorldView {
            player: Some(
                Player {
                    position: player.position.spec_confined(PLAYER_HALF_SIZE as int, viewport),
                },
            ),
            ..world
        },
        None => world,
    }
}

/// Whether a player at `position` touches the enemy: their centres are
/// strictly closer than the sum of their half sizes.
pub open spec fn touches_enemy(position: Vector2, enemy: Enemy) -> bool {
    within_reach(position, enemy.position, PLAYER_HALF_SIZE + ENEMY_HALF_SIZE)
}

/// Whether a player at `position` touches the star: their centres are
/// strictly closer than the sum of their half sizes.
pub open spec fn touches_star(position: Vector2, star: Star) -> bool {
    within_reach(position, star.position, PLAYER_HALF_SIZE + STAR_HALF_SIZE)
}

/// Whether there is a player and some enemy touches it.
pub open spec fn player_is_hit(world: WorldView) -> bool {
    world.player matches Some(player) && exists|i: int|
        0 <= i < world.enemies.len() && touches_enemy(player.position, #[trigger] world.enemies[i])
}

/// The world after the player has been tested against the enemies. If any
/// enemy touches the player, the player is gone, one explosion is asked for and
/// one game-over event with the current score is raised, however many enemies
/// touch it. Otherwise nothing changes.
pub open spec fn after_player_hit_enemy(world: WorldView) -> WorldView {
    if player_is_hit(world) {
        WorldView {
            player: None,
            sound_effects: world.sound_effects.push(SoundEffect::Explosion),
            game_over_events: world.game_over_events.push(GameOver(world.score as u32)),
            ..world
        }
    } else {
        world
    }
}

/// The test that picks the stars that a player at `position` touches.
pub open spec fn caught_by(position: Vector2) -> spec_fn(Star) -> bool {
    |star: Star| touches_star(position, star)
}

/// The test that picks the stars that a player at `position` does not touch.
pub open spec fn missed_by(position: Vector2) -> spec_fn(Star) -> bool {
    |star: Star| !touches_star(position, star)
}

/// How many stars the player touches. Without a player, none.
pub open spec fn stars_caught(world: WorldView) -> nat {
    match world.player {
        Some(player) => world.stars.filter(caught_by(player.position)).len(),
        None => 0,
    }
}

/// The world after the player has been tested against the stars. Every star
/// that the player touches is gone and adds one to the score and one pickup to
/// the sound effects asked for; the other stars stay, in their order. The score
/// counts as set if any star was caught. Without a player nothing changes.
pub open spec fn after_player_hit_star(world: WorldView) -> WorldView {
    match world.player {
        Some(player) => WorldView {
            stars: world.stars.filter(missed_by(player.position)),
            score: world.score + stars_caught(world),
            score_changed: world.score_changed || stars_caught(world) > 0,
            sound_effects: world.sound_effects + Seq::new(
                stars_caught(world),
                |i: int| SoundEffect::Pickup,
            ),
            ..world
        },
        None => world,
    }
}

/// The direction that the held keys ask for.
pub fn key_direction(keys: &MovementKeys) -> (direction: Vector2)
    ensures
        direction == spec_key_direction(*keys),
        direction.is_direction(),
{
    let mut dx: i64 = 0;
    let mut dy: i64 = 0;
    if keys.left {
        dx -= 1;
    }
    if keys.right {
        dx += 1;
    }
    if keys.down {
        dy -= 1;
    }
    if keys.up {
        dy += 1;
    }
    if dx != 0 && dy != 0 {
        Vector2 { x: dx * DIAGONAL, y: dy * DIAGONAL }
    } else {
        Vector2 { x: dx * ONE, y: dy * ONE }
    }
}

/// Puts the player at the middle of the viewport.
pub fn spawn_player(world: &mut World, viewport: &Viewport)
    requires
        old(world)@.is_valid(),
        viewport.is_valid(),
    ensures
        final(world)@ == after_spawn_player(old(world)@, *viewport),
        final(world)@.is_valid(),
{
    world.player = Some(Player { position: viewport.center() });
}

/// Moves the player for `dt` nanoseconds in the direction that the held keys
/// ask for.
pub fn player_movement(world: &mut World, input: &Input, dt: u64)
    requires
        old(world)@.is_valid(),
    ensures
        final(world)@ == after_player_movement(old(world)@, input.movement(), dt as int),
        final(world)@.is_valid(),
{
    if let Some(player) = world.player {
        let keys = input.movement();
        let direction = key_direction(&keys);
        let position = player.position.advanced(direction, PLAYER_SPEED, dt);
        world.player = Some(Player { position });
    }
}

/// Brings the player's centre back inside the confinement bounds.
pub fn confine_player_movement(world: &mut World, viewport: &Viewport)
    requires
        old(world)@.is_valid(),
        viewport.is_valid(),
    ensures
        final(world)@ == after_player_confinement(old(world)@, *viewport),
        final(world)@.is_valid(),
{
    if let Some(player) = world.player {
        let position = player.position.confined(PLAYER_HALF_SIZE, viewport);
        world.player = Some(Player { position });
    }
}

/// Tells whether any of the enemies touches a player at `position`.
fn any_enemy_touches(enemies: &Vec<Enemy>, position: Vector2) -> (hit: bool)
    requires
        position.is_position(),
        forall|i: int| 0 <= i < enemies@.len() ==> (#[trigger] enemies@[i]).is_valid(),
    ensures
        hit == exists|i: int|
            0 <= i < enemies@.len() && touches_enemy(position, #[trigger] enemies@[i]),
{
    let count = enemies.len();
    let mut i: usize = 0;
    while i < count
        invariant
            i <= count,
            count == enemies@.len(),
            position.is_position(),
            forall|j: int| 0 <= j < enemies@.len() ==> (#[trigger] enemies@[j]).is_valid(),
            forall|j: int| 0 <= j < i ==> !touches_enemy(position, #[trigger] enemies@[j]),
        decreases count - i,
    {
        if collides(position, enemies[i].position, PLAYER_HALF_SIZE + ENEMY_HALF_SIZE) {
            return true;
        }
        i += 1;
    }
    false
}

/// Tests the player against every enemy. The first enemy found to touch the
/// player ends the run: the player is removed, an explosion is asked for and
/// one game-over event with the current score is raised.
pub fn player_hit_enemy(world: &mut World)
    requires
        old(world)@.is_valid(),
    ensures
        final(world)@ == after_player_hit_enemy(old(world)@),
        final(world)@.is_valid(),
{
    if let Some(player) = world.player {
        if any_enemy_touches(&world.enemies, player.position) {
            world.player = None;
            world.sound_effects.push(SoundEffect::Explosion);
            world.game_over_events.push(GameOver(world.score.0));
        }
    }
}

/// Splits the stars into those that a player at `position` misses, in their
/// order, and the number of those that it touches.
fn sift_stars(stars: &Vec<Star>, position: Vector2) -> (sifted: (Vec<Star>, usize))
    requires
        position.is_position(),
        forall|i: int| 0 <= i < stars@.len() ==> (#[trigger] stars@[i]).position.is_position(),
    ensures
        sifted.0@ == stars@.filter(missed_by(position)),
        sifted.1 == stars@.filter(caught_by(position)).len(),
        forall|i: int|
            0 <= i < sifted.0@.len() ==> (#[trigger] sifted.0@[i]).position.is_position(),
{
    let count = stars.len();
    let mut kept: Vec<Star> = Vec::new();
    let mut caught: usize = 0;
    let mut i: usize = 0;
    proof {
        reveal(Seq::filter);
        assert(stars@.take(0) =~= Seq::<Star>::empty());
    }
    while i < count
        invariant
            i <= count,
            count == stars@.len(),
            position.is_position(),
            forall|j: int| 0 <= j < stars@.len() ==> (#[trigger] stars@[j]).position.is_position(),
            kept@ == stars@.take(i as int).filter(missed_by(position)),
            caught == stars@.take(i as int).filter(caught_by(position)).len(),
            caught <= i,
            forall|j: int| 0 <= j < kept@.len() ==> (#[trigger] kept@[j]).position.is_position(),
        decreases count - i,
    {
        let star = stars[i];
        let touched = collides(position, star.position, PLAYER_HALF_SIZE + STAR_HALF_SIZE);
        proof {
            reveal(Seq::filter);
            let next = stars@.take(i + 1);
            assert(next.drop_last() =~= stars@.take(i as int));
            assert(next.last() == star);
        }
        if touched {
            caught += 1;
        } else {
            let ghost before = kept@;
            kept.push(star);
            assert forall|j: int| 0 <= j < kept@.len() implies (
            #[trigger] kept@[j]).position.is_position() by {
                if j < before.len() {
                    assert(kept@[j] == before[j]);
                }
            }
        }
        i += 1;
    }
    assert(stars@.take(count as int) =~= stars@);
    (kept, caught)
}

/// Asks for `count` pickup sounds.
fn push_pickups(sound_effects: &mut Vec<SoundEffect>, count: usize)
    ensures
        final(sound_effects)@ == old(sound_effects)@ + Seq::new(
            count as nat,
            |i: int| SoundEffect::Pickup,
        ),
{
    let mut i: usize = 0;
    while i < count
        invariant
            i <= count,
            sound_effects@ == old(sound_effects)@ + Seq::new(
                i as nat,
                |i: int| SoundEffect::Pickup,
            ),
        decreases count - i,
    {
        sound_effects.push(SoundEffect::Pickup);
        i += 1;
    }
}

/// Tests the player against every star. Each star that the player touches is
/// removed, adds one to the score and asks for one pickup sound.
pub fn player_hit_star(world: &mut World)
    requires
        old(world)@.is_valid(),
        old(world)@.score + stars_caught(old(world)@) <= u32::MAX,
    ensures
        final(world)@ == after_player_hit_star(old(world)@),
        final(world)@.is_valid(),
{
    if let Some(player) = world.player {
        let (kept, caught) = sift_stars(&world.stars, player.position);
        world.stars = kept;
        if caught > 0 {
            world.score = crate::score::Score(world.score.0 + caught as u32);
            world.score_changed = true;
        }
        push_pickups(&mut world.sound_effects, caught);
    }
}

/// After one step of movement and confinement the player's centre lies in
/// `[PLAYER_HALF_SIZE, extent - PLAYER_HALF_SIZE]` on both axes, whatever keys
/// are held and however long the frame took. This needs a viewport that is at
/// least as large as the sprite.
pub proof fn lemma_player_stays_in_bounds(
    world: WorldView,
    viewport: Viewport,
    keys: MovementKeys,
    dt: u64,
)
    requires
        viewport.is_valid(),
        viewport.width >= PLAYER_SIZE,
        viewport.height >= PLAYER_SIZE,
    ensures
        after_player_confinement(
            after_player_movement(world, keys, dt as int),
            viewport,
        ).player matches Some(player) ==> {
            &&& PLAYER_HALF_SIZE <= player.position.x <= viewport.width - PLAYER_HALF_SIZE
            &&& PLAYER_HALF_SIZE <= player.position.y <= viewport.height - PLAYER_HALF_SIZE
        },
        after_player_confinement(
            after_player_movement(world, keys, dt as int),
            viewport,
        ).player is Some <==> world.player is Some,
{
}

/// Confining the player twice in a row, with no movement in between, gives
/// the same world as confining it once. This needs a viewport that is at least
/// as large as the sprite.
pub proof fn lemma_player_confinement_is_idempotent(world: WorldView, viewport: Viewport)
    requires
        viewport.is_valid(),
        viewport.width >= PLAYER_SIZE,
        viewport.height >= PLAYER_SIZE,
    ensures
        after_player_confinement(after_player_confinement(world, viewport), viewport)
            == after_player_confinement(world, viewport),
{
}

/// The direction that the held keys ask for is the zero vector exactly when
/// the keys ask for nothing on either axis; otherwise its length is `ONE` to
/// within one part in a million.
pub proof fn lemma_key_direction_is_unit_or_zero(keys: MovementKeys)
    ensures
        ({
            let direction = spec_key_direction(keys);
            let length_squared = direction.x * direction.x + direction.y * direction.y;
            if keys.left == keys.right && keys.down == keys.up {
                direction == (Vector2 { x: 0, y: 0 })
            } else {
                ONE * ONE - ONE <= length_squared <= ONE * ONE + ONE
            }
        }),
{
    let dx = axis_intent(keys.left, keys.right);
    let dy = axis_intent(keys.down, keys.up);
    let direction = spec_key_direction(keys);
    let x = direction.x as int;
    let y = direction.y as int;
    if dx != 0 && dy != 0 {
        assert(x == DIAGONAL || x == -DIAGONAL);
        assert(y == DIAGONAL || y == -DIAGONAL);
        assert(x * x == 500_000_309_449) by (nonlinear_arith)
            requires
                x == 707_107 || x == -707_107,
        ;
        assert(y * y == 500_000_309_449) by (nonlinear_arith)
            requires
                y == 707_107 || y == -707_107,
        ;
    } else {
        assert(x == dx * ONE && y == dy * ONE);
        assert(x * x == 1_000_000_000_000 * (dx * dx)) by (nonlinear_arith)
            requires
                x == dx * 1_000_000,
        ;
        assert(y * y == 1_000_000_000_000 * (dy * dy)) by (nonlinear_arith)
            requires
                y == dy * 1_000_000,
        ;
        assert(dx * dx == (if dx == 0 { 0int } else { 1int })) by (nonlinear_arith)
            requires
                dx == -1 || dx == 0 || dx == 1,
        ;
        assert(dy * dy == (if dy == 0 { 0int } else { 1int })) by (nonlinear_arith)
            requires
                dy == -1 || dy == 0 || dy == 1,
        ;
    }
}

/// The player collects a star only when strictly closer to it than the sum of
/// the half sizes: a star whose centre is exactly that far from the player's
/// centre, or further, stays.
pub proof fn lemma_star_at_reach_is_not_caught(position: Vector2, star: Star)
    requires
        crate::geometry::distance_squared(position, star.position) >= (PLAYER_HALF_SIZE
            + STAR_HALF_SIZE) * (PLAYER_HALF_SIZE + STAR_HALF_SIZE),
    ensures
        !touches_star(position, star),
{
}

/// An enemy whose centre is exactly the sum of the half sizes from the
/// player's centre, or further, does not end the run.
pub proof fn lemma_enemy_at_reach_does_not_hit(position: Vector2, enemy: Enemy)
    requires
        crate::geometry::distance_squared(position, enemy.position) >= (PLAYER_HALF_SIZE
            + ENEMY_HALF_SIZE) * (PLAYER_HALF_SIZE + ENEMY_HALF_SIZE),
    ensures
        !touches_enemy(position, enemy),
{
}

/// One frame raises at most one game-over event, and once the player is gone
/// the test against the enemies changes nothing.
pub proof fn lemma_player_is_hit_once(world: WorldView)
    ensures
        after_player_hit_enemy(world).game_over_events.len() <= world.game_over_events.len() + 1,
        after_player_hit_enemy(after_player_hit_enemy(world)) == after_player_hit_enemy(world),
        world.player is None ==> after_player_hit_enemy(world) == world,
        world.player is None ==> after_player_hit_star(world) == world,
{
}

/// Collecting stars changes the score by exactly the number of stars that
/// left the world, and never lowers it.
pub proof fn lemma_score_counts_stars_collected(world: WorldView)
    ensures
        after_player_hit_star(world).score == world.score + (world.stars.len()
            - after_player_hit_star(world).stars.len()),
        after_player_hit_star(world).stars.len() <= world.stars.len(),
{
    if let Some(player) = world.player {
        lemma_filter_splits(world.stars, player.position);
    }
}

/// Each star is either caught or missed.
proof fn lemma_filter_splits(stars: Seq<Star>, position: Vector2)
    ensures
        stars.filter(caught_by(position)).len() + stars.filter(missed_by(position)).len()
            == stars.len(),
    decreases stars.len(),
{
    reveal(Seq::filter);
    if stars.len() > 0 {
        lemma_filter_splits(stars.drop_last(), position);
    }
}

} // verus!
