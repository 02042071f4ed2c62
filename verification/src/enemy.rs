//! The enemies: movement, bouncing off the walls, confinement to the
//! viewport, and spawning.

use vstd::prelude::*;
use vstd::arithmetic::div_mod::{lemma_fundamental_div_mod, lemma_mod_bound};
use crate::events::SoundEffect;
use crate::geometry::{distance_squared, is_outside, outside, stretch, Vector2, Viewport, ONE};
use crate::random::{is_spawn_position, random_bool, random_position, spec_position_at};
use crate::timer::{Timer, TimerMode};
use crate::world::{World, WorldView};

verus! {

/// Number of enemies spawned at startup.
pub const INITIAL_NUMBER_OF_ENEMIES: usize = 10;

/// Number of live enemies at which timed spawning stops adding more.
pub const MAX_NUMBER_OF_ENEMIES: usize = 20;

/// Width and height of an enemy's sprite.
pub const ENEMY_SIZE: i64 = 64_000_000;

/// Half of `ENEMY_SIZE`: how far the sprite reaches from its centre.
pub const ENEMY_HALF_SIZE: i64 = 32_000_000;

/// An enemy's speed, in units per second.
pub const ENEMY_SPEED: i64 = 350_000_000;

/// Distance from the player at which the enemies of the startup ring are
/// placed: just beyond the sum of the two half sizes, so that none of them
/// touches the player at once.
pub const ENEMY_RING_RADIUS: i64 = 64_012_800;

/// Nanoseconds between two timed enemy spawns.
pub const ENEMY_SPAWN_TIME: u64 = 2_500_000_000;

/// An enemy: it travels in a straight line and bounces off the walls.
#[derive(Clone, Copy, Debug, PartialEq, Eq, Structural)]
pub struct Enemy {
    /// Centre of the sprite.
    pub position: Vector2,
    /// Direction of travel, by convention of length `ONE`.
    pub direction: Vector2,
}

impl Enemy {
    /// The position is in the coordinate range and neither component of the
    /// direction is longer than a unit.
    pub open spec fn is_valid(self) -> bool {
        self.position.is_position() && self.direction.is_direction()
    }
}

/// The repeating timer that paces timed enemy spawns.
#[derive(Clone, Copy, Debug, PartialEq, Eq, Structural)]
pub struct EnemySpawnTimer(pub Timer);

impl EnemySpawnTimer {
    /// The timer at the start of a run.
    pub open spec fn initial() -> Timer {
        Timer::spec_new(ENEMY_SPAWN_TIME, TimerMode::Repeating)
    }
}

impl Default for EnemySpawnTimer {
    fn default() -> (timer: EnemySpawnTimer)
        ensures
            timer.0 == EnemySpawnTimer::initial(),
            timer.0.is_valid(),
    {
        EnemySpawnTimer(Timer::new(ENEMY_SPAWN_TIME, TimerMode::Repeating))
    }
}

/// The enemy after `dt` nanoseconds of travel.
pub open spec fn moved(enemy: Enemy, dt: int) -> Enemy {
    Enemy {
        position: enemy.position.spec_advanced(enemy.direction, ENEMY_SPEED as int, dt),
        ..enemy
    }
}

/// The world after every enemy has travelled for `dt` nanoseconds.
pub open spec fn after_enemy_movement(world: WorldView, dt: int) -> WorldView {
    WorldView { enemies: world.enemies.map_values(|enemy: Enemy| moved(enemy, dt)), ..world }
}

/// Moves each of the enemies for `dt` nanoseconds.
fn move_all(enemies: &mut Vec<Enemy>, dt: u64)
    requires
        forall|i: int| 0 <= i < old(enemies)@.len() ==> (#[trigger] old(enemies)@[i]).is_valid(),
    ensures
        final(enemies)@ == old(enemies)@.map_values(|enemy: Enemy| moved(enemy, dt as int)),
        forall|i: int|
            0 <= i < final(enemies)@.len() ==> (#[trigger] final(enemies)@[i]).is_valid(),
{
    let count = enemies.len();
    let mut i: usize = 0;
    while i < count
        invariant
            i <= count,
            enemies@.len() == count,
            old(enemies)@.len() == count,
            forall|j: int|
                0 <= j < i ==> #[trigger] enemies@[j] == moved(old(enemies)@[j], dt as int),
            forall|j: int| i <= j < count ==> #[trigger] enemies@[j] == old(enemies)@[j],
            forall|j: int| 0 <= j < count ==> (#[trigger] old(enemies)@[j]).is_valid(),
            forall|j: int| 0 <= j < i ==> (#[trigger] enemies@[j]).is_valid(),
        decreases count - i,
    {
        let enemy = enemies[i];
        let position = enemy.position.advanced(enemy.direction, ENEMY_SPEED, dt);
        enemies.set(i, Enemy { position, direction: enemy.direction });
        i += 1;
    }
    assert(enemies@ =~= old(enemies)@.map_values(|enemy: Enemy| moved(enemy, dt as int)));
}

/// Moves every enemy along its direction for `dt` nanoseconds.
pub fn enemy_movement(world: &mut World, dt: u64)
    requires
        old(world)@.is_valid(),
    ensures
        final(world)@ == after_enemy_movement(old(world)@, dt as int),
        final(world)@.is_valid(),
{
    move_all(&mut world.enemies, dt);
}

/// Whether the enemy's centre is past the confinement bounds on the
/// horizontal axis.
pub open spec fn past_side_walls(enemy: Enemy, viewport: Viewport) -> bool {
    outside(enemy.position.x as int, ENEMY_HALF_SIZE as int, viewport.width as int)
}

/// Whether the enemy's centre is past the confinement bounds on the vertical
/// axis.
pub open spec fn past_end_walls(enemy: Enemy, viewport: Viewport) -> bool {
    outside(enemy.position.y as int, ENEMY_HALF_SIZE as int, viewport.height as int)
}

/// The enemy after bouncing: on each axis on which its centre is past the
/// bounds, the component of its direction is negated. Its position stays.
pub open spec fn bounced(enemy: Enemy, viewport: Viewport) -> Enemy {
    Enemy {
        direction: enemy.direction.spec_reflected(
            past_side_walls(enemy, viewport),
            past_end_walls(enemy, viewport),
        ),
        ..enemy
    }
}

/// Whether any enemy is past the bounds on any axis.
pub open spec fn any_past_walls(enemies: Seq<Enemy>, viewport: Viewport) -> bool {
    exists|i: int|
        0 <= i < enemies.len() && (past_side_walls(#[trigger] enemies[i], viewport)
            || past_end_walls(enemies[i], viewport))
}

/// The sound of a bounce: the coin picks one of the two.
pub open spec fn bounce_effect(coin: bool) -> SoundEffect {
    if coin {
        SoundEffect::PluckLow
    } else {
        SoundEffect::PluckHigh
    }
}

/// The world after every enemy has bounced. If any enemy was past the bounds,
/// one sound effect is asked for, however many enemies bounced.
pub open spec fn after_bounce(world: WorldView, viewport: Viewport, coin: bool) -> WorldView {
    WorldView {
        enemies: world.enemies.map_values(|enemy: Enemy| bounced(enemy, viewport)),
        sound_effects: if any_past_walls(world.enemies, viewport) {
            world.sound_effects.push(bounce_effect(coin))
        } else {
            world.sound_effects
        },
        ..world
    }
}

/// The enemy with its centre brought back inside the confinement bounds.
pub open spec fn confined(enemy: Enemy, viewport: Viewport) -> Enemy {
    Enemy { position: enemy.position.spec_confined(ENEMY_HALF_SIZE as int, viewport), ..enemy }
}

/// The world after every enemy has been brought back inside the bounds.
pub open spec fn after_enemy_confinement(world: WorldView, viewport: Viewport) -> WorldView {
    WorldView {
        enemies: world.enemies.map_values(|enemy: Enemy| confined(enemy, viewport)),
        ..world
    }
}

/// The enemy of the startup ring that travels along `direction`: it starts at
/// `ENEMY_RING_RADIUS` from the middle of the viewport, on the side to which it
/// travels.
pub open spec fn ring_enemy(viewport: Viewport, direction: Vector2) -> Enemy {
    Enemy {
        position: viewport.center().spec_offset(direction, ENEMY_RING_RADIUS as int),
        direction,
    }
}

/// The world with the startup ring added: one enemy for each direction, in
/// their order, after the enemies that were there.
pub open spec fn after_spawn_enemies(
    world: WorldView,
    viewport: Viewport,
    directions: Seq<Vector2>,
) -> WorldView {
    WorldView {
        enemies: world.enemies + directions.map_values(
            |direction: Vector2| ring_enemy(viewport, direction),
        ),
        ..world
    }
}

/// Whether a timed enemy spawn happens now: the timer is finished and the
/// enemies are fewer than the cap.
pub open spec fn enemy_spawn_due(world: WorldView) -> bool {
    world.enemy_spawn_timer.finished && world.enemies.len() < MAX_NUMBER_OF_ENEMIES
}

/// The world with one more enemy, after those that were there.
pub open spec fn with_enemy(world: WorldView, enemy: Enemy) -> WorldView {
    WorldView { enemies: world.enemies.push(enemy), ..world }
}

/// The world after the timed enemy spawn, where `position` is the place drawn
/// for a new enemy.
pub open spec fn after_enemy_spawn(
    world: WorldView,
    position: Vector2,
    direction: Vector2,
) -> WorldView {
    if enemy_spawn_due(world) {
        with_enemy(world, Enemy { position, direction })
    } else {
        world
    }
}

/// The world after the enemy spawn timer has gathered `dt` more nanoseconds.
pub open spec fn after_enemy_timer_tick(world: WorldView, dt: int) -> WorldView {
    WorldView { enemy_spawn_timer: world.enemy_spawn_timer.ticked(dt), ..world }
}

/// Lets each of the enemies bounce, and tells whether any was past a wall.
fn reflect_all(enemies: &mut Vec<Enemy>, viewport: &Viewport) -> (any: bool)
    requires
        viewport.is_valid(),
        forall|i: int| 0 <= i < old(enemies)@.len() ==> (#[trigger] old(enemies)@[i]).is_valid(),
    ensures
        final(enemies)@ == old(enemies)@.map_values(|enemy: Enemy| bounced(enemy, *viewport)),
        forall|i: int|
            0 <= i < final(enemies)@.len() ==> (#[trigger] final(enemies)@[i]).is_valid(),
        any == any_past_walls(old(enemies)@, *viewport),
{
    let count = enemies.len();
    let mut any = false;
    let mut i: usize = 0;
    while i < count
        invariant
            i <= count,
            viewport.is_valid(),
            enemies@.len() == count,
            old(enemies)@.len() == count,
            forall|j: int|
                0 <= j < i ==> #[trigger] enemies@[j] == bounced(old(enemies)@[j], *viewport),
            forall|j: int| i <= j < count ==> #[trigger] enemies@[j] == old(enemies)@[j],
            forall|j: int| 0 <= j < count ==> (#[trigger] old(enemies)@[j]).is_valid(),
            any == any_past_walls(old(enemies)@.take(i as int), *viewport),
        decreases count - i,
    {
        let enemy = enemies[i];
        let flip_x = is_outside(enemy.position.x, ENEMY_HALF_SIZE, viewport.width);
        let flip_y = is_outside(enemy.position.y, ENEMY_HALF_SIZE, viewport.height);
        let direction = enemy.direction.reflected(flip_x, flip_y);
        enemies.set(i, Enemy { position: enemy.position, direction });
        proof {
            let before = old(enemies)@.take(i as int);
            let now = old(enemies)@.take(i + 1);
            assert(now[i as int] == old(enemies)@[i as int]);
            assert(forall|j: int| 0 <= j < i ==> before[j] == now[j]);
            if any_past_walls(before, *viewport) {
                let k = choose|k: int|
                    0 <= k < before.len() && (past_side_walls(#[trigger] before[k], *viewport)
                        || past_end_walls(before[k], *viewport));
                assert(now[k] == before[k]);
            }
            if any_past_walls(now, *viewport) && !(flip_x || flip_y) {
                let k = choose|k: int|
                    0 <= k < now.len() && (past_side_walls(#[trigger] now[k], *viewport)
                        || past_end_walls(now[k], *viewport));
                assert(before[k] == now[k]);
            }
        }
        any = any || flip_x || flip_y;
        i += 1;
    }
    assert(old(enemies)@.take(count as int) =~= old(enemies)@);
    assert(enemies@ =~= old(enemies)@.map_values(|enemy: Enemy| bounced(enemy, *viewport)));
    any
}

/// Brings each of the enemies back inside the confinement bounds.
fn confine_all(enemies: &mut Vec<Enemy>, viewport: &Viewport)
    requires
        viewport.is_valid(),
        forall|i: int| 0 <= i < old(enemies)@.len() ==> (#[trigger] old(enemies)@[i]).is_valid(),
    ensures
        final(enemies)@ == old(enemies)@.map_values(|enemy: Enemy| confined(enemy, *viewport)),
        forall|i: int|
            0 <= i < final(enemies)@.len() ==> (#[trigger] final(enemies)@[i]).is_valid(),
{
    let count = enemies.len();
    let mut i: usize = 0;
    while i < count
        invariant
            i <= count,
            viewport.is_valid(),
            enemies@.len() == count,
            old(enemies)@.len() == count,
            forall|j: int|
                0 <= j < i ==> #[trigger] enemies@[j] == confined(old(enemies)@[j], *viewport),
            forall|j: int| i <= j < count ==> #[trigger] enemies@[j] == old(enemies)@[j],
            forall|j: int| 0 <= j < count ==> (#[trigger] old(enemies)@[j]).is_valid(),
            forall|j: int| 0 <= j < i ==> (#[trigger] enemies@[j]).is_valid(),
        decreases count - i,
    {
        let enemy = enemies[i];
        let position = enemy.position.confined(ENEMY_HALF_SIZE, viewport);
        enemies.set(i, Enemy { position, direction: enemy.direction });
        i += 1;
    }
    assert(enemies@ =~= old(enemies)@.map_values(|enemy: Enemy| confined(enemy, *viewport)));
}

/// Turns every enemy that is past a wall back toward the inside, and asks for
/// the bounce sound that `coin` picks if any enemy was past a wall.
pub fn bounce_enemies(world: &mut World, viewport: &Viewport, coin: bool)
    requires
        old(world)@.is_valid(),
        viewport.is_valid(),
    ensures
        final(world)@ == after_bounce(old(world)@, *viewport, coin),
        final(world)@.is_valid(),
{
    let any = reflect_all(&mut world.enemies, viewport);
    if any {
        world.sound_effects.push(
            if coin {
                SoundEffect::PluckLow
            } else {
                SoundEffect::PluckHigh
            },
        );
    }
}

/// Turns every enemy that is past a wall back toward the inside. If any enemy
/// was past a wall, tosses a coin for which of the two bounce sounds to ask
/// for; the world is then as `bounce_enemies` leaves it for that coin.
pub fn update_enemy_direction(world: &mut World, viewport: &Viewport)
    requires
        old(world)@.is_valid(),
        viewport.is_valid(),
    ensures
        exists|coin: bool| final(world)@ == after_bounce(old(world)@, *viewport, coin),
        final(world)@.is_valid(),
{
    let any = reflect_all(&mut world.enemies, viewport);
    if any {
        let coin = random_bool();
        world.sound_effects.push(
            if coin {
                SoundEffect::PluckLow
            } else {
                SoundEffect::PluckHigh
            },
        );
        assert(world@ == after_bounce(old(world)@, *viewport, coin));
    } else {
        assert(world@ == after_bounce(old(world)@, *viewport, true));
    }
}

/// Brings every enemy's centre back inside the confinement bounds.
pub fn confine_enemy_movement(world: &mut World, viewport: &Viewport)
    requires
        old(world)@.is_valid(),
        viewport.is_valid(),
    ensures
        final(world)@ == after_enemy_confinement(old(world)@, *viewport),
        final(world)@.is_valid(),
{
    confine_all(&mut world.enemies, viewport);
}

/// Hands `dt` nanoseconds to the enemy spawn timer.
pub fn tick_enemy_spawn_timer(world: &mut World, dt: u64)
    requires
        old(world)@.is_valid(),
    ensures
        final(world)@ == after_enemy_timer_tick(old(world)@, dt as int),
        final(world)@.is_valid(),
{
    world.enemy_spawn_timer.0.tick(dt);
}

/// Adds an enemy to the world.
pub fn spawn_enemy_at(world: &mut World, position: Vector2, direction: Vector2)
    requires
        old(world)@.is_valid(),
        position.is_position(),
        direction.is_direction(),
    ensures
        final(world)@ == with_enemy(old(world)@, Enemy { position, direction }),
        final(world)@.is_valid(),
{
    world.enemies.push(Enemy { position, direction });
}

/// Adds the startup ring to the enemies.
fn push_ring(
    enemies: &mut Vec<Enemy>,
    viewport: &Viewport,
    directions: &[Vector2; INITIAL_NUMBER_OF_ENEMIES],
)
    requires
        viewport.is_valid(),
        forall|i: int| 0 <= i < old(enemies)@.len() ==> (#[trigger] old(enemies)@[i]).is_valid(),
        forall|i: int| 0 <= i < directions@.len() ==> (#[trigger] directions@[i]).is_direction(),
    ensures
        final(enemies)@ == old(enemies)@ + directions@.map_values(
            |direction: Vector2| ring_enemy(*viewport, direction),
        ),
        forall|i: int|
            0 <= i < final(enemies)@.len() ==> (#[trigger] final(enemies)@[i]).is_valid(),
{
    let middle = viewport.center();
    let mut i: usize = 0;
    while i < INITIAL_NUMBER_OF_ENEMIES
        invariant
            i <= INITIAL_NUMBER_OF_ENEMIES,
            directions@.len() == INITIAL_NUMBER_OF_ENEMIES,
            viewport.is_valid(),
            middle == viewport.center(),
            0 <= middle.x <= viewport.width,
            0 <= middle.y <= viewport.height,
            forall|j: int|
                0 <= j < directions@.len() ==> (#[trigger] directions@[j]).is_direction(),
            forall|j: int| 0 <= j < enemies@.len() ==> (#[trigger] enemies@[j]).is_valid(),
            enemies@ == old(enemies)@ + directions@.take(i as int).map_values(
                |direction: Vector2| ring_enemy(*viewport, direction),
            ),
        decreases INITIAL_NUMBER_OF_ENEMIES - i,
    {
        let direction = directions[i];
        let position = middle.offset(direction, ENEMY_RING_RADIUS);
        let ghost before = enemies@;
        enemies.push(Enemy { position, direction });
        proof {
            assert forall|j: int| 0 <= j < enemies@.len() implies (
            #[trigger] enemies@[j]).is_valid() by {
                if j < before.len() {
                    assert(enemies@[j] == before[j]);
                }
            }
            let place = |direction: Vector2| ring_enemy(*viewport, direction);
            assert(directions@.take(i + 1).map_values(place) =~= directions@.take(
                i as int,
            ).map_values(place).push(ring_enemy(*viewport, direction)));
        }
        i += 1;
    }
    assert(directions@.take(INITIAL_NUMBER_OF_ENEMIES as int) =~= directions@);
}

/// Spawns the startup ring: one enemy for each of the given directions, each
/// placed at `ENEMY_RING_RADIUS` from the middle of the viewport on the side
/// to which it travels.
pub fn spawn_enemies(
    world: &mut World,
    viewport: &Viewport,
    directions: &[Vector2; INITIAL_NUMBER_OF_ENEMIES],
)
    requires
        old(world)@.is_valid(),
        viewport.is_valid(),
        forall|i: int| 0 <= i < directions@.len() ==> (#[trigger] directions@[i]).is_direction(),
    ensures
        final(world)@ == after_spawn_enemies(old(world)@, *viewport, directions@),
        final(world)@.is_valid(),
{
    push_ring(&mut world.enemies, viewport, directions);
}

/// The timed enemy spawn: if the enemy spawn timer is finished and the
/// enemies are fewer than `MAX_NUMBER_OF_ENEMIES`, draws a position in the
/// viewport and adds an enemy there that travels along `direction`. At the cap
/// nothing is added. The timer is left as it is either way.
pub fn spawn_enemies_over_time(world: &mut World, viewport: &Viewport, direction: Vector2)
    requires
        old(world)@.is_valid(),
        viewport.is_valid(),
        direction.is_direction(),
    ensures
        exists|position: Vector2|
            is_spawn_position(*viewport, position) && final(world)@ == #[trigger] after_enemy_spawn(
                old(world)@,
                position,
                direction,
            ),
        !enemy_spawn_due(old(world)@) ==> final(world)@ == old(world)@,
        final(world)@.is_valid(),
{
    if world.enemy_spawn_timer.0.finished() {
        if world.enemies.len() >= MAX_NUMBER_OF_ENEMIES {
            proof {
                lemma_nothing_spawned(old(world)@, *viewport, direction);
            }
            return ;
        }
        let position = random_position(viewport);
        world.enemies.push(Enemy { position, direction });
        assert(world@ == after_enemy_spawn(old(world)@, position, direction));
    } else {
        proof {
            lemma_nothing_spawned(old(world)@, *viewport, direction);
        }
    }
}

/// Where no spawn is due, the world is as the timed spawn leaves it for some
/// spawn position.
proof fn lemma_nothing_spawned(world: WorldView, viewport: Viewport, direction: Vector2)
    requires
        !enemy_spawn_due(world),
    ensures
        exists|position: Vector2|
            is_spawn_position(viewport, position) && world == #[trigger] after_enemy_spawn(
                world,
                position,
                direction,
            ),
{
    let position = spec_position_at(viewport, 0, 0);
    assert(is_spawn_position(viewport, position));
    assert(world == after_enemy_spawn(world, position, direction));
}

/// The bounce flips exactly the axes on which the enemy's centre is past the
/// bounds: on such an axis the component of the direction is negated, on the
/// other it stays, and the position stays.
pub proof fn lemma_bounce_flips_exactly_the_axes_past_the_bounds(enemy: Enemy, viewport: Viewport)
    requires
        enemy.is_valid(),
    ensures
        bounced(enemy, viewport).position == enemy.position,
        bounced(enemy, viewport).direction.x == if past_side_walls(enemy, viewport) {
            -enemy.direction.x
        } else {
            enemy.direction.x as int
        },
        bounced(enemy, viewport).direction.y == if past_end_walls(enemy, viewport) {
            -enemy.direction.y
        } else {
            enemy.direction.y as int
        },
{
}

/// An enemy whose centre is exactly on a bound of an axis is not past it: the
/// bounce leaves that component of its direction as it is. This needs a
/// viewport that is at least as large as the sprite on that axis.
pub proof fn lemma_enemy_on_a_bound_keeps_its_direction(enemy: Enemy, viewport: Viewport)
    requires
        enemy.is_valid(),
        viewport.is_valid(),
    ensures
        viewport.width >= ENEMY_SIZE && (enemy.position.x == ENEMY_HALF_SIZE || enemy.position.x
            == viewport.width - ENEMY_HALF_SIZE) ==> bounced(enemy, viewport).direction.x
            == enemy.direction.x,
        viewport.height >= ENEMY_SIZE && (enemy.position.y == ENEMY_HALF_SIZE || enemy.position.y
            == viewport.height - ENEMY_HALF_SIZE) ==> bounced(enemy, viewport).direction.y
            == enemy.direction.y,
{
}

/// The frame after an enemy sat exactly on the lower bound of the horizontal
/// axis: if its movement takes it past that bound, the bounce turns the
/// horizontal component of its direction and leaves the vertical one to the
/// vertical axis alone; if it does not leave the bounds on either axis, the
/// bounce changes nothing.
pub proof fn lemma_bounce_after_leaving_a_bound(enemy: Enemy, viewport: Viewport, dt: u64)
    requires
        enemy.is_valid(),
        viewport.is_valid(),
        enemy.position.x == ENEMY_HALF_SIZE,
    ensures
        ({
            let arrived = moved(enemy, dt as int);
            let turned = bounced(arrived, viewport);
            &&& turned.position == arrived.position
            &&& arrived.position.x < ENEMY_HALF_SIZE ==> turned.direction.x == -enemy.direction.x
            &&& turned.direction.y == if past_end_walls(arrived, viewport) {
                -enemy.direction.y
            } else {
                enemy.direction.y as int
            }
            &&& !past_side_walls(arrived, viewport) && !past_end_walls(arrived, viewport)
                ==> turned == arrived
        }),
{
}

/// Every enemy bounces by itself: the enemy at each index after the bounce is
/// the bounced enemy that was at that index, and no enemy is added or removed.
pub proof fn lemma_bounce_is_per_enemy(world: WorldView, viewport: Viewport, coin: bool, i: int)
    requires
        0 <= i < world.enemies.len(),
    ensures
        after_bounce(world, viewport, coin).enemies.len() == world.enemies.len(),
        after_bounce(world, viewport, coin).enemies[i] == bounced(world.enemies[i], viewport),
        after_bounce(world, viewport, coin).sound_effects.len() <= world.sound_effects.len() + 1,
{
}

/// After confinement every enemy's centre lies in
/// `[ENEMY_HALF_SIZE, extent - ENEMY_HALF_SIZE]` on both axes, and confining
/// the enemies twice in a row gives the same world as confining them once.
/// This needs a viewport that is at least as large as the sprite.
pub proof fn lemma_enemy_confinement_is_idempotent(world: WorldView, viewport: Viewport)
    requires
        viewport.is_valid(),
        viewport.width >= ENEMY_SIZE,
        viewport.height >= ENEMY_SIZE,
    ensures
        after_enemy_confinement(after_enemy_confinement(world, viewport), viewport)
            == after_enemy_confinement(world, viewport),
        forall|i: int|
            0 <= i < world.enemies.len() ==> {
                let enemy = #[trigger] after_enemy_confinement(world, viewport).enemies[i];
                &&& ENEMY_HALF_SIZE <= enemy.position.x <= viewport.width - ENEMY_HALF_SIZE
                &&& ENEMY_HALF_SIZE <= enemy.position.y <= viewport.height - ENEMY_HALF_SIZE
            },
{
    let once = after_enemy_confinement(world, viewport);
    let twice = after_enemy_confinement(once, viewport);
    assert(twice.enemies =~= once.enemies);
}

/// Timed spawning never takes the enemies above the cap: it adds at most one
/// enemy, and none where `MAX_NUMBER_OF_ENEMIES` or more are alive. It leaves
/// the timer, and all else but the enemies, as they were.
pub proof fn lemma_timed_spawn_respects_the_cap(
    world: WorldView,
    position: Vector2,
    direction: Vector2,
)
    ensures
        world.enemies.len() >= MAX_NUMBER_OF_ENEMIES ==> after_enemy_spawn(
            world,
            position,
            direction,
        ) == world,
        world.enemies.len() <= MAX_NUMBER_OF_ENEMIES ==> after_enemy_spawn(
            world,
            position,
            direction,
        ).enemies.len() <= MAX_NUMBER_OF_ENEMIES,
        after_enemy_spawn(world, position, direction).enemies.len() <= world.enemies.len() + 1,
        after_enemy_spawn(world, position, direction) == (WorldView {
            enemies: after_enemy_spawn(world, position, direction).enemies,
            ..world
        }),
{
}

/// Stretching a component loses less than one unit: in units of `ONE`, the
/// square of what comes out is at least the square of the exact product less
/// twice that product.
proof fn lemma_stretch_is_nearly_exact(direction: int, length: int)
    requires
        -ONE <= direction <= ONE,
        0 <= length,
    ensures
        ({
            let exact = (if direction >= 0 { direction } else { -direction }) * length;
            let stretched = stretch(direction, length);
            &&& 0 <= exact <= ONE * length
            &&& exact * exact == length * length * (direction * direction)
            &&& ONE * ONE * (stretched * stretched) >= exact * exact - 2 * ONE * exact
        }),
{
    let along = if direction >= 0 { direction } else { -direction };
    let exact = along * length;
    let stretched = stretch(direction, length);
    assert(0 <= exact <= ONE * length) by (nonlinear_arith)
        requires
            0 <= along <= ONE,
            0 <= length,
            exact == along * length,
    ;
    assert(direction * length == if direction >= 0 { exact } else { -exact })
        by (nonlinear_arith)
        requires
            exact == along * length,
            along == if direction >= 0 { direction } else { -direction },
    ;
    let whole = exact / (ONE as int);
    let rest = exact % (ONE as int);
    lemma_fundamental_div_mod(exact, ONE as int);
    lemma_mod_bound(exact, ONE as int);
    assert(stretched == whole || stretched == -whole);
    assert(stretched * stretched == whole * whole) by (nonlinear_arith)
        requires
            stretched == whole || stretched == -whole,
    ;
    assert(exact * exact == length * length * (direction * direction)) by (nonlinear_arith)
        requires
            exact == along * length,
            along == direction || along == -direction,
    ;
    let kept = ONE * whole;
    assert(ONE * ONE * (whole * whole) == kept * kept) by (nonlinear_arith)
        requires
            kept == ONE * whole,
    ;
    assert(kept * kept >= exact * exact - 2 * ONE * exact) by (nonlinear_arith)
        requires
            0 <= kept <= exact,
            exact - ONE < kept,
            ONE > 0,
    ;
}

/// The startup ring keeps clear of the player: an enemy placed on the ring
/// does not touch a player at the middle of the viewport, provided the length
/// of its direction is at least 0.9999 of a unit.
pub proof fn lemma_ring_enemy_is_out_of_reach(viewport: Viewport, direction: Vector2)
    requires
        viewport.is_valid(),
        direction.is_direction(),
        direction.x * direction.x + direction.y * direction.y >= 999_900 * 999_900,
    ensures
        !crate::player::touches_enemy(viewport.center(), ring_enemy(viewport, direction)),
        ring_enemy(viewport, direction).is_valid(),
{
    let middle = viewport.center();
    let enemy = ring_enemy(viewport, direction);
    let radius = ENEMY_RING_RADIUS as int;
    let sx = stretch(direction.x as int, radius);
    let sy = stretch(direction.y as int, radius);
    lemma_stretch_is_nearly_exact(direction.x as int, radius);
    lemma_stretch_is_nearly_exact(direction.y as int, radius);
    let ex = (if direction.x >= 0 { direction.x as int } else { -direction.x }) * radius;
    let ey = (if direction.y >= 0 { direction.y as int } else { -direction.y }) * radius;
    let length_squared = direction.x * direction.x + direction.y * direction.y;
    assert(-radius <= sx <= radius && -radius <= sy <= radius);
    assert(enemy.position.x == middle.x + sx);
    assert(enemy.position.y == middle.y + sy);
    assert(distance_squared(middle, enemy.position) == sx * sx + sy * sy) by (nonlinear_arith)
        requires
            distance_squared(middle, enemy.position) == (middle.x - enemy.position.x) * (middle.x
                - enemy.position.x) + (middle.y - enemy.position.y) * (middle.y
                - enemy.position.y),
            enemy.position.x == middle.x + sx,
            enemy.position.y == middle.y + sy,
    ;
    assert(ex * ex + ey * ey == radius * radius * length_squared) by (nonlinear_arith)
        requires
            ex * ex == radius * radius * (direction.x * direction.x),
            ey * ey == radius * radius * (direction.y * direction.y),
            length_squared == direction.x * direction.x + direction.y * direction.y,
    ;
    assert(radius * radius * length_squared >= radius * radius * (999_900 * 999_900))
        by (nonlinear_arith)
        requires
            length_squared >= 999_900 * 999_900,
    ;
    assert(ONE * ONE * (sx * sx + sy * sy) >= ONE * ONE * (64_000_000 * 64_000_000)) by {
        assert(ONE * ONE * (sx * sx + sy * sy) == ONE * ONE * (sx * sx) + ONE * ONE * (sy * sy))
            by (nonlinear_arith);
        assert(64_012_800 * 64_012_800 * (999_900 * 999_900) - 4 * ONE * ONE * 64_012_800 >= ONE
            * ONE * (64_000_000 * 64_000_000));
        assert(2 * ONE * ex + 2 * ONE * ey <= 4 * ONE * ONE * 64_012_800);
    }
    assert(sx * sx + sy * sy >= 64_000_000 * 64_000_000) by (nonlinear_arith)
        requires
            ONE * ONE * (sx * sx + sy * sy) >= ONE * ONE * (64_000_000 * 64_000_000),
            ONE > 0,
    ;
}

} // verus!
