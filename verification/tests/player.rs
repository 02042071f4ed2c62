use ball_game::enemy::{spawn_enemy_at, Enemy};
use ball_game::events::{GameOver, SoundEffect};
use ball_game::geometry::{Vector2, Viewport, COORD_MAX, ONE};
use ball_game::input::{Input, Keys, MovementKeys};
use ball_game::player::{
    confine_player_movement, key_direction, player_hit_enemy, player_hit_star, player_movement,
    spawn_player, Player, DIAGONAL, PLAYER_HALF_SIZE, PLAYER_SIZE, PLAYER_SPEED,
};
use ball_game::score::{update_high_scores, Score};
use ball_game::star::{spawn_star_at, Star, STAR_HALF_SIZE};
use ball_game::world::World;

const MS: u64 = 1_000_000;

fn px(n: i64) -> i64 {
    n * ONE
}

fn at(x: i64, y: i64) -> Vector2 {
    Vector2::new(px(x), px(y))
}

fn held(left: bool, right: bool, down: bool, up: bool) -> Input {
    let mut pressed = Keys::none();
    pressed.left = left;
    pressed.right = right;
    pressed.down = down;
    pressed.up = up;
    Input { pressed, just_pressed: Keys::none() }
}

fn world_with_player(x: i64, y: i64) -> World {
    let mut world = World::new();
    world.player = Some(Player { position: at(x, y) });
    world
}

#[test]
fn player_constants() {
    assert_eq!(PLAYER_SIZE, px(64));
    assert_eq!(PLAYER_HALF_SIZE, px(32));
    assert_eq!(PLAYER_SPEED, px(500));
    assert_eq!(DIAGONAL, 707_107);
}

#[test]
fn spawn_player_puts_the_player_at_the_middle() {
    let mut world = World::new();
    assert!(world.player.is_none());
    spawn_player(&mut world, &Viewport::new(px(800), px(600)));
    assert_eq!(world.player, Some(Player { position: at(400, 300) }));
    assert!(world.enemies.is_empty());
    assert!(world.stars.is_empty());
}

#[test]
fn key_direction_of_every_combination() {
    let keys = |left, right, down, up| MovementKeys { left, right, down, up };
    assert_eq!(key_direction(&keys(false, false, false, false)), Vector2::new(0, 0));
    assert_eq!(key_direction(&keys(true, false, false, false)), Vector2::new(-ONE, 0));
    assert_eq!(key_direction(&keys(false, true, false, false)), Vector2::new(ONE, 0));
    assert_eq!(key_direction(&keys(false, false, true, false)), Vector2::new(0, -ONE));
    assert_eq!(key_direction(&keys(false, false, false, true)), Vector2::new(0, ONE));
    assert_eq!(key_direction(&keys(true, true, false, false)), Vector2::new(0, 0));
    assert_eq!(key_direction(&keys(false, false, true, true)), Vector2::new(0, 0));
    assert_eq!(key_direction(&keys(true, true, true, true)), Vector2::new(0, 0));
    assert_eq!(key_direction(&keys(true, true, false, true)), Vector2::new(0, ONE));
    assert_eq!(key_direction(&keys(true, false, true, true)), Vector2::new(-ONE, 0));
    assert_eq!(key_direction(&keys(true, false, true, false)), Vector2::new(-DIAGONAL, -DIAGONAL));
    assert_eq!(key_direction(&keys(true, false, false, true)), Vector2::new(-DIAGONAL, DIAGONAL));
    assert_eq!(key_direction(&keys(false, true, true, false)), Vector2::new(DIAGONAL, -DIAGONAL));
    assert_eq!(key_direction(&keys(false, true, false, true)), Vector2::new(DIAGONAL, DIAGONAL));
}

#[test]
fn key_direction_has_unit_length_or_none() {
    for bits in 0..16u32 {
        let keys = MovementKeys {
            left: bits & 1 != 0,
            right: bits & 2 != 0,
            down: bits & 4 != 0,
            up: bits & 8 != 0,
        };
        let direction = key_direction(&keys);
        let length_squared =
            direction.x as i128 * direction.x as i128 + direction.y as i128 * direction.y as i128;
        let one = ONE as i128;
        if keys.left == keys.right && keys.down == keys.up {
            assert_eq!(length_squared, 0);
        } else {
            assert!((length_squared - one * one).abs() <= one);
        }
    }
}

#[test]
fn letters_move_like_arrows() {
    let mut pressed = Keys::none();
    pressed.a = true;
    pressed.w = true;
    let letters = Input { pressed, just_pressed: Keys::none() };
    assert_eq!(
        letters.movement(),
        MovementKeys { left: true, right: false, down: false, up: true }
    );
    let mut pressed = Keys::none();
    pressed.d = true;
    pressed.s = true;
    pressed.left = true;
    let mixed = Input { pressed, just_pressed: Keys::none() };
    assert_eq!(mixed.movement(), MovementKeys { left: true, right: true, down: true, up: false });
    let mut just_pressed = Keys::none();
    just_pressed.left = true;
    let tapped = Input { pressed: Keys::none(), just_pressed };
    assert_eq!(
        tapped.movement(),
        MovementKeys { left: false, right: false, down: false, up: false }
    );
}

#[test]
fn player_moves_at_its_speed() {
    let mut world = world_with_player(400, 300);
    player_movement(&mut world, &held(false, true, false, false), 16 * MS);
    assert_eq!(world.player, Some(Player { position: at(408, 300) }));
    player_movement(&mut world, &held(false, false, true, false), 100 * MS);
    assert_eq!(world.player, Some(Player { position: at(408, 250) }));
}

#[test]
fn player_moves_diagonally_at_the_same_speed() {
    let mut world = world_with_player(400, 300);
    player_movement(&mut world, &held(true, false, false, true), 1_000 * MS);
    assert_eq!(
        world.player,
        Some(Player { position: Vector2::new(px(400) - 353_553_500, px(300) + 353_553_500) })
    );
}

#[test]
fn player_stays_without_keys_or_time() {
    let mut world = world_with_player(400, 300);
    player_movement(&mut world, &held(false, false, false, false), 16 * MS);
    assert_eq!(world.player, Some(Player { position: at(400, 300) }));
    player_movement(&mut world, &held(true, true, false, false), 16 * MS);
    assert_eq!(world.player, Some(Player { position: at(400, 300) }));
    player_movement(&mut world, &held(false, true, false, false), 0);
    assert_eq!(world.player, Some(Player { position: at(400, 300) }));
}

#[test]
fn movement_without_a_player_does_nothing() {
    let mut world = World::new();
    player_movement(&mut world, &held(false, true, false, false), 16 * MS);
    assert!(world.player.is_none());
    confine_player_movement(&mut world, &Viewport::new(px(800), px(600)));
    assert!(world.player.is_none());
    player_hit_enemy(&mut world);
    player_hit_star(&mut world);
    assert!(world.player.is_none());
    assert!(world.game_over_events.is_empty());
    assert!(world.sound_effects.is_empty());
    assert_eq!(world.score, Score(0));
}

#[test]
fn player_is_back_in_bounds_after_movement_and_confinement() {
    let viewport = Viewport::new(px(800), px(600));
    for bits in 0..16u32 {
        for dt in [0, MS, 16 * MS, 1_000 * MS, 3_600_000 * MS, u64::MAX] {
            for start in [at(32, 32), at(400, 300), at(768, 568), at(-500, 9000)] {
                let mut world = World::new();
                world.player = Some(Player { position: start });
                let input = held(bits & 1 != 0, bits & 2 != 0, bits & 4 != 0, bits & 8 != 0);
                player_movement(&mut world, &input, dt);
                confine_player_movement(&mut world, &viewport);
                let position = world.player.unwrap().position;
                assert!(px(32) <= position.x && position.x <= px(768));
                assert!(px(32) <= position.y && position.y <= px(568));
            }
        }
    }
}

#[test]
fn confinement_clamps_a_corner_on_both_axes() {
    let viewport = Viewport::new(px(800), px(600));
    let mut world = world_with_player(-10, 700);
    confine_player_movement(&mut world, &viewport);
    assert_eq!(world.player, Some(Player { position: at(32, 568) }));
}

#[test]
fn confinement_twice_is_confinement_once() {
    let viewport = Viewport::new(px(800), px(600));
    for start in [at(-10, 700), at(400, 300), at(790, 10), at(32, 568)] {
        let mut world = World::new();
        world.player = Some(Player { position: start });
        confine_player_movement(&mut world, &viewport);
        let once = world.player;
        confine_player_movement(&mut world, &viewport);
        assert_eq!(world.player, once);
    }
}

#[test]
fn movement_saturates_far_outside_the_viewport() {
    let mut world = World::new();
    world.player = Some(Player { position: Vector2::new(COORD_MAX - 5, 0) });
    player_movement(&mut world, &held(false, true, false, false), 16 * MS);
    assert_eq!(world.player, Some(Player { position: Vector2::new(COORD_MAX, 0) }));
}

#[test]
fn star_under_the_player_is_collected() {
    let mut world = world_with_player(400, 300);
    world.score_changed = false;
    spawn_star_at(&mut world, at(400, 300));
    assert_eq!(world.stars.len(), 1);
    player_hit_star(&mut world);
    assert_eq!(world.score, Score(1));
    assert!(world.stars.is_empty());
    assert!(world.score_changed);
    assert_eq!(world.sound_effects, vec![SoundEffect::Pickup]);
    assert!(world.game_over_events.is_empty());
    assert_eq!(world.player, Some(Player { position: at(400, 300) }));
}

#[test]
fn star_exactly_at_reach_is_not_collected() {
    assert_eq!(PLAYER_HALF_SIZE + STAR_HALF_SIZE, px(47));
    let mut world = world_with_player(400, 300);
    world.score_changed = false;
    spawn_star_at(&mut world, at(447, 300));
    spawn_star_at(&mut world, at(400, 253));
    player_hit_star(&mut world);
    assert_eq!(world.score, Score(0));
    assert_eq!(world.stars.len(), 2);
    assert!(!world.score_changed);
    assert!(world.sound_effects.is_empty());
}

#[test]
fn star_just_inside_reach_is_collected() {
    let mut world = world_with_player(400, 300);
    spawn_star_at(&mut world, Vector2::new(px(447) - 1, px(300)));
    player_hit_star(&mut world);
    assert_eq!(world.score, Score(1));
    assert!(world.stars.is_empty());
}

#[test]
fn only_the_stars_in_reach_are_collected() {
    let mut world = world_with_player(400, 300);
    world.score = Score(7);
    spawn_star_at(&mut world, at(100, 100));
    spawn_star_at(&mut world, at(410, 300));
    spawn_star_at(&mut world, at(700, 500));
    spawn_star_at(&mut world, at(400, 290));
    spawn_star_at(&mut world, at(447, 300));
    player_hit_star(&mut world);
    assert_eq!(world.score, Score(9));
    assert_eq!(
        world.stars,
        vec![
            Star { position: at(100, 100) },
            Star { position: at(700, 500) },
            Star { position: at(447, 300) }
        ]
    );
    assert_eq!(world.sound_effects, vec![SoundEffect::Pickup, SoundEffect::Pickup]);
}

#[test]
fn enemy_on_the_player_ends_the_run() {
    let mut world = world_with_player(400, 300);
    world.score = Score(3);
    world.high_scores_changed = false;
    spawn_enemy_at(&mut world, at(100, 100), Vector2::new(ONE, 0));
    spawn_enemy_at(&mut world, at(410, 310), Vector2::new(0, ONE));
    let history = world.high_scores.0.len();
    player_hit_enemy(&mut world);
    assert!(world.player.is_none());
    assert_eq!(world.game_over_events, vec![GameOver(3)]);
    assert_eq!(world.sound_effects, vec![SoundEffect::Explosion]);
    assert_eq!(world.enemies.len(), 2);
    assert_eq!(world.score, Score(3));
    update_high_scores(&mut world);
    assert_eq!(world.high_scores.0.len(), history + 1);
    assert_eq!(world.high_scores.0[history], ("Player".to_string(), 3));
    assert!(world.high_scores_changed);
}

#[test]
fn several_enemies_on_the_player_end_the_run_once() {
    let mut world = world_with_player(400, 300);
    spawn_enemy_at(&mut world, at(400, 300), Vector2::new(ONE, 0));
    spawn_enemy_at(&mut world, at(410, 310), Vector2::new(0, ONE));
    spawn_enemy_at(&mut world, at(390, 290), Vector2::new(0, ONE));
    player_hit_enemy(&mut world);
    assert!(world.player.is_none());
    assert_eq!(world.game_over_events, vec![GameOver(0)]);
    assert_eq!(world.sound_effects, vec![SoundEffect::Explosion]);
    player_hit_enemy(&mut world);
    assert_eq!(world.game_over_events, vec![GameOver(0)]);
    assert_eq!(world.sound_effects, vec![SoundEffect::Explosion]);
}

#[test]
fn enemy_exactly_at_reach_does_not_end_the_run() {
    let mut world = world_with_player(400, 300);
    spawn_enemy_at(&mut world, at(464, 300), Vector2::new(ONE, 0));
    spawn_enemy_at(&mut world, at(400, 236), Vector2::new(ONE, 0));
    player_hit_enemy(&mut world);
    assert_eq!(world.player, Some(Player { position: at(400, 300) }));
    assert!(world.game_over_events.is_empty());
    assert!(world.sound_effects.is_empty());
    world.enemies.push(Enemy {
        position: Vector2::new(px(464) - 1, px(300)),
        direction: Vector2::new(ONE, 0),
    });
    player_hit_enemy(&mut world);
    assert!(world.player.is_none());
}

#[test]
fn a_dead_player_collects_nothing() {
    let mut world = world_with_player(400, 300);
    spawn_enemy_at(&mut world, at(400, 300), Vector2::new(ONE, 0));
    spawn_star_at(&mut world, at(400, 300));
    player_hit_enemy(&mut world);
    player_hit_star(&mut world);
    assert_eq!(world.score, Score(0));
    assert_eq!(world.stars.len(), 1);
    assert_eq!(world.sound_effects, vec![SoundEffect::Explosion]);
}
