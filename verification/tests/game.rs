use ball_game::enemy::{
    spawn_enemy_at, Enemy, INITIAL_NUMBER_OF_ENEMIES, MAX_NUMBER_OF_ENEMIES,
};
use ball_game::events::{GameOver, SoundEffect};
use ball_game::game::{
    clear_game_over_events, exit_game, handle_game_over, spawn_camera, startup,
    take_sound_effects, update, FrameInput,
};
use ball_game::geometry::{Vector2, Viewport, ONE};
use ball_game::input::{Input, Keys};
use ball_game::player::Player;
use ball_game::score::Score;
use ball_game::star::{spawn_star_at, INITIAL_NUMBER_OF_STARS};
use ball_game::world::{EntityKind, LiveEntity, World};

const MS: u64 = 1_000_000;

fn px(n: i64) -> i64 {
    n * ONE
}

fn at(x: i64, y: i64) -> Vector2 {
    Vector2::new(px(x), px(y))
}

fn viewport() -> Viewport {
    Viewport::new(px(800), px(600))
}

fn no_keys() -> Input {
    Input { pressed: Keys::none(), just_pressed: Keys::none() }
}

fn frame(dt: u64, input: Input) -> FrameInput {
    FrameInput { dt, input, viewport: viewport(), enemy_direction: Vector2::new(0, ONE) }
}

fn directions() -> [Vector2; INITIAL_NUMBER_OF_ENEMIES] {
    [
        Vector2::new(ONE, 0),
        Vector2::new(-ONE, 0),
        Vector2::new(0, ONE),
        Vector2::new(0, -ONE),
        Vector2::new(707_107, 707_107),
        Vector2::new(-707_107, 707_107),
        Vector2::new(707_107, -707_107),
        Vector2::new(-707_107, -707_107),
        Vector2::new(600_000, 800_000),
        Vector2::new(-800_000, 600_000),
    ]
}

fn quiet_world() -> World {
    let mut world = World::new();
    world.score_changed = false;
    world.high_scores_changed = false;
    world
}

#[test]
fn camera_goes_to_the_middle() {
    assert_eq!(spawn_camera(&viewport()), at(400, 300));
}

#[test]
fn escape_asks_to_quit_when_it_goes_down() {
    assert!(!exit_game(&no_keys()));
    let mut just_pressed = Keys::none();
    just_pressed.escape = true;
    assert!(exit_game(&Input { pressed: Keys::none(), just_pressed }));
    // Held from an earlier frame: no new request.
    let mut pressed = Keys::none();
    pressed.escape = true;
    assert!(!exit_game(&Input { pressed, just_pressed: Keys::none() }));
    let mut just_pressed = Keys::none();
    just_pressed.left = true;
    assert!(!exit_game(&Input { pressed: Keys::none(), just_pressed }));
}

#[test]
fn game_over_listener_tells_each_score() {
    let mut world = World::new();
    assert_eq!(handle_game_over(&world), Vec::<u32>::new());
    world.game_over_events.push(GameOver(4));
    world.game_over_events.push(GameOver(2));
    assert_eq!(handle_game_over(&world), vec![4, 2]);
    assert_eq!(world.game_over_events.len(), 2);
}

#[test]
fn frame_buffers_are_handed_out_and_dropped() {
    let mut world = World::new();
    world.sound_effects.push(SoundEffect::Pickup);
    world.sound_effects.push(SoundEffect::Explosion);
    world.game_over_events.push(GameOver(4));
    assert_eq!(take_sound_effects(&mut world), vec![SoundEffect::Pickup, SoundEffect::Explosion]);
    assert!(world.sound_effects.is_empty());
    assert_eq!(world.game_over_events.len(), 1);
    clear_game_over_events(&mut world);
    assert!(world.game_over_events.is_empty());
}

#[test]
fn startup_builds_the_world_of_a_new_run() {
    let world = startup(&viewport(), &directions());
    assert_eq!(world.player, Some(Player { position: at(400, 300) }));
    assert_eq!(world.enemies.len(), INITIAL_NUMBER_OF_ENEMIES);
    assert_eq!(world.stars.len(), INITIAL_NUMBER_OF_STARS);
    assert_eq!(world.score, Score(0));
    assert_eq!(world.enemies[0].position, Vector2::new(px(400) + 64_012_800, px(300)));
    for (enemy, direction) in world.enemies.iter().zip(directions().iter()) {
        assert_eq!(enemy.direction, *direction);
    }
    for star in world.stars.iter() {
        assert!(0 <= star.position.x && star.position.x < px(800));
        assert!(0 <= star.position.y && star.position.y < px(600));
    }
    assert!(world.game_over_events.is_empty());
    assert!(world.sound_effects.is_empty());
}

#[test]
fn first_frame_reports_score_and_history() {
    let mut world = World::new();
    let report = update(&mut world, &frame(16 * MS, no_keys()));
    assert_eq!(report.score, Some(0));
    assert_eq!(
        report.high_scores,
        Some(vec![("Bens".to_string(), 2), ("Philber".to_string(), 5)])
    );
    assert!(report.game_over_scores.is_empty());
    assert!(report.sound_effects.is_empty());
    assert!(!report.quit);
    let report = update(&mut world, &frame(16 * MS, no_keys()));
    assert_eq!(report.score, None);
    assert_eq!(report.high_scores, None);
}

#[test]
fn frame_reports_the_request_to_quit() {
    let mut world = World::new();
    let mut just_pressed = Keys::none();
    just_pressed.escape = true;
    let report = update(&mut world, &frame(16 * MS, Input { pressed: Keys::none(), just_pressed }));
    assert!(report.quit);
}

#[test]
fn star_under_the_player_is_collected_one_frame_later() {
    let mut world = quiet_world();
    world.player = Some(Player { position: at(400, 300) });
    spawn_star_at(&mut world, at(400, 300));
    spawn_star_at(&mut world, at(100, 100));
    let report = update(&mut world, &frame(16 * MS, no_keys()));
    assert_eq!(world.score, Score(1));
    assert_eq!(world.stars.len(), 1);
    assert_eq!(world.stars[0].position, at(100, 100));
    assert_eq!(report.score, Some(1));
    assert_eq!(report.sound_effects, vec![SoundEffect::Pickup]);
    assert!(report.game_over_scores.is_empty());
    assert_eq!(report.high_scores, None);
    assert!(world.sound_effects.is_empty());
    assert_eq!(world.player, Some(Player { position: at(400, 300) }));
}

#[test]
fn frame_moves_then_confines_the_player() {
    let mut world = quiet_world();
    world.player = Some(Player { position: at(40, 300) });
    let mut pressed = Keys::none();
    pressed.left = true;
    pressed.w = true;
    let input = Input { pressed, just_pressed: Keys::none() };
    update(&mut world, &frame(100 * MS, input));
    // 50 pixels along the diagonal: 35.35535 on each axis; the wall is at 32.
    assert_eq!(
        world.player,
        Some(Player { position: Vector2::new(px(32), px(300) + 35_355_350) })
    );
}

#[test]
fn frame_bounces_and_confines_an_enemy() {
    let mut world = quiet_world();
    spawn_enemy_at(&mut world, at(40, 300), Vector2::new(-ONE, 0));
    let report = update(&mut world, &frame(100 * MS, no_keys()));
    assert_eq!(
        world.enemies,
        vec![Enemy { position: at(32, 300), direction: Vector2::new(ONE, 0) }]
    );
    assert_eq!(report.sound_effects.len(), 1);
    assert!(
        report.sound_effects[0] == SoundEffect::PluckLow
            || report.sound_effects[0] == SoundEffect::PluckHigh
    );
    let report = update(&mut world, &frame(100 * MS, no_keys()));
    assert_eq!(
        world.enemies,
        vec![Enemy { position: at(67, 300), direction: Vector2::new(ONE, 0) }]
    );
    assert!(report.sound_effects.is_empty());
}

#[test]
fn frame_in_which_an_enemy_reaches_the_player_ends_the_run() {
    let mut world = quiet_world();
    world.score = Score(6);
    world.player = Some(Player { position: at(400, 300) });
    // 70 pixels away, 35 pixels a frame: out of reach, then in reach.
    spawn_enemy_at(&mut world, at(470, 300), Vector2::new(-ONE, 0));
    spawn_star_at(&mut world, at(400, 300));
    let report = update(&mut world, &frame(100 * MS, no_keys()));
    assert!(world.player.is_none());
    assert_eq!(report.game_over_scores, vec![6]);
    assert_eq!(report.sound_effects, vec![SoundEffect::Explosion]);
    assert_eq!(
        report.high_scores,
        Some(vec![
            ("Bens".to_string(), 2),
            ("Philber".to_string(), 5),
            ("Player".to_string(), 6)
        ])
    );
    assert_eq!(report.score, None);
    assert_eq!(world.score, Score(6));
    assert_eq!(world.high_scores.0.len(), 3);
    assert_eq!(world.stars.len(), 1);
    assert!(world.game_over_events.is_empty());
    assert_eq!(world.enemies.len(), 1);
    // The run is over: later frames raise nothing more.
    let report = update(&mut world, &frame(100 * MS, no_keys()));
    assert!(world.player.is_none());
    assert!(report.game_over_scores.is_empty());
    assert_eq!(report.high_scores, None);
    assert_eq!(world.high_scores.0.len(), 3);
}

#[test]
fn spawners_follow_their_timers() {
    let mut world = quiet_world();
    let mut stars = 0;
    for i in 1..=100u64 {
        update(&mut world, &frame(100 * MS, no_keys()));
        // A star each quarter of a second, an enemy each two and a half.
        if (i * 100) / 250 > ((i - 1) * 100) / 250 {
            stars += 1;
        }
        assert_eq!(world.stars.len(), stars);
        assert_eq!(world.enemies.len() as u64, (i * 100) / 2_500);
    }
    assert_eq!(world.stars.len(), 40);
    assert_eq!(world.enemies.len(), 4);
    for enemy in world.enemies.iter() {
        assert_eq!(enemy.direction.x.abs() + enemy.direction.y.abs(), ONE);
    }
}

#[test]
fn a_spawned_star_is_first_tested_one_frame_later() {
    let viewport = Viewport::new(1, 1);
    let mut world = quiet_world();
    world.player = Some(Player { position: Vector2::new(0, 0) });
    let input = FrameInput {
        dt: 250 * MS,
        input: no_keys(),
        viewport,
        enemy_direction: Vector2::new(ONE, 0),
    };
    // The only spawn position is the origin, and the confined player is
    // within reach of it: the star is spawned on top of the player.
    let report = update(&mut world, &input);
    assert_eq!(world.stars.len(), 1);
    assert_eq!(world.stars[0].position, Vector2::new(0, 0));
    assert_eq!(world.score, Score(0));
    assert_eq!(report.score, None);
    assert!(report.sound_effects.is_empty());
    let still = FrameInput { dt: 0, ..input };
    let report = update(&mut world, &still);
    assert_eq!(world.score, Score(1));
    assert_eq!(report.score, Some(1));
    assert!(world.stars.is_empty());
}

#[test]
fn enemies_stop_at_the_cap_over_a_long_run() {
    let mut world = quiet_world();
    for _ in 0..(MAX_NUMBER_OF_ENEMIES + 10) {
        update(&mut world, &frame(2_500 * MS, no_keys()));
    }
    assert_eq!(world.enemies.len(), MAX_NUMBER_OF_ENEMIES);
}

#[test]
fn after_a_frame_every_moved_entity_is_in_bounds() {
    let mut world = startup(&viewport(), &directions());
    let mut pressed = Keys::none();
    pressed.right = true;
    pressed.up = true;
    let input = Input { pressed, just_pressed: Keys::none() };
    for _ in 0..200 {
        let before = world.enemies.len();
        update(&mut world, &frame(16 * MS, input));
        if let Some(player) = world.player {
            assert!(px(32) <= player.position.x && player.position.x <= px(768));
            assert!(px(32) <= player.position.y && player.position.y <= px(568));
        }
        for enemy in world.enemies.iter().take(before) {
            assert!(px(32) <= enemy.position.x && enemy.position.x <= px(768));
            assert!(px(32) <= enemy.position.y && enemy.position.y <= px(568));
        }
    }
}

#[test]
fn live_entities_list_player_enemies_and_stars() {
    let mut world = World::new();
    assert!(world.live_entities().is_empty());
    spawn_star_at(&mut world, at(1, 2));
    spawn_enemy_at(&mut world, at(3, 4), Vector2::new(ONE, 0));
    spawn_enemy_at(&mut world, at(5, 6), Vector2::new(0, ONE));
    assert_eq!(
        world.live_entities(),
        vec![
            LiveEntity { kind: EntityKind::Enemy, position: at(3, 4) },
            LiveEntity { kind: EntityKind::Enemy, position: at(5, 6) },
            LiveEntity { kind: EntityKind::Star, position: at(1, 2) },
        ]
    );
    world.player = Some(Player { position: at(7, 8) });
    assert_eq!(
        world.live_entities(),
        vec![
            LiveEntity { kind: EntityKind::Player, position: at(7, 8) },
            LiveEntity { kind: EntityKind::Enemy, position: at(3, 4) },
            LiveEntity { kind: EntityKind::Enemy, position: at(5, 6) },
            LiveEntity { kind: EntityKind::Star, position: at(1, 2) },
        ]
    );
}

#[test]
fn world_validity_follows_its_parts() {
    let mut world = startup(&viewport(), &directions());
    assert!(world.is_valid());
    world.stars[3].position.x = i64::MAX;
    assert!(!world.is_valid());
    world.stars[3].position.x = 0;
    assert!(world.is_valid());
    world.enemies[9].direction.y = ONE + 1;
    assert!(!world.is_valid());
    world.enemies[9].direction.y = ONE;
    world.enemies[0].position.y = i64::MIN;
    assert!(!world.is_valid());
    world.enemies[0].position.y = 0;
    world.player = Some(Player { position: Vector2::new(i64::MAX, 0) });
    assert!(!world.is_valid());
    world.player = None;
    assert!(world.is_valid());
    world.star_spawn_timer.0.interval = 0;
    assert!(!world.is_valid());
}

#[test]
fn frame_input_validity_follows_its_parts() {
    assert!(frame(16 * MS, no_keys()).is_valid());
    let mut input = frame(16 * MS, no_keys());
    input.viewport = Viewport::new(-1, 0);
    assert!(!input.is_valid());
    let mut input = frame(16 * MS, no_keys());
    input.enemy_direction = Vector2::new(ONE + 1, 0);
    assert!(!input.is_valid());
}
