use ball_game::geometry::{Vector2, Viewport, ONE};
use ball_game::random::{place_axis, position_at, random_position, DRAW_RANGE};
use ball_game::star::{
    spawn_star_at, spawn_stars, spawn_stars_over_time, tick_star_spawn_timer, Star,
    StarSpawnTimer, INITIAL_NUMBER_OF_STARS, STAR_HALF_SIZE, STAR_SIZE, STAR_SPAWN_TIME,
};
use ball_game::timer::{Timer, TimerMode};
use ball_game::world::World;

const MS: u64 = 1_000_000;

fn px(n: i64) -> i64 {
    n * ONE
}

fn viewport() -> Viewport {
    Viewport::new(px(800), px(600))
}

#[test]
fn star_constants() {
    assert_eq!(INITIAL_NUMBER_OF_STARS, 10);
    assert_eq!(STAR_SIZE, px(30));
    assert_eq!(STAR_HALF_SIZE, px(15));
    assert_eq!(STAR_SPAWN_TIME, 250 * MS);
    assert_eq!(DRAW_RANGE, 1 << 32);
}

#[test]
fn star_spawn_timer_starts_repeating_and_empty() {
    let timer = StarSpawnTimer::default();
    assert_eq!(timer.0, Timer::new(250 * MS, TimerMode::Repeating));
    assert!(timer.0.is_valid());
}

#[test]
fn place_takes_the_drawn_share_of_the_extent() {
    assert_eq!(place_axis(0, px(800)), 0);
    assert_eq!(place_axis(1 << 31, px(800)), px(400));
    assert_eq!(place_axis(1 << 30, px(800)), px(200));
    assert_eq!(place_axis(3 << 30, px(600)), px(450));
    assert_eq!(place_axis(u32::MAX, px(800)), px(800) - 1);
    assert_eq!(place_axis(u32::MAX, 0), 0);
    assert_eq!(place_axis(u32::MAX, 1), 0);
    assert_eq!(place_axis(1, px(800)), 0);
    assert_eq!(place_axis(6, px(800)), 1);
}

#[test]
fn position_at_places_each_axis_from_its_own_draw() {
    assert_eq!(position_at(&viewport(), 1 << 31, 1 << 30), Vector2::new(px(400), px(150)));
    assert_eq!(position_at(&viewport(), 0, u32::MAX), Vector2::new(0, px(600) - 1));
}

#[test]
fn random_position_lies_in_the_viewport() {
    let mut seen = Vec::new();
    for _ in 0..500 {
        let position = random_position(&viewport());
        assert!(0 <= position.x && position.x < px(800));
        assert!(0 <= position.y && position.y < px(600));
        assert!(position.is_position());
        if !seen.contains(&position) {
            seen.push(position);
        }
    }
    // The draws differ from one another.
    assert!(seen.len() > 400);
}

#[test]
fn random_position_in_an_empty_viewport_is_the_origin() {
    assert_eq!(random_position(&Viewport::new(0, 0)), Vector2::new(0, 0));
}

#[test]
fn spawn_star_at_adds_the_star_last() {
    let mut world = World::new();
    spawn_star_at(&mut world, Vector2::new(px(1), px(2)));
    spawn_star_at(&mut world, Vector2::new(px(3), px(4)));
    assert_eq!(
        world.stars,
        vec![
            Star { position: Vector2::new(px(1), px(2)) },
            Star { position: Vector2::new(px(3), px(4)) }
        ]
    );
    assert!(world.enemies.is_empty());
    assert!(world.player.is_none());
}

#[test]
fn startup_spawns_ten_stars_in_the_viewport() {
    let mut world = World::new();
    spawn_star_at(&mut world, Vector2::new(px(1), px(2)));
    spawn_stars(&mut world, &viewport());
    assert_eq!(world.stars.len(), 1 + INITIAL_NUMBER_OF_STARS);
    assert_eq!(world.stars[0], Star { position: Vector2::new(px(1), px(2)) });
    for star in world.stars.iter() {
        assert!(0 <= star.position.x && star.position.x < px(800));
        assert!(0 <= star.position.y && star.position.y < px(600));
    }
    assert!(world.enemies.is_empty());
}

#[test]
fn star_timer_tick_reaches_the_interval() {
    let mut world = World::new();
    tick_star_spawn_timer(&mut world, 100 * MS);
    tick_star_spawn_timer(&mut world, 100 * MS);
    assert!(!world.star_spawn_timer.0.finished());
    tick_star_spawn_timer(&mut world, 100 * MS);
    assert!(world.star_spawn_timer.0.finished());
    assert_eq!(world.star_spawn_timer.0.elapsed, 50 * MS);
    assert_eq!(world.enemy_spawn_timer.0.elapsed, 0);
}

#[test]
fn no_star_is_spawned_before_the_timer_is_finished() {
    let mut world = World::new();
    tick_star_spawn_timer(&mut world, 100 * MS);
    spawn_stars_over_time(&mut world, &viewport());
    assert!(world.stars.is_empty());
}

#[test]
fn one_star_is_spawned_each_time_the_timer_is_finished() {
    let mut world = World::new();
    let mut expected = 0;
    for _ in 0..30 {
        tick_star_spawn_timer(&mut world, 100 * MS);
        if world.star_spawn_timer.0.finished() {
            expected += 1;
        }
        spawn_stars_over_time(&mut world, &viewport());
        assert_eq!(world.stars.len(), expected);
    }
    // Three seconds at four stars a second.
    assert_eq!(expected, 12);
    for star in world.stars.iter() {
        assert!(0 <= star.position.x && star.position.x < px(800));
        assert!(0 <= star.position.y && star.position.y < px(600));
    }
}

#[test]
fn stars_are_not_capped() {
    let mut world = World::new();
    for _ in 0..100 {
        tick_star_spawn_timer(&mut world, 250 * MS);
        spawn_stars_over_time(&mut world, &viewport());
    }
    assert_eq!(world.stars.len(), 100);
}
