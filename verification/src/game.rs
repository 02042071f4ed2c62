//! The schedule: what runs at startup and what runs, in which order, in each
//! frame; and the frame's report to the world outside.
//!
//! A frame ticks the spawn timers, moves the player and the enemies and keeps
//! them inside the viewport, tests the player against the enemies and the
//! stars, lets the listeners of the score, of the game-over events and of the
//! history run, and then lets the spawners add what is due. What the spawners
//! add is therefore not seen by the frame's own tests. At the end of the frame
//! the game-over events and the sound effects are handed out in the report and
//! dropped from the world.

use vstd::prelude::*;
use crate::enemy::{
    after_bounce, after_enemy_confinement, after_enemy_movement, after_enemy_spawn,
    after_enemy_timer_tick, after_spawn_enemies, confine_enemy_movement, enemy_movement,
    spawn_enemies, spawn_enemies_over_time, tick_enemy_spawn_timer, update_enemy_direction,
    INITIAL_NUMBER_OF_ENEMIES, MAX_NUMBER_OF_ENEMIES,
};
use crate::events::{GameOver, SoundEffect};
use crate::geometry::{Vector2, Viewport};
use crate::input::Input;
use crate::player::{
    after_player_confinement, after_player_hit_enemy, after_player_hit_star,
    after_player_movement, after_spawn_player, caught_by, confine_player_movement,
    player_hit_enemy, player_hit_star, player_is_hit, player_movement, spawn_player,
    PLAYER_HALF_SIZE, PLAYER_SIZE,
};
use crate::random::is_spawn_position;
use crate::score::{
    after_high_scores_updated, after_update_high_scores, after_update_score, entry_for,
    high_scores_report, high_scores_updated, report_view, score_report, update_high_scores,
    update_score,
};
use crate::star::{
    after_star_spawn, after_star_timer_tick, are_spawn_positions, spawn_stars,
    spawn_stars_over_time, tick_star_spawn_timer, with_stars, INITIAL_NUMBER_OF_STARS,
};
use crate::world::{World, WorldView};

verus! {

/// What a frame is given from outside.
#[derive(Clone, Copy, Debug, PartialEq, Eq, Structural)]
pub struct FrameInput {
    /// Time since the last frame, in nanoseconds.
    pub dt: u64,
    pub input: Input,
    pub viewport: Viewport,
    /// The direction of travel for an enemy that this frame spawns.
    pub enemy_direction: Vector2,
}

/// What a frame draws from the random source.
pub struct FrameDraws {
    /// Picks the bounce sound.
    pub coin: bool,
    /// Where a star is spawned.
    pub star_position: Vector2,
    /// Where an enemy is spawned.
    pub enemy_position: Vector2,
}

/// What a frame hands to the world outside.
#[derive(Debug)]
pub struct FrameReport {
    /// Whether the frame asks to quit.
    pub quit: bool,
    /// The score, if it was set.
    pub score: Option<u32>,
    /// The score of each game-over event of the frame, oldest first.
    pub game_over_scores: Vec<u32>,
    /// The whole history, if it was set.
    pub high_scores: Option<Vec<(String, u32)>>,
    /// The sound effects to play, oldest first.
    pub sound_effects: Vec<SoundEffect>,
}

/// A `FrameReport` as plain values.
pub struct FrameReportView {
    pub quit: bool,
    pub score: Option<u32>,
    pub game_over_scores: Seq<u32>,
    pub high_scores: Option<Seq<(Seq<char>, u32)>>,
    pub sound_effects: Seq<SoundEffect>,
}

impl View for FrameReport {
    type V = FrameReportView;

    open spec fn view(&self) -> FrameReportView {
        FrameReportView {
            quit: self.quit,
            score: self.score,
            game_over_scores: self.game_over_scores@,
            high_scores: report_view(self.high_scores),
            sound_effects: self.sound_effects@,
        }
    }
}

impl FrameInput {
    /// The viewport is valid and neither component of the direction is
    /// longer than a unit.
    pub open spec fn spec_is_valid(&self) -> bool {
        self.viewport.is_valid() && self.enemy_direction.is_direction()
    }

    #[verifier::when_used_as_spec(spec_is_valid)]
    pub fn is_valid(&self) -> (b: bool)
        ensures
            b == self.spec_is_valid(),
    {
        self.viewport.is_valid() && self.enemy_direction.is_direction()
    }
}

impl FrameDraws {
    /// Both positions are spawn positions of `viewport`.
    pub open spec fn fit(self, viewport: Viewport) -> bool {
        is_spawn_position(viewport, self.star_position) && is_spawn_position(
            viewport,
            self.enemy_position,
        )
    }
}

/// Whether the keyboard asks to quit: the escape key went down.
pub open spec fn quit_requested(input: Input) -> bool {
    input.just_pressed.escape
}

/// The scores that the events carry, in the events' order.
pub open spec fn final_scores(events: Seq<GameOver>) -> Seq<u32> {
    events.map_values(|event: GameOver| event.0)
}

/// The world at the end of startup: the player at the middle of the viewport,
/// the ring of enemies round it, and a star at each of the positions.
pub open spec fn after_startup(
    viewport: Viewport,
    directions: Seq<Vector2>,
    star_positions: Seq<Vector2>,
) -> WorldView {
    with_stars(
        after_spawn_enemies(
            after_spawn_player(WorldView::initial(), viewport),
            viewport,
            directions,
        ),
        star_positions,
    )
}

/// The world after both spawn timers have gathered `dt` more nanoseconds.
pub open spec fn after_timers(world: WorldView, dt: int) -> WorldView {
    after_enemy_timer_tick(after_star_timer_tick(world, dt), dt)
}

/// The world after the player and the enemies have moved: the player moves
/// and is confined; the enemies move, bounce where they are past a wall, and
/// are confined.
pub open spec fn after_movement(world: WorldView, frame: FrameInput, coin: bool) -> WorldView {
    let player_moved = after_player_confinement(
        after_player_movement(world, frame.input.movement(), frame.dt as int),
        frame.viewport,
    );
    after_enemy_confinement(
        after_bounce(after_enemy_movement(player_moved, frame.dt as int), frame.viewport, coin),
        frame.viewport,
    )
}

/// The world after the player has been tested against the enemies and then
/// against the stars.
pub open spec fn after_collisions(world: WorldView) -> WorldView {
    after_player_hit_star(after_player_hit_enemy(world))
}

/// The world as the frame's listeners find it: after timers, movement and
/// collisions.
pub open spec fn acted(world: WorldView, frame: FrameInput, coin: bool) -> WorldView {
    after_collisions(after_movement(after_timers(world, frame.dt as int), frame, coin))
}

/// The world after the listeners have run: the game-over events are entered
/// in the history, and neither the score nor the history counts as set.
pub open spec fn after_listeners(world: WorldView) -> WorldView {
    after_high_scores_updated(after_update_high_scores(after_update_score(world)))
}

/// The world after the star spawner and then the enemy spawner have run.
pub open spec fn after_spawners(
    world: WorldView,
    frame: FrameInput,
    draws: FrameDraws,
) -> WorldView {
    after_enemy_spawn(
        after_star_spawn(world, draws.star_position),
        draws.enemy_position,
        frame.enemy_direction,
    )
}

/// The world without the game-over events and the sound effects of the frame.
pub open spec fn without_frame_buffers(world: WorldView) -> WorldView {
    WorldView { game_over_events: Seq::empty(), sound_effects: Seq::empty(), ..world }
}

/// The world after one whole frame.
pub open spec fn after_frame(world: WorldView, frame: FrameInput, draws: FrameDraws) -> WorldView {
    without_frame_buffers(
        after_spawners(after_listeners(acted(world, frame, draws.coin)), frame, draws),
    )
}

/// What one whole frame reports.
pub open spec fn report_of(world: WorldView, frame: FrameInput, coin: bool) -> FrameReportView {
    let found = acted(world, frame, coin);
    FrameReportView {
        quit: quit_requested(frame.input),
        score: score_report(found),
        game_over_scores: final_scores(found.game_over_events),
        high_scores: high_scores_report(after_update_high_scores(found)),
        sound_effects: found.sound_effects,
    }
}

/// Where the camera goes: the middle of the viewport.
pub fn spawn_camera(viewport: &Viewport) -> (camera: Vector2)
    requires
        viewport.is_valid(),
    ensures
        camera == viewport.center(),
{
    viewport.center()
}

/// Tells whether the keyboard asks to quit.
pub fn exit_game(input: &Input) -> (quit: bool)
    ensures
        quit == quit_requested(*input),
{
    input.just_pressed.escape
}

/// The game-over listener: tells the score of each game-over event of the
/// frame, oldest first.
pub fn handle_game_over(world: &World) -> (scores: Vec<u32>)
    ensures
        scores@ == final_scores(world@.game_over_events),
{
    let count = world.game_over_events.len();
    let mut scores: Vec<u32> = Vec::new();
    let mut i: usize = 0;
    while i < count
        invariant
            i <= count,
            count == world.game_over_events@.len(),
            scores@ == final_scores(world.game_over_events@.take(i as int)),
        decreases count - i,
    {
        scores.push(world.game_over_events[i].0);
        assert(final_scores(world.game_over_events@.take(i + 1)) =~= final_scores(
            world.game_over_events@.take(i as int),
        ).push(world.game_over_events@[i as int].0));
        i += 1;
    }
    assert(world.game_over_events@.take(count as int) =~= world.game_over_events@);
    scores
}

/// Hands out the sound effects asked for so far and drops them from the world.
pub fn take_sound_effects(world: &mut World) -> (taken: Vec<SoundEffect>)
    ensures
        taken@ == old(world)@.sound_effects,
        final(world)@ == (WorldView { sound_effects: Seq::empty(), ..old(world)@ }),
        old(world)@.is_valid() ==> final(world)@.is_valid(),
{
    let mut taken: Vec<SoundEffect> = Vec::new();
    taken.append(&mut world.sound_effects);
    assert(taken@ =~= old(world)@.sound_effects);
    taken
}

/// Drops the game-over events from the world.
pub fn clear_game_over_events(world: &mut World)
    ensures
        final(world)@ == (WorldView { game_over_events: Seq::empty(), ..old(world)@ }),
        old(world)@.is_valid() ==> final(world)@.is_valid(),
{
    world.game_over_events.clear();
}

/// Builds the world of a new run: the player at the middle of the viewport,
/// one enemy for each direction on the ring round the player, and
/// `INITIAL_NUMBER_OF_STARS` stars at positions drawn in the viewport.
pub fn startup(viewport: &Viewport, directions: &[Vector2; INITIAL_NUMBER_OF_ENEMIES]) -> (world:
    World)
    requires
        viewport.is_valid(),
        forall|i: int| 0 <= i < directions@.len() ==> (#[trigger] directions@[i]).is_direction(),
    ensures
        exists|star_positions: Seq<Vector2>|
            star_positions.len() == INITIAL_NUMBER_OF_STARS && are_spawn_positions(
                *viewport,
                star_positions,
            ) && world@ == #[trigger] after_startup(*viewport, directions@, star_positions),
        world@.is_valid(),
{
    let mut world = World::new();
    spawn_player(&mut world, viewport);
    spawn_enemies(&mut world, viewport, directions);
    let ghost before = world@;
    spawn_stars(&mut world, viewport);
    proof {
        let star_positions = choose|positions: Seq<Vector2>|
            positions.len() == INITIAL_NUMBER_OF_STARS && are_spawn_positions(
                *viewport,
                positions,
            ) && world@ == #[trigger] with_stars(before, positions);
        assert(world@ == after_startup(*viewport, directions@, star_positions));
    }
    world
}

/// Runs one frame.
pub fn update(world: &mut World, frame: &FrameInput) -> (report: FrameReport)
    requires
        old(world)@.is_valid(),
        frame.is_valid(),
        old(world)@.score + old(world)@.stars.len() <= u32::MAX,
    ensures
        exists|draws: FrameDraws|
            draws.fit(frame.viewport) && final(world)@ == #[trigger] after_frame(
                old(world)@,
                *frame,
                draws,
            ) && report@ == report_of(old(world)@, *frame, draws.coin),
        final(world)@.is_valid(),
{
    let dt = frame.dt;
    let viewport = &frame.viewport;
    tick_star_spawn_timer(world, dt);
    tick_enemy_spawn_timer(world, dt);
    player_movement(world, &frame.input, dt);
    confine_player_movement(world, viewport);
    enemy_movement(world, dt);
    let ghost before_bounce = world@;
    update_enemy_direction(world, viewport);
    let ghost coin = choose|coin: bool| world@ == after_bounce(before_bounce, *viewport, coin);
    confine_enemy_movement(world, viewport);
    assert(world@ == after_movement(after_timers(old(world)@, dt as int), *frame, coin));
    player_hit_enemy(world);
    proof {
        assert(world@.stars == old(world)@.stars);
        assert(world@.score == old(world)@.score);
        if let Some(player) = world@.player {
            world@.stars.lemma_filter_len(caught_by(player.position));
        }
    }
    player_hit_star(world);
    let ghost found = world@;
    assert(found == acted(old(world)@, *frame, coin));
    let quit = exit_game(&frame.input);
    let score = update_score(world);
    let game_over_scores = handle_game_over(world);
    update_high_scores(world);
    let high_scores = high_scores_updated(world);
    let ghost heard = world@;
    assert(heard == after_listeners(found));
    spawn_stars_over_time(world, viewport);
    let ghost star_position = choose|position: Vector2|
        is_spawn_position(*viewport, position) && world@ == #[trigger] after_star_spawn(
            heard,
            position,
        );
    let ghost starred = world@;
    spawn_enemies_over_time(world, viewport, frame.enemy_direction);
    let ghost enemy_position = choose|position: Vector2|
        is_spawn_position(*viewport, position) && world@ == #[trigger] after_enemy_spawn(
            starred,
            position,
            frame.enemy_direction,
        );
    let ghost draws = FrameDraws { coin, star_position, enemy_position };
    assert(world@ == after_spawners(heard, *frame, draws));
    let sound_effects = take_sound_effects(world);
    clear_game_over_events(world);
    let report = FrameReport { quit, score, game_over_scores, high_scores, sound_effects };
    proof {
        assert(world@ == after_frame(old(world)@, *frame, draws));
        assert(report@ == report_of(old(world)@, *frame, coin));
        assert(draws.fit(frame.viewport));
    }
    report
}

/// The world as the collision tests of a frame find it: after the timers
/// and the movement.
pub open spec fn arrived(world: WorldView, frame: FrameInput, coin: bool) -> WorldView {
    after_movement(after_timers(world, frame.dt as int), frame, coin)
}

/// A player that is alive at the end of a frame has its centre in
/// `[PLAYER_HALF_SIZE, extent - PLAYER_HALF_SIZE]` on both axes, and a player
/// that was gone before the frame is gone after it: no frame brings the player
/// back. The bounds need a viewport that is at least as large as the sprite.
pub proof fn lemma_frame_keeps_the_player_in_bounds(
    world: WorldView,
    frame: FrameInput,
    draws: FrameDraws,
)
    requires
        frame.is_valid(),
        frame.viewport.width >= PLAYER_SIZE,
        frame.viewport.height >= PLAYER_SIZE,
    ensures
        after_frame(world, frame, draws).player matches Some(player) ==> {
            &&& PLAYER_HALF_SIZE <= player.position.x <= frame.viewport.width - PLAYER_HALF_SIZE
            &&& PLAYER_HALF_SIZE <= player.position.y <= frame.viewport.height - PLAYER_HALF_SIZE
        },
        world.player is None ==> after_frame(world, frame, draws).player is None,
{
}

/// A frame ends a run at most once. In a world that holds no game-over event
/// from before: if an enemy touches the player after the movement, the player
/// is gone at the end of the frame, the report tells one game-over with the
/// score from before the frame, and the history gains exactly one entry, under
/// the name that stands for the player, with that score. Otherwise the player
/// stays if there was one, the report tells no game-over and the history is as
/// it was.
pub proof fn lemma_frame_ends_the_run_once(world: WorldView, frame: FrameInput, draws: FrameDraws)
    requires
        world.is_valid(),
        world.game_over_events.len() == 0,
    ensures
        ({
            let hit = player_is_hit(arrived(world, frame, draws.coin));
            let after = after_frame(world, frame, draws);
            let report = report_of(world, frame, draws.coin);
            let last = GameOver(world.score as u32);
            if hit {
                &&& after.player is None
                &&& report.game_over_scores == seq![world.score as u32]
                &&& after.high_scores == world.high_scores.push(entry_for(last))
                &&& report.high_scores == Some(after.high_scores)
            } else {
                &&& after.player is Some <==> world.player is Some
                &&& report.game_over_scores == Seq::<u32>::empty()
                &&& after.high_scores == world.high_scores
            }
        }),
        after_frame(world, frame, draws).game_over_events.len() == 0,
        after_frame(world, frame, draws).sound_effects.len() == 0,
{
    let before = arrived(world, frame, draws.coin);
    let found = acted(world, frame, draws.coin);
    let after = after_frame(world, frame, draws);
    let last = GameOver(world.score as u32);
    assert(before.score == world.score);
    assert(before.game_over_events == world.game_over_events);
    assert(before.high_scores == world.high_scores);
    if player_is_hit(before) {
        assert(found.game_over_events == world.game_over_events.push(last));
        assert(found.game_over_events =~= seq![last]);
        assert(final_scores(found.game_over_events) =~= seq![world.score as u32]);
        assert(after.high_scores =~= world.high_scores.push(entry_for(last)));
    } else {
        assert(found.game_over_events =~= Seq::<GameOver>::empty());
        assert(final_scores(found.game_over_events) =~= Seq::<u32>::empty());
        assert(after.high_scores =~= world.high_scores);
    }
}

/// A frame never removes an enemy and adds at most one; where the enemies
/// are at most `MAX_NUMBER_OF_ENEMIES` before the frame, they still are after
/// it. The score never goes down.
pub proof fn lemma_frame_bounds_the_enemies(world: WorldView, frame: FrameInput, draws: FrameDraws)
    ensures
        world.enemies.len() <= after_frame(world, frame, draws).enemies.len()
            <= world.enemies.len() + 1,
        world.enemies.len() <= MAX_NUMBER_OF_ENEMIES ==> after_frame(
            world,
            frame,
            draws,
        ).enemies.len() <= MAX_NUMBER_OF_ENEMIES,
        world.score <= after_frame(world, frame, draws).score,
{
}

/// What a frame's spawners add is not seen by the frame's own collision
/// tests: the player, the score, and the events and sounds reported are those
/// of the world before the spawners ran.
pub proof fn lemma_spawned_entities_wait_a_frame(
    world: WorldView,
    frame: FrameInput,
    draws: FrameDraws,
)
    ensures
        after_frame(world, frame, draws).player == acted(world, frame, draws.coin).player,
        after_frame(world, frame, draws).score == acted(world, frame, draws.coin).score,
        acted(world, frame, draws.coin).stars.len() <= after_frame(
            world,
            frame,
            draws,
        ).stars.len() <= acted(world, frame, draws.coin).stars.len() + 1,
{
}

} // verus!
