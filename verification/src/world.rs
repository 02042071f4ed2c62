//! The state of a run: the live entities, the score, the timers, and what the
//! current frame has raised so far.

use vstd::prelude::*;
use crate::enemy::{Enemy, EnemySpawnTimer};
use crate::events::{GameOver, SoundEffect};
use crate::geometry::Vector2;
use crate::player::Player;
use crate::score::{HighScores, Score};
use crate::star::{Star, StarSpawnTimer};
use crate::timer::Timer;

verus! {

/// Everything that the stages of a frame read and change.
#[derive(Debug)]
pub struct World {
    /// The player, until an enemy destroys it.
    pub player: Option<Player>,
    pub enemies: Vec<Enemy>,
    pub stars: Vec<Star>,
    pub score: Score,
    /// Whether the score was set since it was last reported.
    pub score_changed: bool,
    pub high_scores: HighScores,
    /// Whether the history was set since it was last reported.
    pub high_scores_changed: bool,
    pub star_spawn_timer: StarSpawnTimer,
    pub enemy_spawn_timer: EnemySpawnTimer,
    /// The game-over events of the current frame, oldest first.
    pub game_over_events: Vec<GameOver>,
    /// The sound effects that the current frame asks for, oldest first.
    pub sound_effects: Vec<SoundEffect>,
}

/// What a live entity is.
#[derive(Clone, Copy, Debug, PartialEq, Eq, Structural)]
pub enum EntityKind {
    Player,
    Enemy,
    Star,
}

/// A live entity as it is to be shown: what it is and where its centre is.
#[derive(Clone, Copy, Debug, PartialEq, Eq, Structural)]
pub struct LiveEntity {
    pub kind: EntityKind,
    pub position: Vector2,
}

/// How an enemy is shown.
pub open spec fn shown_enemy(enemy: Enemy) -> LiveEntity {
    LiveEntity { kind: EntityKind::Enemy, position: enemy.position }
}

/// How a star is shown.
pub open spec fn shown_star(star: Star) -> LiveEntity {
    LiveEntity { kind: EntityKind::Star, position: star.position }
}

/// A `World` as plain values.
pub struct WorldView {
    pub player: Option<Player>,
    pub enemies: Seq<Enemy>,
    pub stars: Seq<Star>,
    pub score: nat,
    pub score_changed: bool,
    pub high_scores: Seq<(Seq<char>, u32)>,
    pub high_scores_changed: bool,
    pub star_spawn_timer: Timer,
    pub enemy_spawn_timer: Timer,
    pub game_over_events: Seq<GameOver>,
    pub sound_effects: Seq<SoundEffect>,
}

impl View for World {
    type V = WorldView;

    open spec fn view(&self) -> WorldView {
        WorldView {
            player: self.player,
            enemies: self.enemies@,
            stars: self.stars@,
            score: self.score.0 as nat,
            score_changed: self.score_changed,
            high_scores: self.high_scores@,
            high_scores_changed: self.high_scores_changed,
            star_spawn_timer: self.star_spawn_timer.0,
            enemy_spawn_timer: self.enemy_spawn_timer.0,
            game_over_events: self.game_over_events@,
            sound_effects: self.sound_effects@,
        }
    }
}

impl WorldView {
    /// The world before anything is spawned: no entities, score zero, the
    /// history and the timers as a run starts with them, nothing raised. The
    /// score and the history count as set, so that both are reported once at
    /// the start.
    pub open spec fn initial() -> WorldView {
        WorldView {
            player: None,
            enemies: Seq::empty(),
            stars: Seq::empty(),
            score: 0,
            score_changed: true,
            high_scores: seq![("Bens"@, 2u32), ("Philber"@, 5u32)],
            high_scores_changed: true,
            star_spawn_timer: StarSpawnTimer::initial(),
            enemy_spawn_timer: EnemySpawnTimer::initial(),
            game_over_events: Seq::empty(),
            sound_effects: Seq::empty(),
        }
    }

    /// The live entities: the player if there is one, then the enemies, then
    /// the stars, each group in its order.
    pub open spec fn live_entities(self) -> Seq<LiveEntity> {
        let player = match self.player {
            Some(player) => seq![
                LiveEntity { kind: EntityKind::Player, position: player.position },
            ],
            None => Seq::empty(),
        };
        player + self.enemies.map_values(|enemy: Enemy| shown_enemy(enemy)) + self.stars.map_values(
            |star: Star| shown_star(star),
        )
    }

    /// Every position is in the coordinate range, every enemy's direction has
    /// components of at most a unit, the score fits its counter, and both
    /// timers are valid.
    pub open spec fn is_valid(self) -> bool {
        &&& self.player matches Some(player) ==> player.position.is_position()
        &&& forall|i: int| 0 <= i < self.enemies.len() ==> (#[trigger] self.enemies[i]).is_valid()
        &&& forall|i: int|
            0 <= i < self.stars.len() ==> (#[trigger] self.stars[i]).position.is_position()
        &&& self.score <= u32::MAX
        &&& self.star_spawn_timer.is_valid()
        &&& self.enemy_spawn_timer.is_valid()
    }
}

impl World {
    /// The world before anything is spawned.
    pub fn new() -> (world: World)
        ensures
            world@ == WorldView::initial(),
            world@.is_valid(),
    {
        World {
            player: None,
            enemies: Vec::new(),
            stars: Vec::new(),
            score: Score::default(),
            score_changed: true,
            high_scores: HighScores::default(),
            high_scores_changed: true,
            star_spawn_timer: StarSpawnTimer::default(),
            enemy_spawn_timer: EnemySpawnTimer::default(),
            game_over_events: Vec::new(),
            sound_effects: Vec::new(),
        }
    }

    /// Tells whether the world is valid.
    pub fn is_valid(&self) -> (b: bool)
        ensures
            b == self@.is_valid(),
    {
        if let Some(player) = self.player {
            if !player.position.is_position() {
                return false;
            }
        }
        let enemies = self.enemies.len();
        let mut i: usize = 0;
        while i < enemies
            invariant
                i <= enemies,
                enemies == self.enemies@.len(),
                forall|k: int| 0 <= k < i ==> (#[trigger] self.enemies@[k]).is_valid(),
            decreases enemies - i,
        {
            let enemy = self.enemies[i];
            if !(enemy.position.is_position() && enemy.direction.is_direction()) {
                assert(!self@.enemies[i as int].is_valid());
                return false;
            }
            i += 1;
        }
        let stars = self.stars.len();
        let mut j: usize = 0;
        while j < stars
            invariant
                j <= stars,
                stars == self.stars@.len(),
                forall|k: int| 0 <= k < j ==> (#[trigger] self.stars@[k]).position.is_position(),
            decreases stars - j,
        {
            if !self.stars[j].position.is_position() {
                assert(!self@.stars[j as int].position.is_position());
                return false;
            }
            j += 1;
        }
        self.star_spawn_timer.0.is_valid() && self.enemy_spawn_timer.0.is_valid()
    }

    /// Lists the live entities for whoever shows them: the player if there
    /// is one, then the enemies, then the stars.
    pub fn live_entities(&self) -> (shown: Vec<LiveEntity>)
        ensures
            shown@ == self@.live_entities(),
    {
        let mut shown: Vec<LiveEntity> = Vec::new();
        if let Some(player) = self.player {
            shown.push(LiveEntity { kind: EntityKind::Player, position: player.position });
        }
        let ghost first = shown@;
        let enemies = self.enemies.len();
        let mut i: usize = 0;
        while i < enemies
            invariant
                i <= enemies,
                enemies == self.enemies@.len(),
                shown@ == first + self.enemies@.take(i as int).map_values(
                    |enemy: Enemy| shown_enemy(enemy),
                ),
            decreases enemies - i,
        {
            shown.push(LiveEntity { kind: EntityKind::Enemy, position: self.enemies[i].position });
            assert(self.enemies@.take(i + 1).map_values(|enemy: Enemy| shown_enemy(enemy))
                =~= self.enemies@.take(i as int).map_values(|enemy: Enemy| shown_enemy(enemy)).push(
                shown_enemy(self.enemies@[i as int]),
            ));
            i += 1;
        }
        assert(self.enemies@.take(enemies as int) =~= self.enemies@);
        let ghost second = shown@;
        let stars = self.stars.len();
        let mut j: usize = 0;
        while j < stars
            invariant
                j <= stars,
                stars == self.stars@.len(),
                shown@ == second + self.stars@.take(j as int).map_values(
                    |star: Star| shown_star(star),
                ),
            decreases stars - j,
        {
            shown.push(LiveEntity { kind: EntityKind::Star, position: self.stars[j].position });
            assert(self.stars@.take(j + 1).map_values(|star: Star| shown_star(star))
                =~= self.stars@.take(j as int).map_values(|star: Star| shown_star(star)).push(
                shown_star(self.stars@[j as int]),
            ));
            j += 1;
        }
        assert(self.stars@.take(stars as int) =~= self.stars@);
        shown
    }
}

} // verus!
