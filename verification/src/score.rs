//! The running score and the history of final scores.

use vstd::prelude::*;
use crate::events::GameOver;
use crate::world::{World, WorldView};

verus! {

/// The running score: the number of stars collected so far.
#[derive(Clone, Copy, Debug, PartialEq, Eq, Structural)]
pub struct Score(pub u32);

/// The history of final scores, each with the name it was entered under, in
/// the order in which they were entered.
#[derive(Debug)]
pub struct HighScores(pub Vec<(String, u32)>);

/// One entry of the history as plain values.
pub open spec fn entry_view(entry: (String, u32)) -> (Seq<char>, u32) {
    (entry.0@, entry.1)
}

impl View for HighScores {
    type V = Seq<(Seq<char>, u32)>;

    open spec fn view(&self) -> Seq<(Seq<char>, u32)> {
        entries_view(self.0@)
    }
}

impl Default for Score {
    /// The score at the start of a run.
    fn default() -> (score: Score)
        ensures
            score.0 == 0,
    {
        Score(0)
    }
}

impl Default for HighScores {
    /// The history that a run starts with: two entries given as examples.
    fn default() -> (history: HighScores)
        ensures
            history@ == seq![("Bens"@, 2u32), ("Philber"@, 5u32)],
    {
        let mut entries: Vec<(String, u32)> = Vec::new();
        entries.push(("Bens".to_owned(), 2));
        entries.push(("Philber".to_owned(), 5));
        let history = HighScores(entries);
        assert(history@ =~= seq![("Bens"@, 2u32), ("Philber"@, 5u32)]);
        history
    }
}

/// The entry that a game-over event adds to the history: the event's score
/// under the name that stands for the player.
pub open spec fn entry_for(event: GameOver) -> (Seq<char>, u32) {
    ("Player"@, event.0)
}

/// The entries that the events add to the history, in the events' order.
pub open spec fn entries_for(events: Seq<GameOver>) -> Seq<(Seq<char>, u32)> {
    events.map_values(|event: GameOver| entry_for(event))
}

/// The world after the score's listener has run: the score no longer counts
/// as set.
pub open spec fn after_update_score(world: WorldView) -> WorldView {
    WorldView { score_changed: false, ..world }
}

/// What the score's listener is told: the score, if it was set since the
/// listener last ran.
pub open spec fn score_report(world: WorldView) -> Option<u32> {
    if world.score_changed {
        Some(world.score as u32)
    } else {
        None
    }
}

/// The world after the frame's game-over events have been entered in the
/// history: one entry for each event, in the events' order, after the entries
/// that were there. Nothing is sorted or dropped. The history counts as set if
/// there was an event.
pub open spec fn after_update_high_scores(world: WorldView) -> WorldView {
    WorldView {
        high_scores: world.high_scores + entries_for(world.game_over_events),
        high_scores_changed: world.high_scores_changed || world.game_over_events.len() > 0,
        ..world
    }
}

/// The world after the history's listener has run: the history no longer
/// counts as set.
pub open spec fn after_high_scores_updated(world: WorldView) -> WorldView {
    WorldView { high_scores_changed: false, ..world }
}

/// What the history's listener is told: the whole history, if it was set
/// since the listener last ran.
pub open spec fn high_scores_report(world: WorldView) -> Option<Seq<(Seq<char>, u32)>> {
    if world.high_scores_changed {
        Some(world.high_scores)
    } else {
        None
    }
}

/// A list of entries as plain values.
pub open spec fn entries_view(entries: Seq<(String, u32)>) -> Seq<(Seq<char>, u32)> {
    entries.map_values(|entry: (String, u32)| entry_view(entry))
}

/// A listener's report of the history as plain values.
pub open spec fn report_view(report: Option<Vec<(String, u32)>>) -> Option<Seq<(Seq<char>, u32)>> {
    match report {
        Some(entries) => Some(entries_view(entries@)),
        None => None,
    }
}

impl HighScores {
    /// Enters one final score for each of the events, in their order.
    pub fn record(&mut self, events: &Vec<GameOver>)
        ensures
            final(self)@ == old(self)@ + entries_for(events@),
    {
        let count = events.len();
        let mut i: usize = 0;
        while i < count
            invariant
                i <= count,
                count == events@.len(),
                self@ == old(self)@ + entries_for(events@.take(i as int)),
            decreases count - i,
        {
            let ghost before = self@;
            self.0.push(("Player".to_owned(), events[i].0));
            proof {
                assert(entries_for(events@.take(i + 1)) =~= entries_for(
                    events@.take(i as int),
                ).push(entry_for(events@[i as int])));
                assert(self@ =~= before.push(entry_for(events@[i as int])));
            }
            i += 1;
        }
        assert(events@.take(count as int) =~= events@);
    }

    /// A copy of the entries, in their order.
    pub fn entries(&self) -> (copy: Vec<(String, u32)>)
        ensures
            entries_view(copy@) == self@,
    {
        let count = self.0.len();
        let mut copy: Vec<(String, u32)> = Vec::new();
        let mut i: usize = 0;
        while i < count
            invariant
                i <= count,
                count == self.0@.len(),
                copy@.len() == i,
                forall|j: int|
                    0 <= j < i ==> entry_view(#[trigger] copy@[j]) == entry_view(self.0@[j]),
            decreases count - i,
        {
            let name = self.0[i].0.clone();
            copy.push((name, self.0[i].1));
            i += 1;
        }
        assert(entries_view(copy@) =~= self@);
        copy
    }
}

/// The score's listener: tells the score if it was set since the listener
/// last ran, and nothing otherwise.
pub fn update_score(world: &mut World) -> (report: Option<u32>)
    ensures
        report == score_report(old(world)@),
        final(world)@ == after_update_score(old(world)@),
        old(world)@.is_valid() ==> final(world)@.is_valid(),
{
    if world.score_changed {
        world.score_changed = false;
        Some(world.score.0)
    } else {
        None
    }
}

/// Enters the frame's game-over events in the history.
pub fn update_high_scores(world: &mut World)
    ensures
        final(world)@ == after_update_high_scores(old(world)@),
        old(world)@.is_valid() ==> final(world)@.is_valid(),
{
    if world.game_over_events.len() > 0 {
        world.high_scores.record(&world.game_over_events);
        world.high_scores_changed = true;
    } else {
        assert(world@.high_scores =~= world@.high_scores + entries_for(world@.game_over_events));
    }
}

/// The history's listener: tells the whole history if it was set since the
/// listener last ran, and nothing otherwise.
pub fn high_scores_updated(world: &mut World) -> (report: Option<Vec<(String, u32)>>)
    ensures
        report_view(report) == high_scores_report(old(world)@),
        final(world)@ == after_high_scores_updated(old(world)@),
        old(world)@.is_valid() ==> final(world)@.is_valid(),
{
    if world.high_scores_changed {
        world.high_scores_changed = false;
        Some(world.high_scores.entries())
    } else {
        None
    }
}

} // verus!
