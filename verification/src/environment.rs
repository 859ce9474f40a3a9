//! The contract between a simulated world and the loop that drives it.

use crate::ratio::{Fraction, Ratio};
use crate::spaces::{Space, SpaceView};
use vstd::prelude::*;

verus! {

/// What one call of [`Environment::step`] hands back.
pub struct StepResult {
    /// The observation of the state reached.
    pub observation: Vec<Ratio>,
    /// The reward earned by the step.
    pub reward: Ratio,
    /// The episode has ended because its goal was met.
    pub terminated: bool,
    /// The episode has ended because its step budget ran out.
    pub truncated: bool,
}

/// A simulated world that a driver runs in episodes: `reset` once, then
/// `step` until `is_terminal`.
///
/// The spec functions describe a state; the executable methods are held to
/// them. Whatever the implementation, the spaces and the name never change,
/// an episode that has ended stays ended until the next `reset`, and every
/// observation handed out lies in the observation space.
pub trait Environment: Send {
    /// The state is one that the implementation can reach.
    spec fn well_formed(&self) -> bool;

    /// The implementation's counters have room for one more step.
    spec fn has_room_to_step(&self) -> bool;

    /// The current episode has ended.
    spec fn episode_over(&self) -> bool;

    /// The observation of the current state.
    spec fn current_observation(&self) -> Seq<Fraction>;

    /// The space that every observation lies in.
    spec fn observation_space_view(&self) -> SpaceView;

    /// The space that actions are drawn from.
    spec fn action_space_view(&self) -> SpaceView;

    /// The implementation's name.
    spec fn name_view(&self) -> Seq<char>;

    /// Abandons the current episode, starts a new one and returns its first
    /// observation.
    fn reset(&mut self) -> (observation: Vec<Ratio>)
        requires
            old(self).well_formed(),
        ensures
            final(self).well_formed(),
            final(self).has_room_to_step(),
            !final(self).episode_over(),
            observation.deep_view() == final(self).current_observation(),
            final(self).observation_space_view().contains_point(observation.deep_view()),
            final(self).observation_space_view() == old(self).observation_space_view(),
            final(self).action_space_view() == old(self).action_space_view(),
            final(self).name_view() == old(self).name_view(),
    ;

    /// Applies one action and reports the observation reached, the reward
    /// and the two flags that end an episode.
    fn step(&mut self, action: usize) -> (result: StepResult)
        requires
            old(self).well_formed(),
            old(self).has_room_to_step(),
        ensures
            final(self).well_formed(),
            result.observation.deep_view() == final(self).current_observation(),
            final(self).observation_space_view().contains_point(result.observation.deep_view()),
            result.reward@.well_formed(),
            final(self).episode_over() == (result.terminated || result.truncated),
            old(self).episode_over() ==> final(self).episode_over(),
            final(self).observation_space_view() == old(self).observation_space_view(),
            final(self).action_space_view() == old(self).action_space_view(),
            final(self).name_view() == old(self).name_view(),
    ;

    /// Whether the current episode has ended, by termination or truncation.
    fn is_terminal(&self) -> (over: bool)
        requires
            self.well_formed(),
        ensures
            over == self.episode_over(),
    ;

    /// The space that every observation lies in.
    fn observation_space(&self) -> (space: Space)
        requires
            self.well_formed(),
        ensures
            space@ == self.observation_space_view(),
            space@.well_formed(),
    ;

    /// The space that actions are drawn from.
    fn action_space(&self) -> (space: Space)
        requires
            self.well_formed(),
        ensures
            space@ == self.action_space_view(),
            space@.well_formed(),
    ;

    /// A stable, human-readable name.
    fn name(&self) -> (name: &str)
        ensures
            name@ == self.name_view(),
    ;
}

} // verus!
