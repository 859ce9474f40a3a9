//! A bounded two-dimensional grid in which an agent walks towards a goal.

use crate::environment::{Environment, StepResult};
use crate::grid_model::{as_pair, encoding, ignored_reward, is_cell, GridState};
use crate::ratio::{Fraction, Ratio};
use crate::spaces::{Space, SpaceView};
use vstd::prelude::*;
use vstd::std_specs::convert::TryFromSpecImpl;

verus! {

/// The four moves of the agent, numbered 0 to 3 in this order.
#[derive(Clone, Copy, Debug, PartialEq, Eq, Structural)]
pub enum GridWorldAction {
    Up,
    Down,
    Left,
    Right,
}

impl GridWorldAction {
    /// The number of the action.
    pub open spec fn number(self) -> int {
        match self {
            GridWorldAction::Up => 0,
            GridWorldAction::Down => 1,
            GridWorldAction::Left => 2,
            GridWorldAction::Right => 3,
        }
    }

    /// The number of the action, which `try_from` turns back into it.
    pub fn index(self) -> (index: usize)
        ensures
            index == self.number(),
            GridWorldAction::from_index(index as int) == Some(self),
    {
        match self {
            GridWorldAction::Up => 0,
            GridWorldAction::Down => 1,
            GridWorldAction::Left => 2,
            GridWorldAction::Right => 3,
        }
    }

    /// The action with the given number, if there is one.
    pub open spec fn from_index(index: int) -> Option<GridWorldAction> {
        if index == 0 {
            Some(GridWorldAction::Up)
        } else if index == 1 {
            Some(GridWorldAction::Down)
        } else if index == 2 {
            Some(GridWorldAction::Left)
        } else if index == 3 {
            Some(GridWorldAction::Right)
        } else {
            None
        }
    }
}

/// The four actions and the numbers 0 to 3 correspond one to one, and
/// these numbers are the choices of the discrete space of size four.
pub proof fn lemma_action_numbers(action: GridWorldAction, index: int)
    ensures
        GridWorldAction::from_index(index) is Some <==> 0 <= index <= 3,
        GridWorldAction::from_index(index) is Some <==> SpaceView::Discrete(4).contains_index(
            index,
        ),
        GridWorldAction::from_index(action.number()) == Some(action),
        GridWorldAction::from_index(index) == Some(action) <==> action.number() == index,
{
}

impl TryFrom<usize> for GridWorldAction {
    type Error = ();

    fn try_from(value: usize) -> (converted: Result<Self, ()>) {
        match value {
            0 => Ok(GridWorldAction::Up),
            1 => Ok(GridWorldAction::Down),
            2 => Ok(GridWorldAction::Left),
            3 => Ok(GridWorldAction::Right),
            _ => Err(()),
        }
    }
}

impl TryFromSpecImpl<usize> for GridWorldAction {
    open spec fn obeys_try_from_spec() -> bool {
        true
    }

    open spec fn try_from_spec(value: usize) -> Result<Self, ()> {
        match GridWorldAction::from_index(value as int) {
            Some(action) => Ok(action),
            None => Err(()),
        }
    }
}

/// Why a configuration cannot be a grid world.
#[derive(Clone, Copy, Debug, PartialEq, Eq, Structural)]
pub enum ConfigError {
    /// The grid has fewer than two cells in some direction, so a position
    /// along it cannot be given as a fraction of the way.
    GridTooSmall,
    /// The start position is not a cell of the grid.
    StartOutsideGrid,
    /// The goal position is not a cell of the grid.
    GoalOutsideGrid,
}

/// A grid world: a fixed configuration and the state of the current episode.
pub struct GridWorld {
    grid_size: (usize, usize),
    start_pos: (usize, usize),
    agent_pos: (usize, usize),
    goal_pos: (usize, usize),
    steps: usize,
    max_steps: usize,
    terminated: bool,
    truncated: bool,
}

impl View for GridWorld {
    type V = GridState;

    closed spec fn view(&self) -> GridState {
        GridState {
            grid_size: (self.grid_size.0 as int, self.grid_size.1 as int),
            start_pos: (self.start_pos.0 as int, self.start_pos.1 as int),
            goal_pos: (self.goal_pos.0 as int, self.goal_pos.1 as int),
            agent_pos: (self.agent_pos.0 as int, self.agent_pos.1 as int),
            steps: self.steps as nat,
            max_steps: self.max_steps as nat,
            terminated: self.terminated,
            truncated: self.truncated,
        }
    }
}

impl Default for GridWorld {
    /// A grid of five by five cells, from one corner to the opposite one in
    /// at most a hundred steps.
    fn default() -> (world: Self)
        ensures
            world@ == GridState::initial((5, 5), (0, 0), (4, 4), 100),
            world@.well_formed(),
    {
        GridWorld {
            grid_size: (5, 5),
            start_pos: (0, 0),
            agent_pos: (0, 0),
            goal_pos: (4, 4),
            steps: 0,
            max_steps: 100,
            terminated: false,
            truncated: false,
        }
    }
}

impl GridWorld {
    /// What is wrong with a configuration, if anything: the first of the
    /// three faults that it has.
    pub open spec fn config_error(
        grid_size: (int, int),
        start_pos: (int, int),
        goal_pos: (int, int),
    ) -> Option<ConfigError> {
        if grid_size.0 < 2 || grid_size.1 < 2 {
            Some(ConfigError::GridTooSmall)
        } else if !is_cell(grid_size, start_pos) {
            Some(ConfigError::StartOutsideGrid)
        } else if !is_cell(grid_size, goal_pos) {
            Some(ConfigError::GoalOutsideGrid)
        } else {
            None
        }
    }

    /// A grid world of `grid_size` (width, height) whose episodes start at
    /// `start_pos`, aim for `goal_pos` and are cut short after `max_steps`
    /// steps. A configuration with a fault is refused with that fault.
    pub fn new(
        grid_size: (usize, usize),
        start_pos: (usize, usize),
        goal_pos: (usize, usize),
        max_steps: usize,
    ) -> (made: Result<GridWorld, ConfigError>)
        ensures
            match made {
                Ok(world) => {
                    &&& GridWorld::config_error(
                        as_pair(grid_size),
                        as_pair(start_pos),
                        as_pair(goal_pos),
                    ) is None
                    &&& world@ == GridState::initial(
                        as_pair(grid_size),
                        as_pair(start_pos),
                        as_pair(goal_pos),
                        max_steps as nat,
                    )
                    &&& world@.well_formed()
                },
                Err(fault) => GridWorld::config_error(
                    as_pair(grid_size),
                    as_pair(start_pos),
                    as_pair(goal_pos),
                ) == Some(fault),
            },
    {
        if grid_size.0 < 2 || grid_size.1 < 2 {
            return Err(ConfigError::GridTooSmall);
        }
        if start_pos.0 >= grid_size.0 || start_pos.1 >= grid_size.1 {
            return Err(ConfigError::StartOutsideGrid);
        }
        if goal_pos.0 >= grid_size.0 || goal_pos.1 >= grid_size.1 {
            return Err(ConfigError::GoalOutsideGrid);
        }
        Ok(
            GridWorld {
                grid_size,
                start_pos,
                agent_pos: start_pos,
                goal_pos,
                steps: 0,
                max_steps,
                terminated: false,
                truncated: false,
            },
        )
    }

    /// Width and height of the grid.
    pub fn grid_size(&self) -> (size: (usize, usize))
        ensures
            as_pair(size) == self@.grid_size,
    {
        self.grid_size
    }

    /// Where every episode starts.
    pub fn start_pos(&self) -> (pos: (usize, usize))
        ensures
            as_pair(pos) == self@.start_pos,
    {
        self.start_pos
    }

    /// The cell that ends an episode when the agent reaches it.
    pub fn goal_pos(&self) -> (pos: (usize, usize))
        ensures
            as_pair(pos) == self@.goal_pos,
    {
        self.goal_pos
    }

    /// Where the agent is.
    pub fn agent_pos(&self) -> (pos: (usize, usize))
        ensures
            as_pair(pos) == self@.agent_pos,
    {
        self.agent_pos
    }

    /// Steps taken in the current episode.
    pub fn steps(&self) -> (steps: usize)
        ensures
            steps == self@.steps,
    {
        self.steps
    }

    /// Steps after which an episode is cut short.
    pub fn max_steps(&self) -> (max_steps: usize)
        ensures
            max_steps == self@.max_steps,
    {
        self.max_steps
    }

    /// The goal has been reached in the current episode.
    pub fn terminated(&self) -> (terminated: bool)
        ensures
            terminated == self@.terminated,
    {
        self.terminated
    }

    /// The step budget has run out in the current episode.
    pub fn truncated(&self) -> (truncated: bool)
        ensures
            truncated == self@.truncated,
    {
        self.truncated
    }

    /// The agent's position as fractions of the way along each axis.
    pub fn get_observation(&self) -> (observation: Vec<Ratio>)
        requires
            self@.well_formed(),
        ensures
            observation.deep_view() == self@.observation(),
    {
        let along_x = Ratio { num: self.agent_pos.0 as i128, den: (self.grid_size.0 - 1) as u128 };
        let along_y = Ratio { num: self.agent_pos.1 as i128, den: (self.grid_size.1 - 1) as u128 };
        let observation = vec![along_x, along_y];
        assert(observation.deep_view() =~= self@.observation());
        observation
    }
}

impl Environment for GridWorld {
    open spec fn well_formed(&self) -> bool {
        self@.well_formed()
    }

    open spec fn has_room_to_step(&self) -> bool {
        self@.steps < usize::MAX
    }

    open spec fn episode_over(&self) -> bool {
        self@.is_terminal()
    }

    open spec fn current_observation(&self) -> Seq<Fraction> {
        self@.observation()
    }

    open spec fn observation_space_view(&self) -> SpaceView {
        SpaceView::unit_box(2)
    }

    open spec fn action_space_view(&self) -> SpaceView {
        SpaceView::Discrete(4)
    }

    open spec fn name_view(&self) -> Seq<char> {
        "GridWorld"@
    }

    fn reset(&mut self) -> (observation: Vec<Ratio>)
        ensures
            final(self)@ == old(self)@.after_reset(),
            observation.deep_view() == encoding(old(self)@.grid_size, old(self)@.start_pos),
            final(self)@.agent_pos == old(self)@.start_pos,
            final(self)@.steps == 0,
            !final(self)@.terminated,
            !final(self)@.truncated,
    {
        self.agent_pos = self.start_pos;
        self.steps = 0;
        self.terminated = false;
        self.truncated = false;
        proof {
            crate::grid_model::lemma_observation_in_unit_box(self@);
        }
        self.get_observation()
    }

    fn step(&mut self, action: usize) -> (result: StepResult)
        ensures
            final(self)@ == old(self)@.after_step(action as int),
            result.observation.deep_view() == final(self)@.observation(),
            result.reward@ == old(self)@.step_reward(action as int),
            result.terminated == final(self)@.terminated,
            result.truncated == final(self)@.truncated,
            action > 3 ==> final(self)@ == old(self)@ && result.reward@ == ignored_reward(),
    {
        proof {
            crate::grid_model::lemma_observation_in_unit_box(self@);
        }
        let grid_action = match GridWorldAction::try_from(action) {
            Ok(grid_action) => grid_action,
            Err(_) => {
                return StepResult {
                    observation: self.get_observation(),
                    reward: Ratio::whole(0),
                    terminated: self.terminated,
                    truncated: self.truncated,
                };
            },
        };

        self.steps += 1;
        match grid_action {
            GridWorldAction::Left => self.agent_pos.0 = self.agent_pos.0.saturating_sub(1),
            GridWorldAction::Right => {
                self.agent_pos.0 = (self.agent_pos.0 + 1).min(self.grid_size.0 - 1)
            },
            GridWorldAction::Up => {
                self.agent_pos.1 = (self.agent_pos.1 + 1).min(self.grid_size.1 - 1)
            },
            GridWorldAction::Down => self.agent_pos.1 = self.agent_pos.1.saturating_sub(1),
        }

        let reward;
        if self.agent_pos.0 == self.goal_pos.0 && self.agent_pos.1 == self.goal_pos.1 {
            reward = Ratio::whole(1);
            self.terminated = true;
        } else if self.steps >= self.max_steps {
            reward = Ratio::whole(-1);
            self.truncated = true;
        } else {
            reward = Ratio { num: -1, den: 100 };
        }
        proof {
            crate::grid_model::lemma_observation_in_unit_box(self@);
        }
        StepResult {
            observation: self.get_observation(),
            reward,
            terminated: self.terminated,
            truncated: self.truncated,
        }
    }

    fn is_terminal(&self) -> (over: bool) {
        self.terminated || self.truncated
    }

    fn action_space(&self) -> (space: Space) {
        Space::Discrete(4)
    }

    fn name(&self) -> (name: &str) {
        "GridWorld"
    }

    fn observation_space(&self) -> (space: Space) {
        let low = vec![Ratio { num: 0, den: 1 }, Ratio { num: 0, den: 1 }];
        let high = vec![Ratio { num: 1, den: 1 }, Ratio { num: 1, den: 1 }];
        proof {
            crate::spaces::lemma_unit_box(2, Seq::empty());
            assert(low.deep_view() =~= Seq::new(2, |i: int| Fraction::whole(0)));
            assert(high.deep_view() =~= Seq::new(2, |i: int| Fraction::whole(1)));
        }
        Space::Box { low, high }
    }
}

} // verus!
