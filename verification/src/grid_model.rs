//! The grid world as a mathematical state machine, and what holds of it.

use crate::gridworld::GridWorldAction;
use crate::ratio::Fraction;
use crate::spaces::SpaceView;
use vstd::prelude::*;

verus! {

/// One state of a grid world: its fixed configuration and the progress of
/// the current episode. Positions are `(x, y)` pairs.
pub struct GridState {
    /// Width and height of the grid.
    pub grid_size: (int, int),
    /// Where every episode starts.
    pub start_pos: (int, int),
    /// The cell that ends an episode when the agent reaches it.
    pub goal_pos: (int, int),
    /// Where the agent is.
    pub agent_pos: (int, int),
    /// Steps taken in the current episode.
    pub steps: nat,
    /// Steps after which an episode is cut short.
    pub max_steps: nat,
    /// The goal has been reached in the current episode.
    pub terminated: bool,
    /// The step budget has run out in the current episode.
    pub truncated: bool,
}

/// The reward of a step that reaches the goal.
pub open spec fn goal_reward() -> Fraction {
    Fraction { num: 1, den: 1 }
}

/// The reward of a step that uses up the budget without reaching the goal.
pub open spec fn timeout_reward() -> Fraction {
    Fraction { num: -1, den: 1 }
}

/// The reward of any other step that moves the agent: a small cost.
pub open spec fn move_reward() -> Fraction {
    Fraction { num: -1, den: 100 }
}

/// The reward of a step whose action does not exist.
pub open spec fn ignored_reward() -> Fraction {
    Fraction { num: 0, den: 1 }
}

/// A pair of machine integers as a position or a size on the grid.
pub open spec fn as_pair(pair: (usize, usize)) -> (int, int) {
    (pair.0 as int, pair.1 as int)
}

/// The position `pos` on a grid of size `grid_size` as fractions of the way
/// along each axis: `x / (width - 1)`, then `y / (height - 1)`.
pub open spec fn encoding(grid_size: (int, int), pos: (int, int)) -> Seq<Fraction> {
    seq![
        Fraction { num: pos.0, den: grid_size.0 - 1 },
        Fraction { num: pos.1, den: grid_size.1 - 1 },
    ]
}

/// `pos` is a cell of a grid of the given width and height.
pub open spec fn is_cell(grid_size: (int, int), pos: (int, int)) -> bool {
    &&& 0 <= pos.0 < grid_size.0
    &&& 0 <= pos.1 < grid_size.1
}

impl GridState {
    /// `pos` is a cell of the grid.
    pub open spec fn in_grid(self, pos: (int, int)) -> bool {
        is_cell(self.grid_size, pos)
    }

    /// The grid has at least two cells in each direction, start, goal and
    /// agent are cells of it, and the budget has run out if the episode was
    /// cut short.
    pub open spec fn well_formed(self) -> bool {
        &&& self.grid_size.0 >= 2
        &&& self.grid_size.1 >= 2
        &&& self.in_grid(self.start_pos)
        &&& self.in_grid(self.goal_pos)
        &&& self.in_grid(self.agent_pos)
        &&& self.truncated ==> self.steps >= self.max_steps
    }

    /// The state in which the first episode starts.
    pub open spec fn initial(
        grid_size: (int, int),
        start_pos: (int, int),
        goal_pos: (int, int),
        max_steps: nat,
    ) -> GridState {
        GridState {
            grid_size,
            start_pos,
            goal_pos,
            agent_pos: start_pos,
            steps: 0,
            max_steps,
            terminated: false,
            truncated: false,
        }
    }

    /// The episode has ended, one way or the other.
    pub open spec fn is_terminal(self) -> bool {
        self.terminated || self.truncated
    }

    /// The agent's position as fractions of the way along each axis.
    pub open spec fn observation(self) -> Seq<Fraction> {
        encoding(self.grid_size, self.agent_pos)
    }

    /// The state at the start of a new episode.
    pub open spec fn after_reset(self) -> GridState {
        GridState {
            agent_pos: self.start_pos,
            steps: 0,
            terminated: false,
            truncated: false,
            ..self
        }
    }

    /// Where `action` takes the agent: one cell along, or nowhere at the
    /// edge of the grid.
    pub open spec fn moved(self, action: GridWorldAction) -> (int, int) {
        let (x, y) = self.agent_pos;
        match action {
            GridWorldAction::Up => (x, vstd::math::min(y + 1, self.grid_size.1 - 1)),
            GridWorldAction::Down => (x, vstd::math::max(y - 1, 0)),
            GridWorldAction::Left => (vstd::math::max(x - 1, 0), y),
            GridWorldAction::Right => (vstd::math::min(x + 1, self.grid_size.0 - 1), y),
        }
    }

    /// The state after a step with the action numbered `index`. A number
    /// that names no action changes nothing. Any other step is counted and
    /// moves the agent; reaching the goal terminates the episode, and
    /// otherwise an exhausted budget truncates it.
    pub open spec fn after_step(self, index: int) -> GridState {
        match GridWorldAction::from_index(index) {
            None => self,
            Some(action) => {
                let reached = self.moved(action);
                let at_goal = reached == self.goal_pos;
                let out_of_budget = self.steps + 1 >= self.max_steps;
                GridState {
                    agent_pos: reached,
                    steps: self.steps + 1,
                    terminated: self.terminated || at_goal,
                    truncated: self.truncated || (!at_goal && out_of_budget),
                    ..self
                }
            },
        }
    }

    /// The reward of a step with the action numbered `index`.
    pub open spec fn step_reward(self, index: int) -> Fraction {
        match GridWorldAction::from_index(index) {
            None => ignored_reward(),
            Some(action) => {
                if self.moved(action) == self.goal_pos {
                    goal_reward()
                } else if self.steps + 1 >= self.max_steps {
                    timeout_reward()
                } else {
                    move_reward()
                }
            },
        }
    }

    /// The state after one step for each number of `actions`, in order.
    pub open spec fn after_steps(self, actions: Seq<int>) -> GridState
        decreases actions.len(),
    {
        if actions.len() == 0 {
            self
        } else {
            self.after_steps(actions.drop_last()).after_step(actions.last())
        }
    }
}

/// The observation of a well-formed state has two coordinates, both in the
/// unit interval, and so lies in the two-dimensional unit box.
pub proof fn lemma_observation_in_unit_box(state: GridState)
    requires
        state.well_formed(),
    ensures
        state.observation().len() == 2,
        forall|i: int|
            0 <= i < 2 ==> {
                &&& (#[trigger] state.observation()[i]).well_formed()
                &&& state.observation()[i].in_unit_interval()
            },
        SpaceView::unit_box(2).contains_point(state.observation()),
{
    crate::spaces::lemma_unit_box(2, state.observation());
}

/// A new episode starts at the start position with no step taken and
/// neither flag set, whatever the state before; the configuration stays,
/// and so does well-formedness.
pub proof fn lemma_reset_starts_episode(state: GridState)
    requires
        state.well_formed(),
    ensures
        state.after_reset().well_formed(),
        state.after_reset().agent_pos == state.start_pos,
        state.after_reset().steps == 0,
        !state.after_reset().terminated,
        !state.after_reset().truncated,
        state.after_reset() == GridState::initial(
            state.grid_size,
            state.start_pos,
            state.goal_pos,
            state.max_steps,
        ),
        state.after_reset().observation() == encoding(state.grid_size, state.start_pos),
{
}

/// A step from a well-formed state reaches a well-formed state: whatever
/// the number given, the agent is still on a cell of the grid.
pub proof fn lemma_step_stays_in_grid(state: GridState, index: int)
    requires
        state.well_formed(),
    ensures
        state.after_step(index).well_formed(),
        state.after_step(index).in_grid(state.after_step(index).agent_pos),
{
}

/// Along any sequence of steps from a well-formed state, the agent is on a
/// cell of the grid after every one of them.
pub proof fn lemma_trajectory_stays_in_grid(state: GridState, actions: Seq<int>)
    requires
        state.well_formed(),
    ensures
        forall|taken: int|
            0 <= taken <= actions.len() ==> {
                let reached = #[trigger] state.after_steps(actions.take(taken));
                reached.well_formed() && reached.in_grid(reached.agent_pos)
            },
    decreases actions.len(),
{
    assert forall|taken: int| 0 <= taken <= actions.len() implies {
        let reached = #[trigger] state.after_steps(actions.take(taken));
        reached.well_formed() && reached.in_grid(reached.agent_pos)
    } by {
        let prefix = actions.take(taken);
        if taken > 0 {
            lemma_trajectory_stays_in_grid(state, prefix.drop_last());
            assert(prefix.drop_last().take(taken - 1) =~= prefix.drop_last());
            lemma_step_stays_in_grid(state.after_steps(prefix.drop_last()), prefix.last());
        }
    }
}

/// A step changes neither the grid, nor start and goal, nor the budget.
pub proof fn lemma_step_keeps_configuration(state: GridState, index: int)
    ensures
        state.after_step(index).grid_size == state.grid_size,
        state.after_step(index).start_pos == state.start_pos,
        state.after_step(index).goal_pos == state.goal_pos,
        state.after_step(index).max_steps == state.max_steps,
{
}

/// A step with a number that names no action changes nothing and earns
/// nothing.
pub proof fn lemma_unknown_action_is_ignored(state: GridState, index: int)
    requires
        !(0 <= index <= 3),
    ensures
        state.after_step(index) == state,
        state.step_reward(index) == ignored_reward(),
{
}

/// A step with one of the four actions is counted once and moves the agent
/// by at most one cell along one axis.
pub proof fn lemma_known_action_moves_one_cell(state: GridState, index: int)
    requires
        state.well_formed(),
        0 <= index <= 3,
    ensures
        state.after_step(index).steps == state.steps + 1,
        ({
            let (x, y) = state.agent_pos;
            let (to_x, to_y) = state.after_step(index).agent_pos;
            ||| to_x == x && to_y == y
            ||| to_x == x && (to_y == y + 1 || to_y == y - 1)
            ||| to_y == y && (to_x == x + 1 || to_x == x - 1)
        }),
{
}

/// Within an episode a flag that is set stays set. A step that sets
/// `terminated` has put the agent on the goal; one that sets `truncated`
/// has used up the budget without reaching the goal. No step sets both.
pub proof fn lemma_flags_only_rise(state: GridState, index: int)
    ensures
        state.terminated ==> state.after_step(index).terminated,
        state.truncated ==> state.after_step(index).truncated,
        state.is_terminal() ==> state.after_step(index).is_terminal(),
        !state.terminated && state.after_step(index).terminated ==> state.after_step(
            index,
        ).agent_pos == state.goal_pos,
        !state.truncated && state.after_step(index).truncated ==> {
            &&& state.after_step(index).steps >= state.max_steps
            &&& state.after_step(index).agent_pos != state.goal_pos
        },
        !(!state.terminated && state.after_step(index).terminated && !state.truncated
            && state.after_step(index).truncated),
{
}

/// The reward of a step tells what the step did: the goal's reward exactly
/// when the agent landed on the goal, the timeout's exactly when it did not
/// and the budget is used up, the cost of a move for any other step with
/// one of the four actions, and nothing for any other number.
pub proof fn lemma_reward_tells_outcome(state: GridState, index: int)
    ensures
        state.step_reward(index).well_formed(),
        state.step_reward(index) == goal_reward() <==> (0 <= index <= 3 && state.after_step(
            index,
        ).agent_pos == state.goal_pos),
        state.step_reward(index) == timeout_reward() <==> (0 <= index <= 3 && state.after_step(
            index,
        ).agent_pos != state.goal_pos && state.steps + 1 >= state.max_steps),
        state.step_reward(index) == move_reward() <==> (0 <= index <= 3 && state.after_step(
            index,
        ).agent_pos != state.goal_pos && state.steps + 1 < state.max_steps),
        state.step_reward(index) == ignored_reward() <==> !(0 <= index <= 3),
{
}

} // verus!
