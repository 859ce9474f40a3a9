use rl_env::environment::{Environment, StepResult};
use rl_env::gridworld::{ConfigError, GridWorld, GridWorldAction};
use rl_env::ratio::Ratio;
use rl_env::spaces::Space;

fn number(ratio: Ratio) -> f32 {
    ratio.num as f32 / ratio.den as f32
}

fn numbers(ratios: &[Ratio]) -> Vec<f32> {
    ratios.iter().map(|ratio| number(*ratio)).collect()
}

fn observed(result: &StepResult) -> Vec<f32> {
    numbers(&result.observation)
}

#[test]
fn test_reset() {
    let mut env = GridWorld::default();
    env.reset();
    assert_eq!(env.steps(), 0);
    assert!(!env.terminated());
    assert!(!env.truncated());
}

#[test]
fn test_step_valid() {
    let mut env = GridWorld::default();
    let result = env.step(3);
    assert_eq!(observed(&result), vec![0.25, 0.0]);
    assert_eq!(number(result.reward), -0.01);
    assert!(!result.terminated);
    assert!(!result.truncated);
}

#[test]
fn test_step_boundary_left() {
    let mut env = GridWorld::default();
    let result = env.step(2);
    assert_eq!(observed(&result), vec![0.0, 0.0]);
    assert_eq!(number(result.reward), -0.01);
    assert!(!result.terminated);
    assert!(!result.truncated);
}

#[test]
fn test_step_boundary_right() {
    let mut env = GridWorld::default();
    env.step(3);
    env.step(3);
    env.step(3);
    env.step(3);
    let result = env.step(3);
    assert_eq!(observed(&result), vec![1.0, 0.0]);
    assert_eq!(number(result.reward), -0.01);
    assert!(!result.terminated);
    assert!(!result.truncated);
}

#[test]
fn test_step_boundary_down() {
    let mut env = GridWorld::default();
    let result = env.step(1);
    assert_eq!(observed(&result), vec![0.0, 0.0]);
    assert_eq!(number(result.reward), -0.01);
    assert!(!result.terminated);
    assert!(!result.truncated);
}

#[test]
fn test_step_boundary_up() {
    let mut env = GridWorld::default();
    env.step(0);
    env.step(0);
    env.step(0);
    env.step(0);
    let result = env.step(0);
    assert_eq!(observed(&result), vec![0.0, 1.0]);
    assert_eq!(number(result.reward), -0.01);
    assert!(!result.terminated);
    assert!(!result.truncated);
}

#[test]
fn test_goal_reached() {
    let mut env = GridWorld::new((2, 2), (0, 0), (1, 1), 100).unwrap();
    env.step(0);
    let result = env.step(3);
    assert!(result.terminated);
    assert_eq!(number(result.reward), 1.0);
}

#[test]
fn test_max_steps() {
    let mut env = GridWorld::new((5, 5), (0, 0), (4, 4), 4).unwrap();
    env.step(0);
    env.step(1);
    env.step(2);
    let result = env.step(3);
    assert!(result.truncated);
    assert_eq!(number(result.reward), -1.0);
}

#[test]
fn default_is_five_by_five_with_budget_hundred() {
    let env = GridWorld::default();
    assert_eq!(env.grid_size(), (5, 5));
    assert_eq!(env.start_pos(), (0, 0));
    assert_eq!(env.goal_pos(), (4, 4));
    assert_eq!(env.agent_pos(), (0, 0));
    assert_eq!(env.max_steps(), 100);
    assert_eq!(env.steps(), 0);
    assert!(!env.terminated());
    assert!(!env.truncated());
    assert!(!env.is_terminal());
}

#[test]
fn new_keeps_what_it_is_given() {
    let env = GridWorld::new((7, 3), (6, 1), (0, 2), 9).unwrap();
    assert_eq!(env.grid_size(), (7, 3));
    assert_eq!(env.start_pos(), (6, 1));
    assert_eq!(env.goal_pos(), (0, 2));
    assert_eq!(env.agent_pos(), (6, 1));
    assert_eq!(env.max_steps(), 9);
    assert_eq!(env.steps(), 0);
    assert!(!env.is_terminal());
}

#[test]
fn new_refuses_a_grid_of_width_one() {
    assert_eq!(GridWorld::new((1, 5), (0, 0), (0, 4), 10).err(), Some(ConfigError::GridTooSmall));
}

#[test]
fn new_refuses_a_grid_of_height_one() {
    assert_eq!(GridWorld::new((5, 1), (0, 0), (4, 0), 10).err(), Some(ConfigError::GridTooSmall));
}

#[test]
fn new_refuses_an_empty_grid() {
    assert_eq!(GridWorld::new((0, 0), (0, 0), (0, 0), 10).err(), Some(ConfigError::GridTooSmall));
}

#[test]
fn new_refuses_a_start_outside_the_grid() {
    assert_eq!(
        GridWorld::new((5, 5), (5, 0), (4, 4), 10).err(),
        Some(ConfigError::StartOutsideGrid)
    );
    assert_eq!(
        GridWorld::new((5, 5), (0, 5), (4, 4), 10).err(),
        Some(ConfigError::StartOutsideGrid)
    );
}

#[test]
fn new_refuses_a_goal_outside_the_grid() {
    assert_eq!(
        GridWorld::new((5, 5), (0, 0), (5, 4), 10).err(),
        Some(ConfigError::GoalOutsideGrid)
    );
    assert_eq!(
        GridWorld::new((5, 5), (0, 0), (4, 5), 10).err(),
        Some(ConfigError::GoalOutsideGrid)
    );
}

#[test]
fn new_reports_the_first_fault() {
    assert_eq!(GridWorld::new((1, 1), (3, 3), (4, 4), 10).err(), Some(ConfigError::GridTooSmall));
    assert_eq!(
        GridWorld::new((2, 2), (3, 3), (4, 4), 10).err(),
        Some(ConfigError::StartOutsideGrid)
    );
}

#[test]
fn new_accepts_the_smallest_grid() {
    assert!(GridWorld::new((2, 2), (1, 1), (0, 0), 0).is_ok());
}

#[test]
fn observation_is_position_over_size_minus_one() {
    let mut env = GridWorld::new((3, 4), (1, 2), (0, 0), 50).unwrap();
    let first = env.reset();
    assert_eq!(first, vec![Ratio { num: 1, den: 2 }, Ratio { num: 2, den: 3 }]);
    assert_eq!(env.get_observation(), first);
    assert_eq!(numbers(&first), vec![0.5, 2.0 / 3.0]);
}

#[test]
fn step_returns_exact_ratios() {
    let mut env = GridWorld::default();
    let result = env.step(3);
    assert_eq!(result.observation, vec![Ratio { num: 1, den: 4 }, Ratio { num: 0, den: 4 }]);
    assert_eq!(result.reward, Ratio { num: -1, den: 100 });
}

#[test]
fn each_action_moves_one_cell() {
    let mut env = GridWorld::new((5, 5), (2, 2), (4, 4), 100).unwrap();
    env.step(0);
    assert_eq!(env.agent_pos(), (2, 3));
    env.step(1);
    assert_eq!(env.agent_pos(), (2, 2));
    env.step(2);
    assert_eq!(env.agent_pos(), (1, 2));
    env.step(3);
    assert_eq!(env.agent_pos(), (2, 2));
    assert_eq!(env.steps(), 4);
}

#[test]
fn agent_never_leaves_the_grid() {
    let mut env = GridWorld::new((3, 2), (1, 1), (2, 1), 1000).unwrap();
    let actions = [2, 2, 2, 1, 1, 1, 3, 3, 3, 3, 0, 0, 0, 9, 2, 1, 3, 0, 0, 3, 3, 1, 1, 2];
    for action in actions {
        let result = env.step(action);
        let (x, y) = env.agent_pos();
        assert!(x < 3 && y < 2);
        for coordinate in observed(&result) {
            assert!((0.0..=1.0).contains(&coordinate));
        }
    }
}

#[test]
fn reset_returns_to_start_in_mid_episode() {
    let mut env = GridWorld::new((4, 4), (1, 2), (3, 3), 3).unwrap();
    env.step(3);
    env.step(3);
    let last = env.step(1);
    assert!(last.truncated);
    let first = env.reset();
    assert_eq!(numbers(&first), vec![1.0 / 3.0, 2.0 / 3.0]);
    assert_eq!(env.agent_pos(), (1, 2));
    assert_eq!(env.steps(), 0);
    assert!(!env.terminated());
    assert!(!env.truncated());
    assert!(!env.is_terminal());
}

#[test]
fn reset_clears_termination() {
    let mut env = GridWorld::new((2, 2), (0, 0), (1, 0), 10).unwrap();
    let result = env.step(3);
    assert!(result.terminated);
    assert!(env.is_terminal());
    env.reset();
    assert!(!env.is_terminal());
    assert_eq!(env.agent_pos(), (0, 0));
}

#[test]
fn unknown_action_changes_nothing() {
    let mut env = GridWorld::default();
    env.step(3);
    env.step(0);
    let result = env.step(4);
    assert_eq!(number(result.reward), 0.0);
    assert_eq!(result.reward, Ratio { num: 0, den: 1 });
    assert_eq!(observed(&result), vec![0.25, 0.25]);
    assert!(!result.terminated);
    assert!(!result.truncated);
    assert_eq!(env.steps(), 2);
    assert_eq!(env.agent_pos(), (1, 1));
    let result = env.step(usize::MAX);
    assert_eq!(number(result.reward), 0.0);
    assert_eq!(env.steps(), 2);
    assert_eq!(env.agent_pos(), (1, 1));
}

#[test]
fn unknown_action_reports_the_flags_as_they_are() {
    let mut env = GridWorld::new((2, 2), (0, 0), (1, 0), 10).unwrap();
    env.step(3);
    let result = env.step(17);
    assert!(result.terminated);
    assert!(!result.truncated);
    assert_eq!(number(result.reward), 0.0);
    assert_eq!(env.steps(), 1);
}

#[test]
fn goal_wins_over_exhausted_budget() {
    let mut env = GridWorld::new((2, 2), (0, 0), (1, 0), 1).unwrap();
    let result = env.step(3);
    assert!(result.terminated);
    assert!(!result.truncated);
    assert_eq!(number(result.reward), 1.0);
}

#[test]
fn zero_budget_truncates_at_once() {
    let mut env = GridWorld::new((3, 3), (0, 0), (2, 2), 0).unwrap();
    let result = env.step(0);
    assert!(result.truncated);
    assert!(!result.terminated);
    assert_eq!(number(result.reward), -1.0);
}

#[test]
fn flags_stay_set_after_the_episode_ended() {
    let mut env = GridWorld::new((3, 3), (0, 0), (1, 0), 2).unwrap();
    let result = env.step(3);
    assert!(result.terminated);
    let result = env.step(3);
    assert!(result.terminated);
    assert!(result.truncated);
    assert_eq!(number(result.reward), -1.0);
    assert_eq!(env.agent_pos(), (2, 0));
    assert_eq!(env.steps(), 2);
    assert!(env.is_terminal());
}

#[test]
fn start_on_goal_is_not_terminal_until_a_step_lands_there() {
    let mut env = GridWorld::new((3, 3), (0, 0), (0, 0), 10).unwrap();
    env.reset();
    assert!(!env.is_terminal());
    let result = env.step(2);
    assert!(result.terminated);
    assert_eq!(number(result.reward), 1.0);
}

#[test]
fn is_terminal_is_either_flag() {
    let mut env = GridWorld::new((3, 3), (0, 0), (2, 2), 2).unwrap();
    assert!(!env.is_terminal());
    env.step(0);
    assert!(!env.is_terminal());
    env.step(0);
    assert!(env.truncated());
    assert!(!env.terminated());
    assert!(env.is_terminal());
}

#[test]
fn spaces_and_name_are_fixed() {
    let mut env = GridWorld::new((9, 6), (0, 0), (8, 5), 10).unwrap();
    for _ in 0..3 {
        assert_eq!(env.name(), "GridWorld");
        assert!(matches!(env.action_space(), Space::Discrete(4)));
        match env.observation_space() {
            Space::Box { low, high } => {
                assert_eq!(numbers(&low), vec![0.0, 0.0]);
                assert_eq!(numbers(&high), vec![1.0, 1.0]);
            }
            Space::Discrete(_) => panic!("the observation space is a box"),
        }
        env.step(0);
    }
}

#[test]
fn actions_are_numbered_zero_to_three() {
    assert_eq!(GridWorldAction::try_from(0), Ok(GridWorldAction::Up));
    assert_eq!(GridWorldAction::try_from(1), Ok(GridWorldAction::Down));
    assert_eq!(GridWorldAction::try_from(2), Ok(GridWorldAction::Left));
    assert_eq!(GridWorldAction::try_from(3), Ok(GridWorldAction::Right));
    assert_eq!(GridWorldAction::try_from(4), Err(()));
    assert_eq!(GridWorldAction::try_from(usize::MAX), Err(()));
}

#[test]
fn action_index_round_trips() {
    for action in [
        GridWorldAction::Up,
        GridWorldAction::Down,
        GridWorldAction::Left,
        GridWorldAction::Right,
    ] {
        assert_eq!(GridWorldAction::try_from(action.index()), Ok(action));
    }
    assert_eq!(GridWorldAction::Right.index(), 3);
}

#[test]
fn whole_ratio_has_denominator_one() {
    assert_eq!(Ratio::whole(-7), Ratio { num: -7, den: 1 });
}

#[test]
fn first_step_right_after_reset() {
    let mut env = GridWorld::default();
    assert_eq!(numbers(&env.reset()), vec![0.0, 0.0]);
    let result = env.step(3);
    assert_eq!(observed(&result), vec![0.25, 0.0]);
    assert_eq!(number(result.reward), -0.01);
    assert!(!result.terminated);
    assert!(!result.truncated);
    assert!(!env.is_terminal());
}

#[test]
fn fifth_step_right_after_reset_stays_at_the_edge() {
    let mut env = GridWorld::default();
    env.step(0);
    env.reset();
    let mut last = env.step(3);
    assert_eq!(observed(&last), vec![0.25, 0.0]);
    for _ in 0..3 {
        last = env.step(3);
    }
    assert_eq!(observed(&last), vec![1.0, 0.0]);
    last = env.step(3);
    assert_eq!(observed(&last), vec![1.0, 0.0]);
    assert_eq!(env.agent_pos(), (4, 0));
    assert_eq!(env.steps(), 5);
}
