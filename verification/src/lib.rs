//! A small reinforcement-learning environment interface together with a
//! deterministic grid world that implements it.
//!
//! Every quantity that a driver would read as a real number (observations,
//! rewards, bounds of a space) is kept as an exact [`ratio::Ratio`], so that
//! the whole state machine can be reasoned about over the integers.

pub mod environment;
pub mod grid_model;
pub mod gridworld;
pub mod ratio;
pub mod spaces;
