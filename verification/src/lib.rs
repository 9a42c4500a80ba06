//! Small reinforcement-learning environments, experience stores and the
//! bookkeeping around policy-gradient and PPO training loops.
pub mod buffer;
pub mod env;
pub mod memory;
pub mod run;
pub mod schedule;
pub mod util;
