use orangutan_rl::env::grid::OneDimGridEnv;
use orangutan_rl::env::line::Env;
use orangutan_rl::env::toy::ToyEnv;

#[test]
fn toy_new_starts_at_origin() {
    let env = ToyEnv::new();
    assert_eq!(env.state(), 0);
    assert_eq!(env.pos, 0);
}

#[test]
fn toy_step_right_from_start_wins() {
    let mut env = ToyEnv::new();
    assert_eq!(env.step(1), (1, 1, true));
    assert_eq!(env.state(), 1);
}

#[test]
fn toy_step_left_from_start_loses() {
    let mut env = ToyEnv::new();
    assert_eq!(env.step(0), (-1, -1, true));
}

#[test]
fn toy_step_away_from_the_ends_pays_nothing() {
    let mut env = ToyEnv { pos: 5 };
    assert_eq!(env.step(1), (6, 0, false));
    assert_eq!(env.step(0), (5, 0, false));
    let mut env = ToyEnv { pos: 2 };
    assert_eq!(env.step(0), (1, 1, true));
    let mut env = ToyEnv { pos: -2 };
    assert_eq!(env.step(1), (-1, -1, true));
}

#[test]
fn toy_reset_returns_to_origin() {
    let mut env = ToyEnv { pos: 7 };
    assert_eq!(env.reset(), 0);
    assert_eq!(env.state(), 0);
}

#[test]
fn toy_reward_is_nonzero_exactly_when_done() {
    for start in -3isize..=3 {
        for action in 0usize..2 {
            let mut env = ToyEnv { pos: start };
            let (_, reward, done) = env.step(action);
            assert_eq!(reward != 0, done);
        }
    }
}

#[test]
fn line_env_pays_at_three() {
    let mut env = Env::new();
    assert_eq!(env.reset(), 0);
    assert_eq!(env.step(1), (1, 0));
    assert_eq!(env.step(1), (2, 0));
    assert_eq!(env.step(1), (3, 1));
    assert_eq!(env.step(-2), (1, 0));
    assert_eq!(env.step(2), (3, 1));
    assert_eq!(env.pos, 3);
}

#[test]
fn line_env_reset() {
    let mut env = Env { pos: -4 };
    assert_eq!(env.reset(), 0);
    assert_eq!(env.pos, 0);
}

#[test]
fn grid_dims() {
    let env = OneDimGridEnv::new();
    assert_eq!(env.obs_dim(), 1);
    assert_eq!(env.n_acts(), 2);
}

#[test]
fn grid_three_rights_reach_goal() {
    let mut env = OneDimGridEnv::new();
    assert_eq!(env.reset(), 0);
    assert_eq!(env.step(1), (1, -1, false));
    assert_eq!(env.step(1), (2, -1, false));
    assert_eq!(env.step(1), (3, 10, true));
}

#[test]
fn grid_episode_ends_after_five_steps() {
    let mut env = OneDimGridEnv::new();
    assert_eq!(env.step(0), (0, -1, false));
    assert_eq!(env.step(1), (1, -1, false));
    assert_eq!(env.step(0), (1, -1, false));
    assert_eq!(env.step(0), (1, -1, false));
    assert_eq!(env.step(1), (2, -1, true));
    // Stepping on after the limit keeps reporting done.
    assert_eq!(env.step(1), (3, 10, true));
    assert_eq!(env.step(1), (4, -1, true));
}

#[test]
fn grid_reset_restarts_the_episode() {
    let mut env = OneDimGridEnv::new();
    for _ in 0..5 {
        env.step(1);
    }
    assert_eq!(env.reset(), 0);
    assert_eq!(env.step(1), (1, -1, false));
}
