use orangutan_rl::schedule::{step_outcome, ControlDivider, Rollout};

#[test]
fn outcome_mid_episode_continues() {
    let o = step_outcome(3, 25, 10, 50, false);
    assert!(!o.finish_path && !o.terminal && !o.timeout && !o.epoch_ended && !o.cut_off);
}

#[test]
fn outcome_done_closes_without_bootstrap() {
    let o = step_outcome(3, 25, 10, 50, true);
    assert!(o.finish_path && o.terminal && !o.bootstrap && !o.cut_off);
}

#[test]
fn outcome_timeout_closes_with_bootstrap() {
    let o = step_outcome(25, 25, 10, 50, false);
    assert!(o.finish_path && o.terminal && o.timeout && o.bootstrap && !o.cut_off);
}

#[test]
fn outcome_epoch_end_cuts_off() {
    let o = step_outcome(7, 25, 49, 50, false);
    assert!(o.finish_path && o.epoch_ended && o.bootstrap && o.cut_off && !o.terminal);
    let o = step_outcome(7, 25, 49, 50, true);
    assert!(o.finish_path && o.terminal && o.bootstrap && !o.cut_off);
}

#[test]
fn rollout_closes_paths_at_the_step_limit_and_epoch_end() {
    let mut r = Rollout::new(3, 7);
    let mut closed = vec![];
    for _ in 0..7 {
        closed.push(r.advance(false).finish_path);
    }
    assert_eq!(closed, vec![false, false, true, false, false, true, true]);
    assert_eq!(r.t(), 0);
    assert_eq!(r.ep_len(), 0);
}

#[test]
fn rollout_done_restarts_the_episode() {
    let mut r = Rollout::new(5, 10);
    r.advance(false);
    assert_eq!(r.ep_len(), 1);
    let o = r.advance(true);
    assert!(o.terminal && o.finish_path && !o.bootstrap);
    assert_eq!(r.ep_len(), 0);
    assert_eq!(r.t(), 2);
}

#[test]
fn divider_acts_every_sixth_call() {
    let mut d = ControlDivider::new(6);
    let acts: Vec<bool> = (0..13).map(|_| d.tick()).collect();
    let expected: Vec<bool> = (0..13).map(|n| n % 6 == 0).collect();
    assert_eq!(acts, expected);
}

#[test]
fn divider_of_one_acts_always() {
    let mut d = ControlDivider::new(1);
    assert!(d.tick() && d.tick() && d.tick());
}
