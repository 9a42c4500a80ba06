use orangutan_rl::buffer::VPGBuffer;

fn filled_buffer() -> VPGBuffer<f32, i32> {
    let mut b = VPGBuffer::new(2, 3, 3, 0.99f32, 0.97f32, 0.0f32, 0i32);
    b.store(vec![0.0, 1.0], 1, 1.0, 0.5, -0.1);
    b.store(vec![1.0, 1.0], 2, 2.0, 0.6, -0.2);
    b
}

#[test]
fn new_buffer_is_empty() {
    let b = VPGBuffer::new(2, 3, 4, 0.99f32, 0.97f32, 0.0f32, 0i32);
    assert_eq!(b.ptr(), 0);
    assert_eq!(b.path_start(), 0);
    assert_eq!(b.max_size(), 4);
    assert_eq!(b.gamma(), 0.99);
    assert_eq!(b.lam(), 0.97);
    assert_eq!(b.actions(), &vec![0, 0, 0, 0]);
    assert_eq!(b.advantages(), &vec![0.0; 4]);
    assert_eq!(b.returns_to_go(), &vec![0.0; 4]);
    assert_eq!(b.observations(), &vec![Vec::<f32>::new(); 4]);
}

#[test]
fn store_fills_slots_in_order() {
    let b = filled_buffer();
    assert_eq!(b.ptr(), 2);
    assert_eq!(b.actions(), &vec![1, 2, 0]);
    assert_eq!(b.observations()[1], vec![1.0, 1.0]);
    assert_eq!(b.path_rewards(), vec![1.0, 2.0]);
    assert_eq!(b.path_values(), vec![0.5, 0.6]);
}

#[test]
fn finish_path_writes_the_path_and_starts_a_new_one() {
    let mut b = filled_buffer();
    b.finish_path(vec![0.3, 0.4], vec![2.9, 2.0]);
    assert_eq!(b.path_start(), 2);
    assert_eq!(b.advantages(), &vec![0.3, 0.4, 0.0]);
    assert_eq!(b.returns_to_go(), &vec![2.9, 2.0, 0.0]);
    assert_eq!(b.path_rewards(), Vec::<f32>::new());
    b.store(vec![2.0, 0.0], 0, 3.0, 0.7, -0.3);
    assert_eq!(b.path_rewards(), vec![3.0]);
    b.finish_path(vec![-1.0], vec![3.0]);
    assert_eq!(b.advantages(), &vec![0.3, 0.4, -1.0]);
    assert_eq!(b.returns_to_go(), &vec![2.9, 2.0, 3.0]);
}

#[test]
fn get_restarts_and_replaces_advantages() {
    let mut b = filled_buffer();
    b.store(vec![2.0, 0.0], 0, 3.0, 0.7, -0.3);
    b.finish_path(vec![1.0, 2.0, 3.0], vec![6.0, 5.0, 3.0]);
    b.get(vec![-1.0, 0.0, 1.0]);
    assert_eq!(b.ptr(), 0);
    assert_eq!(b.path_start(), 0);
    assert_eq!(b.advantages(), &vec![-1.0, 0.0, 1.0]);
    assert_eq!(b.returns_to_go(), &vec![6.0, 5.0, 3.0]);
    b.store(vec![9.0, 9.0], 2, 4.0, 0.0, 0.0);
    assert_eq!(b.path_rewards(), vec![4.0]);
    assert_eq!(b.actions(), &vec![2, 2, 0]);
}

#[test]
fn continuous_actions_and_log_probs_are_kept() {
    let mut b: VPGBuffer<f32, f32> = VPGBuffer::new(2, 1, 2, 0.99, 0.97, 0.0, 0.0);
    b.store(vec![3.1, 0.0], -1.5, -0.2, 0.1, -0.9);
    assert_eq!(b.actions(), &vec![-1.5, 0.0]);
    assert_eq!(b.log_probs(), &vec![-0.9, 0.0]);
}
