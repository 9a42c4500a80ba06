use orangutan_rl::memory::{pick_indices, sample_indices, Memory, Ring};

#[test]
fn ring_keeps_items_in_order_until_full() {
    let mut r = Ring::<i32, 3>::new();
    assert!(r.is_empty());
    r.push(1);
    r.push(2);
    assert_eq!(r.len(), 2);
    assert_eq!(r.get(0), Some(&1));
    assert_eq!(r.get(1), Some(&2));
    assert!(!r.is_full());
    r.push(3);
    assert!(r.is_full());
    assert_eq!(r.capacity(), 3);
}

#[test]
fn ring_drops_oldest_when_full() {
    let mut r = Ring::<i32, 3>::new();
    for x in 1..=5 {
        r.push(x);
    }
    assert_eq!(r.len(), 3);
    assert_eq!(r.get(0), Some(&3));
    assert_eq!(r.get(1), Some(&4));
    assert_eq!(r.get(2), Some(&5));
}

#[test]
fn ring_keeps_the_newest_ten_of_a_thousand() {
    let mut r = Ring::<usize, 10>::new();
    for i in 0..1000 {
        r.push(i);
    }
    let all: Vec<usize> = (0..10).collect();
    assert_eq!(r.gather(&all), (990..1000).collect::<Vec<usize>>());
}

#[test]
fn ring_get_wraps_around() {
    let mut r = Ring::<i32, 4>::new();
    r.push(7);
    r.push(8);
    assert_eq!(r.get(2), Some(&7));
    assert_eq!(r.get(3), Some(&8));
    assert_eq!(r.get(5), r.get(5 + r.len()));
}

#[test]
fn ring_get_on_empty_is_none() {
    let r = Ring::<i32, 4>::new();
    assert_eq!(r.get(0), None);
    assert_eq!(r.gather(&vec![0, 1, 2]), Vec::<i32>::new());
}

#[test]
fn ring_of_capacity_zero_holds_nothing() {
    let mut r = Ring::<i32, 0>::new();
    r.push(1);
    assert_eq!(r.len(), 0);
    assert_eq!(r.get(0), None);
}

#[test]
fn ring_clear_empties() {
    let mut r = Ring::<i32, 2>::new();
    r.push(1);
    r.clear();
    assert!(r.is_empty());
}

#[test]
fn ring_gather_follows_indices() {
    let mut r = Ring::<i32, 5>::new();
    for x in [10, 20, 30] {
        r.push(x);
    }
    assert_eq!(r.gather(&vec![2, 0, 0, 4]), vec![30, 10, 10, 20]);
}

#[test]
fn memory_push_len_clear() {
    let mut m = Memory::<4>::default();
    assert_eq!(m.len(), 0);
    m.push(0, 1, 1, 1, true);
    m.push(1, 0, 0, 0, false);
    assert_eq!(m.len(), 2);
    assert_eq!(m.state.get(1), Some(&1));
    assert_eq!(m.next_state.get(0), Some(&1));
    assert_eq!(m.action.get(1), Some(&0));
    assert_eq!(m.reward.get(0), Some(&1));
    assert_eq!(m.done.get(0), Some(&true));
    m.clear();
    assert_eq!(m.len(), 0);
    assert_eq!(m.done.len(), 0);
}

#[test]
fn memory_is_bounded_by_its_capacity() {
    let mut m = Memory::<2>::default();
    for s in 0..5isize {
        m.push(s, s + 1, 0, 0, false);
    }
    assert_eq!(m.len(), 2);
    assert_eq!(m.state.gather(&vec![0, 1]), vec![3, 4]);
}

#[test]
fn pick_indices_picks_positions() {
    assert_eq!(pick_indices(&vec![5, 6, 7], &vec![2, 2, 0]), vec![7, 7, 5]);
    assert_eq!(pick_indices(&vec![5, 6, 7], &vec![]), Vec::<usize>::new());
}

#[test]
fn sample_indices_draws_members() {
    let indices = vec![3, 9, 27];
    let s = sample_indices(indices.clone(), 50);
    assert_eq!(s.len(), 50);
    assert!(s.iter().all(|x| indices.contains(x)));
}

#[test]
fn sample_indices_of_one_repeats_it() {
    assert_eq!(sample_indices(vec![4], 3), vec![4, 4, 4]);
}

#[test]
fn sample_indices_size_zero() {
    assert_eq!(sample_indices(vec![], 0), Vec::<usize>::new());
}
