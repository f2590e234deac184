use gputop::window::RollingWindow;

fn contents(window: &RollingWindow<u32>) -> Vec<u32> {
    window.iterate().into_iter().copied().collect()
}

#[test]
fn window_starts_empty() {
    let window: RollingWindow<u32> = RollingWindow::new(4);
    assert_eq!(window.len(), 0);
    assert!(window.is_empty());
    assert_eq!(window.capacity(), 4);
    assert_eq!(contents(&window), Vec::<u32>::new());
}

#[test]
fn window_keeps_arrival_order_below_capacity() {
    let mut window = RollingWindow::new(4);
    window.append(10u32);
    window.append(20);
    window.append(30);
    assert_eq!(contents(&window), vec![10, 20, 30]);
    assert_eq!(*window.get(0), 10);
    assert_eq!(*window.get(2), 30);
}

#[test]
fn window_evicts_oldest_beyond_capacity() {
    let capacity = 5usize;
    let extra = 3u32;
    let mut window = RollingWindow::new(capacity);
    for value in 0..(capacity as u32 + extra) {
        window.append(value);
        assert!(window.len() <= capacity);
    }
    // The oldest `extra` items are gone, the newest `capacity` remain in order.
    assert_eq!(contents(&window), vec![3, 4, 5, 6, 7]);
}

#[test]
fn window_never_exceeds_capacity_over_long_run() {
    let mut window = RollingWindow::new(16);
    for value in 0..1000u32 {
        window.append(value);
        assert!(window.len() <= 16);
    }
    assert_eq!(contents(&window), (984..1000).collect::<Vec<u32>>());
}

#[test]
fn window_of_capacity_zero_holds_nothing() {
    let mut window = RollingWindow::new(0);
    window.append(1u32);
    window.append(2);
    assert_eq!(window.len(), 0);
}

#[test]
fn window_of_capacity_one_holds_newest() {
    let mut window = RollingWindow::new(1);
    window.append(1u32);
    window.append(2);
    assert_eq!(contents(&window), vec![2]);
}

#[test]
fn window_iteration_restarts() {
    let mut window = RollingWindow::new(3);
    window.append(7u32);
    window.append(8);
    assert_eq!(contents(&window), vec![7, 8]);
    assert_eq!(contents(&window), vec![7, 8]);
}
