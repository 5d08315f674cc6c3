use motor_pid::window::RevolutionWindow;

#[test]
fn fresh_window_is_all_zero() {
    let window = RevolutionWindow::new(10);
    assert_eq!(window.len(), 10);
    assert_eq!(window.sum(), 0);
    assert_eq!(window.current_bin(), 0);
}

#[test]
fn increments_accumulate_in_the_newest_bin() {
    let mut window = RevolutionWindow::new(4);
    window.increment_current();
    window.increment_current();
    assert_eq!(window.current_bin(), 2);
    assert_eq!(window.sum(), 2);
    window.rotate();
    assert_eq!(window.current_bin(), 0);
    assert_eq!(window.sum(), 2);
}

#[test]
fn full_round_of_rotations_decays_to_zero() {
    let bins: usize = 5;
    let mut window = RevolutionWindow::new(bins);
    for _ in 0..bins {
        window.increment_current();
        window.rotate();
    }
    // the last rotation already dropped the first count
    assert_eq!(window.sum(), bins as u64 - 1);
    for _ in 0..bins {
        window.rotate();
    }
    assert_eq!(window.sum(), 0);
    assert_eq!(window.current_bin(), 0);
}

#[test]
fn oldest_bin_leaves_first() {
    let mut window = RevolutionWindow::new(3);
    window.increment_current();
    window.rotate();
    window.rotate();
    window.rotate();
    // the bin holding the one count has just left
    assert_eq!(window.sum(), 0);
}
