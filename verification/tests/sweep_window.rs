use follower_sync::errors::SyncError;
use follower_sync::sweep::SweepWindow;

#[test]
fn fresh_window_is_unset() {
    let w = SweepWindow::new(String::from("owner"));
    assert_eq!(w.curr_start, None);
    assert_eq!(w.last_start, None);
    assert_eq!(w.last_end, None);
    assert_eq!(w.initial_completion, None);
    assert_eq!(w.owner_id, "owner");
}

#[test]
fn open_then_close_rolls_the_window() {
    let mut w = SweepWindow::new(String::from("owner"));
    assert!(w.open_sweep(100).is_ok());
    assert_eq!(w.curr_start, Some(100));
    w.close_sweep(130);
    assert_eq!(w.curr_start, None);
    assert_eq!(w.last_start, Some(100));
    assert_eq!(w.last_end, Some(130));
    assert_eq!(w.initial_completion, Some(130));
}

#[test]
fn double_open_is_refused_and_changes_nothing() {
    let mut w = SweepWindow::new(String::from("owner"));
    assert!(w.open_sweep(100).is_ok());
    let second = w.open_sweep(105);
    assert_eq!(second, Err(SyncError::SweepAlreadyOpen));
    assert_eq!(w.curr_start, Some(100));
}

#[test]
fn window_monotonic_across_sweeps() {
    let mut w = SweepWindow::new(String::from("owner"));
    assert!(w.open_sweep(100).is_ok());
    w.close_sweep(130);
    let first_end = w.last_end.unwrap();
    assert!(w.open_sweep(200).is_ok());
    w.close_sweep(260);
    // last_start of the second sweep is at or after last_end of the first
    assert!(w.last_start.unwrap() >= first_end);
    assert_eq!(w.last_start, Some(200));
    assert_eq!(w.last_end, Some(260));
}

#[test]
fn initial_completion_is_set_exactly_once() {
    let mut w = SweepWindow::new(String::from("owner"));
    assert!(w.open_sweep(100).is_ok());
    w.close_sweep(130);
    assert_eq!(w.initial_completion, Some(130));
    assert!(w.open_sweep(200).is_ok());
    w.close_sweep(260);
    assert_eq!(w.initial_completion, Some(130));
    assert!(w.open_sweep(300).is_ok());
    w.close_sweep(333);
    assert_eq!(w.initial_completion, Some(130));
}
