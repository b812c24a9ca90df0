use follower_sync::engine::{run_sweep_over, SweepAttempt, SweepPhase, SweepRun};
use follower_sync::errors::SyncError;
use follower_sync::page::{page_from_remote, Observation, Page, MAX_PAGE_RESULTS};
use follower_sync::scheduler::SchedulerState;
use follower_sync::store::RecordStore;
use follower_sync::sweep::SweepWindow;

fn obs(id: &str, username: &str, display_name: &str) -> Observation {
    Observation {
        id: String::from(id),
        username: String::from(username),
        display_name: String::from(display_name),
    }
}

fn page(entities: Vec<Observation>, next_token: Option<&str>) -> Page {
    let count = entities.len() as u64;
    page_from_remote(entities, next_token.map(String::from), count)
}

#[test]
fn full_sweep_over_two_pages() {
    // Page one carries a continuation cursor, page two ends the listing.
    let mut store = RecordStore::new();
    let mut window = SweepWindow::new(String::from("owner"));
    let feed = vec![
        Ok(page(vec![obs("1", "a", "A")], Some("X"))),
        Ok(page(vec![obs("2", "b", "B")], None)),
    ];
    let run = run_sweep_over(&mut store, &mut window, &feed, 100);
    assert_eq!(
        run,
        SweepRun::Completed { fetched: 2, inserted: 2, updated: 0 }
    );
    assert!(store.contains(&String::from("1")));
    assert!(store.contains(&String::from("2")));
    assert_eq!(window.curr_start, None);
    assert_eq!(window.last_start, Some(100));
    assert_eq!(window.last_end, Some(100));
}

#[test]
fn stepwise_sweep_stamps_start_and_end_times() {
    let mut store = RecordStore::new();
    let mut window = SweepWindow::new(String::from("owner"));
    let mut attempt = SweepAttempt::new();

    // The attempt opens at 100; the first request carries no cursor.
    let first = attempt.begin(&mut window, 100).unwrap();
    assert_eq!(first.cursor, None);
    assert_eq!(first.max_results, MAX_PAGE_RESULTS);
    assert_eq!(window.curr_start, Some(100));

    // Page one arrives at 110 and asks for more.
    let p1 = page(vec![obs("1", "a", "A")], Some("X"));
    let next = attempt.on_page(&mut store, &mut window, &p1, 110);
    let req = next.expect("a further page was announced");
    assert_eq!(req.cursor, Some(String::from("X")));
    assert_eq!(attempt.phase, SweepPhase::Paginating);

    // Page two arrives at 130 and ends the listing: the window closes.
    let p2 = page(vec![obs("2", "b", "B")], None);
    let done = attempt.on_page(&mut store, &mut window, &p2, 130);
    assert!(done.is_none());
    assert_eq!(attempt.phase, SweepPhase::Closed);
    assert_eq!(attempt.fetched, 2);
    assert_eq!(attempt.inserted, 2);
    assert_eq!(attempt.updated, 0);
    assert_eq!(window.curr_start, None);
    assert_eq!(window.last_start, Some(100));
    assert_eq!(window.last_end, Some(130));
    assert!(store.contains(&String::from("1")));
    assert!(store.contains(&String::from("2")));
}

#[test]
fn second_sweep_over_unchanged_listing_updates_only() {
    let mut store = RecordStore::new();
    let mut window = SweepWindow::new(String::from("owner"));
    let listing = || vec![
        Ok(page(vec![obs("1", "a", "A"), obs("2", "b", "B")], None)),
    ];
    let first = run_sweep_over(&mut store, &mut window, &listing(), 100);
    assert_eq!(
        first,
        SweepRun::Completed { fetched: 2, inserted: 2, updated: 0 }
    );
    // Run again immediately: nothing on the remote changed.
    let second = run_sweep_over(&mut store, &mut window, &listing(), 100);
    assert_eq!(
        second,
        SweepRun::Completed { fetched: 2, inserted: 0, updated: 2 }
    );
    assert_eq!(store.len(), 2);
}

#[test]
fn aborted_sweep_leaves_window_open() {
    let mut store = RecordStore::new();
    let mut window = SweepWindow::new(String::from("owner"));
    // Establish a completed sweep first.
    let ok_feed = vec![Ok(page(vec![obs("1", "a", "A")], None))];
    run_sweep_over(&mut store, &mut window, &ok_feed, 100);
    let last_start_before = window.last_start;
    let last_end_before = window.last_end;

    // The next attempt fails after its first page.
    let failing_feed = vec![
        Ok(page(vec![obs("1", "a", "A")], Some("X"))),
        Err(SyncError::RateLimited),
    ];
    let run = run_sweep_over(&mut store, &mut window, &failing_feed, 200);
    assert_eq!(
        run,
        SweepRun::Aborted { error: SyncError::RateLimited, cursor: Some(String::from("X")) }
    );
    assert_eq!(window.curr_start, Some(200));
    assert_eq!(window.last_start, last_start_before);
    assert_eq!(window.last_end, last_end_before);
}

#[test]
fn fresh_sweep_runs_after_a_retryable_abort() {
    let mut store = RecordStore::new();
    let mut window = SweepWindow::new(String::from("owner"));
    let mut sched = SchedulerState::new();

    // The first attempt aborts mid-pagination and leaves the window open.
    let failing_feed = vec![
        Ok(page(vec![obs("1", "a", "A")], Some("X"))),
        Err(SyncError::RateLimited),
    ];
    let run = run_sweep_over(&mut store, &mut window, &failing_feed, 100);
    assert!(matches!(run, SweepRun::Aborted { .. }));
    assert_eq!(window.curr_start, Some(100));

    // Recording the outcome releases the window, so the next tick can run a
    // fresh sweep from page one — which then completes.
    sched.record_outcome(&run, &mut window);
    assert_eq!(window.curr_start, None);
    assert!(!sched.halted);
    let retry_feed = vec![
        Ok(page(vec![obs("1", "a", "A"), obs("2", "b", "B")], None)),
    ];
    let retry = run_sweep_over(&mut store, &mut window, &retry_feed, 160);
    assert_eq!(
        retry,
        SweepRun::Completed { fetched: 2, inserted: 1, updated: 1 }
    );
    assert_eq!(window.curr_start, None);
    assert_eq!(window.last_start, Some(160));
    assert_eq!(window.last_end, Some(160));
}

#[test]
fn failure_on_first_fetch_reports_no_cursor() {
    let mut store = RecordStore::new();
    let mut window = SweepWindow::new(String::from("owner"));
    let feed = vec![Err(SyncError::NetworkUnreachable)];
    let run = run_sweep_over(&mut store, &mut window, &feed, 50);
    assert_eq!(
        run,
        SweepRun::Aborted { error: SyncError::NetworkUnreachable, cursor: None }
    );
    assert_eq!(window.curr_start, Some(50));
    assert_eq!(store.len(), 0);
}

#[test]
fn statistics_saturate_instead_of_overflowing() {
    let mut store = RecordStore::new();
    let mut window = SweepWindow::new(String::from("owner"));
    assert!(window.open_sweep(10).is_ok());
    let mut attempt = SweepAttempt {
        phase: SweepPhase::Paginating,
        cursor: None,
        fetched: u64::MAX - 1,
        inserted: u64::MAX - 1,
        updated: 0,
    };
    let p = page(vec![obs("1", "a", "A"), obs("2", "b", "B"), obs("3", "c", "C")], None);
    let done = attempt.on_page(&mut store, &mut window, &p, 10);
    assert!(done.is_none());
    assert_eq!(attempt.fetched, u64::MAX);
    assert_eq!(attempt.inserted, u64::MAX);
    assert_eq!(attempt.updated, 0);
}
