use follower_sync::engine::SweepRun;
use follower_sync::errors::{classify, ErrorClass, SyncError};
use follower_sync::page::{page_from_remote, request_for, UserAttribute};
use follower_sync::scheduler::{check_owner, CancelFlag, OwnerBinding, SchedulerState, TickDecision};
use follower_sync::sweep::SweepWindow;

#[test]
fn classification_covers_the_taxonomy() {
    assert_eq!(classify(&SyncError::AuthFailed { status: 401 }), ErrorClass::Fatal);
    assert_eq!(classify(&SyncError::OwnerMismatch), ErrorClass::Fatal);
    assert_eq!(classify(&SyncError::RateLimited), ErrorClass::Retryable);
    assert_eq!(classify(&SyncError::NetworkUnreachable), ErrorClass::Retryable);
    assert_eq!(classify(&SyncError::StoreFailure), ErrorClass::Unknown);
    assert_eq!(classify(&SyncError::SweepAlreadyOpen), ErrorClass::Unknown);
    assert_eq!(classify(&SyncError::RemoteProtocol { status: 500 }), ErrorClass::Unknown);
}

#[test]
fn owner_check_initializes_matches_and_refuses() {
    assert_eq!(check_owner(&None, &String::from("me")), Ok(OwnerBinding::Initialized));
    assert_eq!(
        check_owner(&Some(String::from("me")), &String::from("me")),
        Ok(OwnerBinding::Verified)
    );
    assert_eq!(
        check_owner(&Some(String::from("someone_else")), &String::from("me")),
        Err(SyncError::OwnerMismatch)
    );
}

#[test]
fn owner_mismatch_halts_before_any_sweep() {
    let stored = Some(String::from("someone_else"));
    let me = String::from("me");
    let refusal = check_owner(&stored, &me).unwrap_err();
    assert_eq!(classify(&refusal), ErrorClass::Fatal);
    // Fed into the scheduler, the refusal halts the loop for good: no tick
    // ever starts a sweep.
    let mut sched = SchedulerState::new();
    let mut window = SweepWindow::new(String::from("someone_else"));
    let class = sched.record_outcome(&SweepRun::Aborted { error: refusal, cursor: None }, &mut window);
    assert_eq!(class, Some(ErrorClass::Fatal));
    assert!(sched.halted);
    assert_eq!(sched.on_tick(false), TickDecision::Halt);
}

#[test]
fn cancellation_takes_priority_and_fires_once() {
    let mut flag = CancelFlag::new();
    assert!(!flag.is_cancelled());
    assert!(flag.trigger());
    assert!(!flag.trigger());
    assert!(flag.is_cancelled());

    let sched = SchedulerState::new();
    assert_eq!(sched.on_tick(flag.is_cancelled()), TickDecision::Halt);
}

#[test]
fn scheduler_runs_with_no_cursor_after_any_outcome() {
    let mut sched = SchedulerState::new();
    let mut window = SweepWindow::new(String::from("owner"));
    assert_eq!(sched.on_tick(false), TickDecision::Run { cursor: None });

    // A completed attempt carries no cursor into the next tick.
    let class = sched.record_outcome(
        &SweepRun::Completed { fetched: 2, inserted: 2, updated: 0 },
        &mut window,
    );
    assert_eq!(class, None);
    assert!(!sched.halted);
    assert_eq!(sched.on_tick(false), TickDecision::Run { cursor: None });

    // A retryable abort discards the in-flight cursor and releases the
    // window the abort left open: the next sweep restarts from page one.
    assert!(window.open_sweep(100).is_ok());
    let class = sched.record_outcome(
        &SweepRun::Aborted { error: SyncError::RateLimited, cursor: Some(String::from("X")) },
        &mut window,
    );
    assert_eq!(class, Some(ErrorClass::Retryable));
    assert!(!sched.halted);
    assert_eq!(window.curr_start, None);
    assert_eq!(sched.on_tick(false), TickDecision::Run { cursor: None });

    // An unknown failure behaves like a retryable one.
    assert!(window.open_sweep(200).is_ok());
    let class = sched.record_outcome(
        &SweepRun::Aborted {
            error: SyncError::RemoteProtocol { status: 500 },
            cursor: Some(String::from("Y")),
        },
        &mut window,
    );
    assert_eq!(class, Some(ErrorClass::Unknown));
    assert!(!sched.halted);
    assert_eq!(window.curr_start, None);
    assert_eq!(sched.on_tick(false), TickDecision::Run { cursor: None });
}

#[test]
fn requests_omit_absent_cursors_and_never_carry_empty_ones() {
    let first = request_for(None);
    assert_eq!(first.cursor, None);
    assert_eq!(first.max_results, 1000);
    assert_eq!(
        first.attributes,
        vec![
            UserAttribute::Id,
            UserAttribute::Username,
            UserAttribute::Name,
            UserAttribute::Verified,
            UserAttribute::CreatedAt,
        ]
    );
    let follow_up = request_for(Some(String::from("X")));
    assert_eq!(follow_up.cursor, Some(String::from("X")));
}

#[test]
fn remote_tokens_translate_to_cursors() {
    let ends = page_from_remote(Vec::new(), None, 0);
    assert_eq!(ends.next_cursor, None);
    // An empty token counts as absence, so no later fetch can be built
    // around an empty cursor.
    let empty = page_from_remote(Vec::new(), Some(String::new()), 0);
    assert_eq!(empty.next_cursor, None);
    let more = page_from_remote(Vec::new(), Some(String::from("X")), 0);
    assert_eq!(more.next_cursor, Some(String::from("X")));
}
