use hyper::accept::ACCEPT_ERROR_SLEEP_MS;
use hyper::date::HTTP_DATE_END_SECS;
use hyper::server::{admit_connection, worker_ids, DEFAULT_SHUTDOWN_TIMEOUT_MS, LISTEN_BACKLOG};
use hyper::{
    connection_error, AcceptAction, AcceptEnd, AcceptErrorKind, AcceptLoop, AcceptOutcome,
    DateCache, Http, LiveCount, RunPhase, ServerRun, SocketAddrService,
};

/// Runs one poll of an accept loop against a scripted listener, performing
/// each action as a driver would: timers fire at once, and each armed one
/// counts as a pause.
fn poll_once(
    lp: &mut AcceptLoop,
    script: &mut Vec<AcceptOutcome>,
    pauses: &mut u64,
) -> AcceptAction {
    if !lp.begin_poll(true) {
        return AcceptAction::Pending;
    }
    loop {
        let outcome = if script.is_empty() {
            AcceptOutcome::Failed(AcceptErrorKind::WouldBlock)
        } else {
            script.remove(0)
        };
        match lp.on_accept(outcome) {
            AcceptAction::Retry => continue,
            AcceptAction::Backoff => {
                *pauses += 1;
                assert!(lp.backoff_pending());
                assert!(lp.begin_poll(true));
                continue;
            }
            other => return other,
        }
    }
}

#[test]
fn http_defaults() {
    let h = Http::new();
    assert!(h.is_keep_alive());
    assert!(!h.is_pipeline());
    assert_eq!(h.read_buf_limit(), None);
    assert!(!h.is_sleep_on_errors());
    assert_eq!(h.tcp_keepalive_secs(), Some(90));
}

#[test]
fn http_builders_chain() {
    let mut h = Http::new();
    h.keep_alive(false).pipeline(true).max_buf_size(8192).sleep_on_errors(true);
    assert!(!h.is_keep_alive());
    assert!(h.is_pipeline());
    assert_eq!(h.read_buf_limit(), Some(8192));
    assert!(h.is_sleep_on_errors());
    assert_eq!(h.tcp_keepalive_secs(), None);
    let copy = h.clone();
    assert_eq!(copy, h);
}

#[test]
fn per_connection_errors_are_exactly_three() {
    assert!(connection_error(AcceptErrorKind::ConnectionRefused));
    assert!(connection_error(AcceptErrorKind::ConnectionAborted));
    assert!(connection_error(AcceptErrorKind::ConnectionReset));
    assert!(!connection_error(AcceptErrorKind::Other));
    assert!(!connection_error(AcceptErrorKind::WouldBlock));
}

#[test]
fn accept_yields_and_would_block_is_pending() {
    let mut lp = AcceptLoop::new(false);
    assert_eq!(lp.on_accept(AcceptOutcome::Accepted), AcceptAction::Yield);
    assert_eq!(
        lp.on_accept(AcceptOutcome::Failed(AcceptErrorKind::WouldBlock)),
        AcceptAction::Pending
    );
    assert!(!lp.backoff_pending());
}

#[test]
fn fatal_error_without_sleep() {
    for kind in [
        AcceptErrorKind::ConnectionRefused,
        AcceptErrorKind::ConnectionAborted,
        AcceptErrorKind::ConnectionReset,
        AcceptErrorKind::Other,
    ] {
        let mut lp = AcceptLoop::new(false);
        assert_eq!(lp.on_accept(AcceptOutcome::Failed(kind)), AcceptAction::Surface);
        assert!(!lp.backoff_pending());
    }
}

#[test]
fn backoff_after_resource_errors() {
    let mut lp = AcceptLoop::new(true);
    let mut script = vec![AcceptOutcome::Failed(AcceptErrorKind::Other); 3];
    script.push(AcceptOutcome::Accepted);
    let mut pauses: u64 = 0;
    assert_eq!(poll_once(&mut lp, &mut script, &mut pauses), AcceptAction::Yield);
    assert_eq!(pauses, 3);
    assert!(pauses * ACCEPT_ERROR_SLEEP_MS >= 20);
    assert_eq!(poll_once(&mut lp, &mut script, &mut pauses), AcceptAction::Pending);
    assert_eq!(pauses, 3);
}

#[test]
fn per_connection_errors_pass_through() {
    let mut lp = AcceptLoop::new(true);
    let mut script = vec![AcceptOutcome::Failed(AcceptErrorKind::ConnectionReset); 1000];
    script.push(AcceptOutcome::Accepted);
    let mut pauses: u64 = 0;
    assert_eq!(poll_once(&mut lp, &mut script, &mut pauses), AcceptAction::Yield);
    assert_eq!(pauses, 0);
    assert!(!lp.backoff_pending());
}

#[test]
fn pending_timer_keeps_loop_paused() {
    let mut lp = AcceptLoop::new(true);
    assert_eq!(
        lp.on_accept(AcceptOutcome::Failed(AcceptErrorKind::Other)),
        AcceptAction::Backoff
    );
    assert!(!lp.begin_poll(false));
    assert!(lp.backoff_pending());
    assert!(lp.begin_poll(true));
    assert!(!lp.backoff_pending());
}

#[test]
fn keepalive_on_accept_loop() {
    let mut lp = AcceptLoop::new(false);
    assert_eq!(lp.keepalive_secs(), None);
    lp.set_keepalive(Http::new().tcp_keepalive_secs());
    assert_eq!(lp.keepalive_secs(), Some(90));
}

#[test]
fn live_count_tracks_accepts_and_completions() {
    let mut live: LiveCount<u32> = LiveCount::new();
    for _ in 0..5 {
        live.register();
    }
    assert_eq!(live.release(), None);
    assert_eq!(live.release(), None);
    assert_eq!(live.active(), 3);
}

#[test]
fn waiter_woken_once_at_zero() {
    let mut live: LiveCount<u32> = LiveCount::new();
    live.register();
    live.register();
    assert!(!live.poll_drained(7));
    assert!(live.has_waiter());
    assert_eq!(live.release(), None);
    assert_eq!(live.release(), Some(7));
    assert!(!live.has_waiter());
    assert_eq!(live.active(), 0);
    assert!(live.poll_drained(8));
    assert!(!live.has_waiter());
    live.register();
    assert_eq!(live.release(), None);
}

#[test]
fn later_waiter_replaces_earlier() {
    let mut live: LiveCount<&str> = LiveCount::new();
    live.register();
    assert!(!live.poll_drained("first"));
    assert!(!live.poll_drained("second"));
    assert_eq!(live.release(), Some("second"));
}

#[test]
fn date_renders_imf_fixdate() {
    let d = DateCache::new(784111777);
    assert_eq!(d.rendered().as_str(), "Sun, 06 Nov 1994 08:49:37 GMT");
    assert_eq!(d.cached(), None);
}

#[test]
fn date_same_within_second_changes_across() {
    let mut d = DateCache::new(0);
    d.update_interval(1_500_000_000);
    let first = d.cached().unwrap().clone();
    assert_eq!(first, "Fri, 14 Jul 2017 02:40:00 GMT");
    d.update_interval(1_500_000_000);
    assert_eq!(d.cached().unwrap(), &first);
    d.update_interval(1_500_000_001);
    assert_eq!(d.cached().unwrap().as_str(), "Fri, 14 Jul 2017 02:40:01 GMT");
    d.interval_off();
    assert_eq!(d.cached(), None);
    d.refresh(HTTP_DATE_END_SECS - 1);
    assert_eq!(d.rendered().as_str(), "Fri, 31 Dec 9999 23:59:59 GMT");
}

#[test]
fn shutdown_drains_until_zero() {
    let mut run = ServerRun::new();
    assert_eq!(run.phase(), RunPhase::Accepting);
    assert!(run.end_accepting(AcceptEnd::Signal));
    assert_eq!(run.phase(), RunPhase::Draining);
    assert!(!run.poll_drain(2, false));
    assert!(!run.poll_drain(1, false));
    assert!(run.poll_drain(0, false));
    assert_eq!(run.phase(), RunPhase::Done);
}

#[test]
fn shutdown_timeout_forces_return() {
    let mut run = ServerRun::new();
    assert!(run.end_accepting(AcceptEnd::Signal));
    assert!(!run.poll_drain(2, false));
    assert!(run.poll_drain(2, true));
    assert_eq!(run.phase(), RunPhase::Done);
    assert_eq!(DEFAULT_SHUTDOWN_TIMEOUT_MS, 1000);
    assert_eq!(LISTEN_BACKLOG, 1024);
}

#[test]
fn factory_failure_ends_accepting() {
    let mut live: LiveCount<()> = LiveCount::new();
    let mut run = ServerRun::new();
    let mut served = 0;
    for n in 1..=3 {
        let made: Result<u32, &str> = if n == 3 { Err("factory failed") } else { Ok(n) };
        match admit_connection(&mut live, made) {
            Ok(_) => served += 1,
            Err(e) => {
                assert_eq!(e, "factory failed");
                assert!(!run.end_accepting(AcceptEnd::Failed));
                break;
            }
        }
    }
    assert_eq!(served, 2);
    assert_eq!(live.active(), 2);
    assert_eq!(run.phase(), RunPhase::Done);
}

#[test]
fn workers_besides_current() {
    assert_eq!(worker_ids(4), vec![1, 2, 3]);
    assert_eq!(worker_ids(1), Vec::<usize>::new());
}

#[test]
fn serve_incoming_keeps_parts() {
    let mut h = Http::new();
    h.pipeline(true);
    let mut s = h.serve_incoming(vec![1u8, 2, 3], "factory");
    assert_eq!(s.incoming_ref(), &vec![1u8, 2, 3]);
    assert_eq!(*s.new_service_ref(), "factory");
    assert_eq!(s.protocol(), h);
    s.incoming_mut().push(4);
    assert_eq!(s.incoming_ref().len(), 4);
}

#[test]
fn address_stamped_on_request() {
    let svc = SocketAddrService::new(([127u8, 0, 0, 1], 8080u16), "echo");
    let mut slot: Option<([u8; 4], u16)> = Some(([10, 0, 0, 9], 1));
    svc.stamp(&mut slot);
    assert_eq!(slot, Some(([127, 0, 0, 1], 8080)));
    assert_eq!(svc.addr(), ([127, 0, 0, 1], 8080));
    assert_eq!(*svc.inner(), "echo");
}
