use nw_browse::change::{classify, BrowseResultChange, ChangeKind};
use nw_browse::descriptor::{describe, DiscoveryResultHandle};
use nw_browse::event::normalize;
use nw_browse::session::{BrowseSession, SessionError, SessionState};
use nw_browse::shutdown::{ShutdownCoordinator, StopReason};

fn handle(name: Option<&str>, domain: Option<&str>) -> DiscoveryResultHandle {
    DiscoveryResultHandle {
        service_name: name.map(|s| s.to_string()),
        service_domain: domain.map(|s| s.to_string()),
    }
}

#[test]
fn classify_current_only_is_added() {
    let h = handle(Some("printer"), Some("local."));
    assert_eq!(classify(None, Some(&h), None), ChangeKind::Added);
    assert_eq!(classify(None, Some(&h), Some(4)), ChangeKind::Added);
}

#[test]
fn classify_previous_only_is_removed() {
    let h = handle(Some("printer"), Some("local."));
    assert_eq!(classify(Some(&h), None, None), ChangeKind::Removed);
    assert_eq!(classify(Some(&h), None, Some(2)), ChangeKind::Removed);
}

#[test]
fn classify_pair_without_decodable_diff_is_unknown() {
    let old = handle(Some("printer"), Some("local."));
    let new = handle(Some("printer"), Some("local."));
    assert_eq!(classify(Some(&old), Some(&new), None), ChangeKind::Unknown);
    assert_eq!(classify(Some(&old), Some(&new), Some(0)), ChangeKind::Unknown);
    assert_eq!(classify(Some(&old), Some(&new), Some(6)), ChangeKind::Unknown);
    assert_eq!(classify(Some(&old), Some(&new), Some(u64::MAX)), ChangeKind::Unknown);
}

#[test]
fn classify_pair_with_recognized_diff_bits() {
    let old = handle(Some("printer"), Some("local."));
    let new = handle(Some("printer"), Some("local."));
    assert_eq!(classify(Some(&old), Some(&new), Some(2)), ChangeKind::Added);
    assert_eq!(classify(Some(&old), Some(&new), Some(4)), ChangeKind::Removed);
}

#[test]
fn diff_bits_decode_exactly_two_values() {
    assert_eq!(BrowseResultChange::from_bits(2), Some(BrowseResultChange::Added));
    assert_eq!(BrowseResultChange::from_bits(4), Some(BrowseResultChange::Removed));
    assert_eq!(BrowseResultChange::from_bits(0), None);
    assert_eq!(BrowseResultChange::from_bits(3), None);
    assert_eq!(BrowseResultChange::from_bits(6), None);
}

#[test]
fn change_labels() {
    assert_eq!(BrowseResultChange::Added.label(), "ADDED");
    assert_eq!(BrowseResultChange::Removed.label(), "REMOVED");
}

#[test]
fn describe_copies_resolved_attributes() {
    let h = handle(Some("printer"), Some("local."));
    let d = describe(&h, true);
    assert_eq!(d.service_name, "printer");
    assert_eq!(d.service_domain, "local.");
    assert!(d.has_more_pending);
}

#[test]
fn describe_substitutes_sentinel_for_absent_attributes() {
    let d = describe(&handle(None, None), false);
    assert_eq!(d.service_name, "[NULL]");
    assert_eq!(d.service_domain, "[NULL]");
    assert!(!d.has_more_pending);

    let d = describe(&handle(Some("printer"), None), false);
    assert_eq!(d.service_name, "printer");
    assert_eq!(d.service_domain, "[NULL]");
}

#[test]
fn normalize_is_idempotent_on_identical_inputs() {
    let h = handle(Some("printer"), Some("local."));
    let first = normalize(ChangeKind::Added, None, Some(describe(&h, false)));
    let second = normalize(ChangeKind::Added, None, Some(describe(&h, false)));
    assert_eq!(first, second);
}

#[test]
fn configure_rejects_embedded_nul() {
    let mut session = BrowseSession::new();
    let r = session.configure("_http\0._tcp".to_string(), None);
    assert_eq!(r, Err(SessionError::InvalidSelector));
    assert_eq!(session.state(), SessionState::Unconfigured);

    let mut session = BrowseSession::new();
    let r = session.configure("_http._tcp".to_string(), Some("lo\0cal.".to_string()));
    assert_eq!(r, Err(SessionError::InvalidSelector));
    assert_eq!(session.state(), SessionState::Unconfigured);
}

#[test]
fn start_twice_returns_already_active() {
    let mut session = BrowseSession::new();
    assert_eq!(session.configure("_http._tcp".to_string(), None), Ok(()));
    assert_eq!(session.state(), SessionState::Configured);
    assert_eq!(session.start(), Ok(()));
    assert_eq!(session.state(), SessionState::Active);
    assert_eq!(session.start(), Err(SessionError::AlreadyActive));
    assert_eq!(session.state(), SessionState::Active);
}

#[test]
fn stop_is_absorbing() {
    let mut session = BrowseSession::new();
    assert_eq!(session.configure("_http._tcp".to_string(), None), Ok(()));
    assert_eq!(session.start(), Ok(()));
    session.stop();
    assert_eq!(session.state(), SessionState::Terminated);
    session.stop();
    assert_eq!(session.state(), SessionState::Terminated);
}

#[test]
fn no_delivery_before_start_or_after_stop() {
    let mut session = BrowseSession::new();
    assert_eq!(session.configure("_http._tcp".to_string(), None), Ok(()));
    let h = handle(Some("printer"), Some("local."));
    assert_eq!(session.deliver(None, Some(&h), true, None), None);

    assert_eq!(session.start(), Ok(()));
    assert!(session.deliver(None, Some(&h), true, None).is_some());

    session.stop();
    assert_eq!(session.deliver(None, Some(&h), true, None), None);
}

fn started_session() -> BrowseSession {
    let mut session = BrowseSession::new();
    assert_eq!(session.configure("_http._tcp".to_string(), None), Ok(()));
    assert_eq!(session.start(), Ok(()));
    session
}

#[test]
fn scenario_added_current_only() {
    let session = started_session();
    let h1 = handle(Some("printer"), Some("local."));
    let event = session.deliver(None, Some(&h1), true, None).unwrap();
    assert_eq!(event.kind, ChangeKind::Added);
    assert_eq!(event.previous, None);
    let current = event.current.unwrap();
    assert_eq!(current.service_name, "printer");
    assert_eq!(current.service_domain, "local.");
    assert!(!current.has_more_pending);
}

#[test]
fn scenario_removed_previous_only() {
    let session = started_session();
    let h1 = handle(Some("printer"), Some("local."));
    let event = session.deliver(Some(&h1), None, true, None).unwrap();
    assert_eq!(event.kind, ChangeKind::Removed);
    assert_eq!(event.current, None);
    let previous = event.previous.unwrap();
    assert_eq!(previous.service_name, "printer");
    assert_eq!(previous.service_domain, "local.");
    assert!(!previous.has_more_pending);
}

#[test]
fn scenario_unknown_pair_keeps_both_descriptors() {
    let session = started_session();
    let h1 = handle(Some("printer"), Some("local."));
    let h2 = handle(Some("printer"), Some("local."));
    let event = session.deliver(Some(&h1), Some(&h2), true, None).unwrap();
    assert_eq!(event.kind, ChangeKind::Unknown);
    assert!(event.previous.is_some());
    assert!(event.current.is_some());
}

#[test]
fn scenario_absent_domain_becomes_sentinel() {
    let session = started_session();
    let h1 = handle(Some("printer"), None);
    let event = session.deliver(None, Some(&h1), true, None).unwrap();
    let current = event.current.unwrap();
    assert_eq!(current.service_name, "printer");
    assert_eq!(current.service_domain, "[NULL]");
}

#[test]
fn scenario_interrupt_before_terminate_stops_session_once() {
    let mut session = started_session();
    let mut coordinator = ShutdownCoordinator::new();
    coordinator.observe(StopReason::Interrupt);
    coordinator.observe(StopReason::Terminate);
    assert_eq!(coordinator.resolution(), Some(StopReason::Interrupt));

    session.stop();
    assert_eq!(session.state(), SessionState::Terminated);
    session.stop();
    assert_eq!(session.state(), SessionState::Terminated);
}

#[test]
fn coordinator_unresolved_until_first_signal() {
    let mut coordinator = ShutdownCoordinator::new();
    assert_eq!(coordinator.resolution(), None);
    coordinator.observe(StopReason::Terminate);
    assert_eq!(coordinator.resolution(), Some(StopReason::Terminate));
}
