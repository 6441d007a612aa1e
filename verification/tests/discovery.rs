use zero2prod::discovery::{
    build_advertisement, decide, instance_name, service_type, start, stop, AppError, DaemonReply,
    Decision, MAX_CONTROL_ATTEMPTS,
};
use zero2prod::retry::{run_control, stop_against, ControlReply, StopOutcome};

#[test]
fn an_accepted_reply_ends_the_control_step() {
    assert!(matches!(decide(DaemonReply::Accepted, 0), Decision::Done));
}

#[test]
fn a_busy_reply_is_retried() {
    let d = decide(DaemonReply::Busy(mdns_sd::Error::Again), 0);
    assert!(matches!(d, Decision::Retry));
}

#[test]
fn a_busy_reply_at_the_cap_turns_fatal() {
    let d = decide(DaemonReply::Busy(mdns_sd::Error::Again), MAX_CONTROL_ATTEMPTS - 1);
    assert!(matches!(
        d,
        Decision::Fail(AppError::Mdns(mdns_sd::Error::Again))
    ));
}

#[test]
fn a_refusal_fails_with_that_discovery_error() {
    let refusal = mdns_sd::Error::Msg("daemon gone".to_string());
    let d = decide(DaemonReply::Refused(refusal), 3);
    match d {
        Decision::Fail(AppError::Mdns(mdns_sd::Error::Msg(m))) => {
            assert_eq!(m, "daemon gone".to_string());
        }
        _ => panic!("a refusal must fail with the daemon's own error"),
    }
}

#[test]
fn advertised_constants() {
    assert_eq!(service_type(), "_my-test-service._tcp.local.");
    assert_eq!(instance_name(), "my_instance");
}

#[test]
fn fullname_is_instance_dot_type() {
    let (_info, fullname) = build_advertisement("somehost.local.", 8080).unwrap();
    assert_eq!(fullname, "my_instance._my-test-service._tcp.local.".to_string());
}

#[test]
fn busy_replies_are_retried_exactly_once_each() {
    let script = vec![
        ControlReply::Busy,
        ControlReply::Busy,
        ControlReply::Busy,
        ControlReply::Accepted,
    ];
    let (calls, accepted) = run_control(&script);
    assert_eq!(calls, 4);
    assert!(accepted);
}

#[test]
fn an_immediately_accepted_request_is_issued_once() {
    let (calls, accepted) = run_control(&vec![ControlReply::Accepted]);
    assert_eq!(calls, 1);
    assert!(accepted);
}

#[test]
fn a_refusal_after_busy_replies_is_not_retried() {
    let script = vec![ControlReply::Busy, ControlReply::Busy, ControlReply::Refused];
    let (calls, accepted) = run_control(&script);
    assert_eq!(calls, 3);
    assert!(!accepted);
}

#[test]
fn teardown_retries_unregister_then_shuts_down() {
    let unreg = vec![
        ControlReply::Busy,
        ControlReply::Busy,
        ControlReply::Busy,
        ControlReply::Accepted,
    ];
    let shut = vec![ControlReply::Busy, ControlReply::Accepted];
    let report = stop_against(&unreg, &shut);
    assert_eq!(report.unregister_calls, 4);
    assert_eq!(report.shutdown_calls, 2);
    assert_eq!(report.outcome, StopOutcome::Completed);
}

#[test]
fn a_refused_unregister_skips_shutdown() {
    let unreg = vec![ControlReply::Refused];
    let shut = vec![ControlReply::Accepted];
    let report = stop_against(&unreg, &shut);
    assert_eq!(report.unregister_calls, 1);
    assert_eq!(report.shutdown_calls, 0);
    assert_eq!(report.outcome, StopOutcome::UnregisterFailed);
}

#[test]
fn a_refused_shutdown_is_reported() {
    let unreg = vec![ControlReply::Accepted];
    let shut = vec![ControlReply::Busy, ControlReply::Refused];
    let report = stop_against(&unreg, &shut);
    assert_eq!(report.unregister_calls, 1);
    assert_eq!(report.shutdown_calls, 2);
    assert_eq!(report.outcome, StopOutcome::ShutdownFailed);
}

#[test]
fn start_and_stop_against_a_real_daemon() {
    // The daemon binds multicast sockets; in an environment without a
    // usable network interface, creating it may fail, which start reports
    // as a discovery error.
    match start("zero2prod-test-host", 5353) {
        Ok((daemon, fullname)) => {
            assert_eq!(
                fullname,
                "my_instance._my-test-service._tcp.local.".to_string()
            );
            assert!(stop(daemon, &fullname).is_ok());
        }
        Err(_) => {}
    }
}
