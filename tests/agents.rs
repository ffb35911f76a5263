use iwdrs::agent::{reply_of, CancellationReason, Fault};
use iwdrs::error::agent::Canceled;
use iwdrs::object_path::ObjectPath;
use iwdrs::registry::{AgentAction, AgentCall, AgentKind, AgentRegistry, Dispatch, RegistrationError, RegistrationState};
use iwdrs::station::signal_level_agent::{signal_level_range, sort_descending, LevelBound, SignalLevelRange};

fn path(s: &str) -> ObjectPath {
    ObjectPath::parse(s).unwrap()
}

fn register(reg: &mut AgentRegistry, kind: AgentKind, id: &str, levels: Vec<i16>) -> ObjectPath {
    let p = match reg.begin(kind, id, levels).unwrap() {
        AgentAction::RegisterRemote { path, .. } => path,
        other => panic!("unexpected action {:?}", other),
    };
    match reg.remote_answer(&p, true) {
        Some(AgentAction::Publish { .. }) => {}
        other => panic!("unexpected action {:?}", other),
    }
    reg.publish_result(&p, true);
    p
}

#[test]
fn threshold_table_three_levels() {
    let levels = [-40i16, -50, -60];
    assert_eq!(
        signal_level_range(&levels, 0),
        SignalLevelRange { min: LevelBound::Included(-40), max: LevelBound::Unbounded }
    );
    assert_eq!(
        signal_level_range(&levels, 1),
        SignalLevelRange { min: LevelBound::Included(-50), max: LevelBound::Excluded(-40) }
    );
    assert_eq!(
        signal_level_range(&levels, 2),
        SignalLevelRange { min: LevelBound::Included(-60), max: LevelBound::Excluded(-50) }
    );
    assert_eq!(
        signal_level_range(&levels, 3),
        SignalLevelRange { min: LevelBound::Unbounded, max: LevelBound::Excluded(-60) }
    );
}

#[test]
fn threshold_index_past_the_table_is_unbounded() {
    let levels = [-40i16, -50, -60];
    assert_eq!(
        signal_level_range(&levels, 4),
        SignalLevelRange { min: LevelBound::Unbounded, max: LevelBound::Unbounded }
    );
    assert_eq!(
        signal_level_range(&[], 0),
        SignalLevelRange { min: LevelBound::Unbounded, max: LevelBound::Unbounded }
    );
}

#[test]
fn thresholds_are_sorted_descending_without_dedup() {
    assert_eq!(sort_descending(vec![-60, -40, -50, -40]), vec![-40, -40, -50, -60]);
    assert_eq!(sort_descending(vec![]), Vec::<i16>::new());
    assert_eq!(sort_descending(vec![i16::MIN, i16::MAX, 0]), vec![i16::MAX, 0, i16::MIN]);
}

#[test]
fn register_then_unregister_leaves_nothing_to_dispatch() {
    let mut reg = AgentRegistry::new();
    let p = register(&mut reg, AgentKind::Credential, "abc", vec![]);
    assert_eq!(reg.state(&p), Some(RegistrationState::Active));
    match reg.unregister(&p) {
        Some(AgentAction::UnregisterRemote { path, kind }) => {
            assert_eq!(path.as_str(), "/iwdrs/agent/abc");
            assert_eq!(kind, AgentKind::Credential);
        }
        other => panic!("unexpected action {:?}", other),
    }
    assert_eq!(reg.state(&p), Some(RegistrationState::Unregistered));
    assert!(matches!(reg.dispatch(&p, AgentCall::Release), Dispatch::UnknownObject));
    assert!(matches!(
        reg.dispatch(&p, AgentCall::RequestPassphrase(path("/net/connman/iwd/0/4/6e6574_psk"))),
        Dispatch::UnknownObject
    ));
}

#[test]
fn registration_runs_remote_step_before_publishing() {
    let mut reg = AgentRegistry::new();
    let action = reg.begin(AgentKind::SignalLevel, "s1", vec![-60, -40, -50]).unwrap();
    let p = match action {
        AgentAction::RegisterRemote { path, kind, levels } => {
            assert_eq!(path.as_str(), "/iwdrs/signal_level_agent/s1");
            assert_eq!(kind, AgentKind::SignalLevel);
            assert_eq!(levels, vec![-40, -50, -60]);
            path
        }
        other => panic!("unexpected action {:?}", other),
    };
    assert_eq!(reg.state(&p), Some(RegistrationState::Requested));
    assert!(matches!(reg.dispatch(&p, AgentCall::Release), Dispatch::UnknownObject));
    match reg.remote_answer(&p, true) {
        Some(AgentAction::Publish { path, kind }) => {
            assert_eq!(path.as_str(), "/iwdrs/signal_level_agent/s1");
            assert_eq!(kind, AgentKind::SignalLevel);
        }
        other => panic!("unexpected action {:?}", other),
    }
    reg.publish_result(&p, true);
    assert_eq!(reg.state(&p), Some(RegistrationState::Active));
}

#[test]
fn refused_registration_publishes_nothing() {
    let mut reg = AgentRegistry::new();
    let p = match reg.begin(AgentKind::Credential, "r", vec![]).unwrap() {
        AgentAction::RegisterRemote { path, .. } => path,
        other => panic!("unexpected action {:?}", other),
    };
    assert!(reg.remote_answer(&p, false).is_none());
    assert_eq!(reg.state(&p), Some(RegistrationState::Refused));
    assert!(reg.unregister(&p).is_none());
}

#[test]
fn failed_publishing_keeps_the_remote_registration() {
    let mut reg = AgentRegistry::new();
    let p = match reg.begin(AgentKind::Credential, "f", vec![]).unwrap() {
        AgentAction::RegisterRemote { path, .. } => path,
        other => panic!("unexpected action {:?}", other),
    };
    assert!(reg.remote_answer(&p, true).is_some());
    reg.publish_result(&p, false);
    assert_eq!(reg.state(&p), Some(RegistrationState::PublishFailed));
    assert!(matches!(reg.dispatch(&p, AgentCall::Release), Dispatch::UnknownObject));
    assert!(matches!(reg.unregister(&p), Some(AgentAction::UnregisterRemote { .. })));
}

#[test]
fn one_path_is_registered_once() {
    let mut reg = AgentRegistry::new();
    register(&mut reg, AgentKind::Credential, "dup", vec![]);
    assert_eq!(reg.begin(AgentKind::Credential, "dup", vec![]).unwrap_err(), RegistrationError::PathInUse);
    assert!(reg.begin(AgentKind::SignalLevel, "dup", vec![]).is_ok());
    assert_eq!(reg.begin(AgentKind::Credential, "bad/", vec![]).unwrap_err(), RegistrationError::InvalidPath);
    assert_eq!(reg.begin(AgentKind::Credential, "", vec![]).unwrap_err(), RegistrationError::InvalidPath);
}

#[test]
fn fresh_registration_uses_a_random_identifier() {
    let mut reg = AgentRegistry::new();
    let a = match reg.begin_fresh(AgentKind::Credential, vec![]).unwrap() {
        AgentAction::RegisterRemote { path, .. } => path,
        other => panic!("unexpected action {:?}", other),
    };
    let b = match reg.begin_fresh(AgentKind::SignalLevel, vec![-50, -40]).unwrap() {
        AgentAction::RegisterRemote { path, levels, .. } => {
            assert_eq!(levels, vec![-40, -50]);
            path
        }
        other => panic!("unexpected action {:?}", other),
    };
    let id = a.as_str().strip_prefix("/iwdrs/agent/").unwrap();
    assert_eq!(id.len(), 32);
    assert!(id.chars().all(|c| c.is_ascii_digit() || ('a'..='f').contains(&c)));
    assert!(b.as_str().starts_with("/iwdrs/signal_level_agent/"));
    assert_eq!(b.as_str().len(), "/iwdrs/signal_level_agent/".len() + 32);
    assert!(!a.same_as(&b));
}

#[test]
fn credential_calls_are_routed_with_their_arguments() {
    let mut reg = AgentRegistry::new();
    let p = register(&mut reg, AgentKind::Credential, "c", vec![]);
    let net = "/net/connman/iwd/0/4/6e6574_psk";
    match reg.dispatch(&p, AgentCall::RequestPassphrase(path(net))) {
        Dispatch::RequestPassphrase(n) => assert_eq!(n.as_str(), net),
        other => panic!("unexpected dispatch {:?}", other),
    }
    match reg.dispatch(&p, AgentCall::RequestPrivateKeyPassphrase(path(net))) {
        Dispatch::RequestPrivateKeyPassphrase(n) => assert_eq!(n.as_str(), net),
        other => panic!("unexpected dispatch {:?}", other),
    }
    match reg.dispatch(&p, AgentCall::RequestUserNameAndPassword(path(net))) {
        Dispatch::RequestUserNameAndPassword(n) => assert_eq!(n.as_str(), net),
        other => panic!("unexpected dispatch {:?}", other),
    }
    match reg.dispatch(&p, AgentCall::RequestUserPassword(path(net), Some("me".to_string()))) {
        Dispatch::RequestUserPassword(n, user) => {
            assert_eq!(n.as_str(), net);
            assert_eq!(user, Some("me".to_string()));
        }
        other => panic!("unexpected dispatch {:?}", other),
    }
    assert!(matches!(
        reg.dispatch(&p, AgentCall::Cancel("timed-out".to_string())),
        Dispatch::Cancel(CancellationReason::Timeout)
    ));
    assert!(matches!(reg.dispatch(&p, AgentCall::Cancel("bogus".to_string())), Dispatch::InvalidArgs));
    assert!(matches!(reg.dispatch(&p, AgentCall::Changed(path("/s"), 1)), Dispatch::UnknownMethod));
    assert!(matches!(reg.dispatch(&p, AgentCall::Release), Dispatch::Release));
    assert_eq!(reg.state(&p), Some(RegistrationState::Released));
    assert!(matches!(reg.dispatch(&p, AgentCall::Release), Dispatch::UnknownObject));
}

#[test]
fn signal_level_change_carries_the_range() {
    let mut reg = AgentRegistry::new();
    let p = register(&mut reg, AgentKind::SignalLevel, "lvl", vec![-60, -40, -50]);
    match reg.dispatch(&p, AgentCall::Changed(path("/net/connman/iwd/0/4"), 2)) {
        Dispatch::Changed(station, range) => {
            assert_eq!(station.as_str(), "/net/connman/iwd/0/4");
            assert_eq!(range, SignalLevelRange { min: LevelBound::Included(-60), max: LevelBound::Excluded(-50) });
        }
        other => panic!("unexpected dispatch {:?}", other),
    }
    assert!(matches!(
        reg.dispatch(&p, AgentCall::RequestPassphrase(path("/n"))),
        Dispatch::UnknownMethod
    ));
    assert!(matches!(reg.dispatch(&p, AgentCall::Cancel("shutdown".to_string())), Dispatch::UnknownMethod));
}

#[test]
fn calls_at_unknown_paths_are_unknown_objects() {
    let mut reg = AgentRegistry::new();
    assert!(matches!(reg.dispatch(&path("/iwdrs/agent/none"), AgentCall::Release), Dispatch::UnknownObject));
    assert!(reg.unregister(&path("/iwdrs/agent/none")).is_none());
    assert_eq!(reg.state(&path("/iwdrs/agent/none")), None);
}

#[test]
fn cancellation_reasons_round_trip() {
    let all = [
        ("out-of-range", CancellationReason::OutOfRange),
        ("user-canceled", CancellationReason::UserCanceled),
        ("timed-out", CancellationReason::Timeout),
        ("shutdown", CancellationReason::Shutdown),
    ];
    for (wire, reason) in all {
        assert_eq!(CancellationReason::from_wire(wire), Some(reason));
        assert_eq!(reason.wire(), wire);
        assert_eq!(CancellationReason::from_wire(reason.wire()), Some(reason));
    }
    assert_eq!(CancellationReason::from_wire("timeout"), None);
    assert_eq!(CancellationReason::from_wire("Shutdown"), None);
    assert_eq!(CancellationReason::from_wire(""), None);
}

#[test]
fn canceled_answer_becomes_a_failure_reply() {
    assert_eq!(reply_of::<String>(Ok("secret".to_string())), Ok("secret".to_string()));
    assert_eq!(reply_of::<String>(Err(Canceled())), Err(Fault::Failed("Canceled".to_string())));
    assert_eq!(Canceled().message(), "Canceled");
}
