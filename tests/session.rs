use dtn_bundle_tool::endpoint::PartialEndpointId;
use dtn_bundle_tool::session::{
    cross_check_node, derive_agent_id, requested_agent_id, validate_intent, Failure, Phase,
    Session, UUID_TEXT_LEN,
};

fn eid(s: &str) -> PartialEndpointId {
    PartialEndpointId::from(s.to_string())
}

#[test]
fn send_to_full_address_passes_and_gets_random_agent() {
    let dest = eid("dtn://node1/agent1");
    assert!(validate_intent(false, Some(&dest), None).is_ok());
    assert_eq!(requested_agent_id(false, Some(&dest), None), None);
    let a = derive_agent_id(false, Some(&dest), None);
    let b = derive_agent_id(false, Some(&dest), None);
    assert_eq!(a.chars().count(), UUID_TEXT_LEN);
    assert_ne!(a, b);
}

#[test]
fn send_without_node_is_missing_node() {
    let dest = eid("agent1");
    let r = validate_intent(false, Some(&dest), None);
    assert!(matches!(r, Err(Failure::MissingNodeId)));
    assert!(matches!(validate_intent(false, None, None), Err(Failure::MissingNodeId)));
}

#[test]
fn send_with_empty_agent_is_missing_agent() {
    let dest = eid("dtn://node1/");
    let r = validate_intent(false, Some(&dest), None);
    assert!(matches!(r, Err(Failure::MissingAgentId)));
}

#[test]
fn send_from_group_source_is_rejected() {
    let dest = eid("dtn://node1/agent1");
    let src = eid("dtn://~group1/agentX");
    let r = validate_intent(false, Some(&dest), Some(&src));
    assert!(matches!(r, Err(Failure::NonSingletonSource)));
    assert_eq!(r.unwrap_err().exit_code(), Some(1));
}

#[test]
fn send_from_singleton_source_uses_its_agent() {
    let dest = eid("dtn://node1/agent1");
    let src = eid("dtn://node2/me");
    assert!(validate_intent(false, Some(&dest), Some(&src)).is_ok());
    assert_eq!(derive_agent_id(false, Some(&dest), Some(&src)), "me");
}

#[test]
fn listen_on_group_address_is_rejected() {
    let addr = eid("dtn://~group1/agentX");
    assert!(matches!(validate_intent(true, Some(&addr), None), Err(Failure::NonSingletonListen)));
}

#[test]
fn listen_ignores_source() {
    let src = eid("dtn://~group1/agentX");
    assert!(validate_intent(true, None, Some(&src)).is_ok());
}

#[test]
fn listen_without_address_generates_agent_and_checks_no_node() {
    assert!(validate_intent(true, None, None).is_ok());
    assert!(cross_check_node(true, None, None, "dtn://thisNode/").is_ok());
    let a = derive_agent_id(true, None, None);
    assert_eq!(a.len(), UUID_TEXT_LEN);
    assert_eq!(a.matches('-').count(), 4);
}

#[test]
fn listen_on_other_node_is_a_mismatch() {
    let addr = eid("dtn://otherNode/agentY");
    let r = cross_check_node(true, Some(&addr), None, "dtn://thisNode");
    match r {
        Err(Failure::NodeMismatch(n)) => {
            assert_eq!(n, "dtn://thisNode");
            assert!(n.contains("thisNode"));
        }
        _ => panic!("expected a node mismatch"),
    }
    assert_eq!(Failure::NodeMismatch("x".to_string()).exit_code(), Some(2));
}

#[test]
fn listen_on_own_node_passes_and_uses_agent() {
    let addr = eid("dtn://thisNode/agentY");
    assert!(cross_check_node(true, Some(&addr), None, "dtn://thisNode/").is_ok());
    assert_eq!(derive_agent_id(true, Some(&addr), None), "agentY");
}

#[test]
fn listen_on_agent_only_is_not_cross_checked() {
    let addr = eid("agentY");
    assert!(cross_check_node(true, Some(&addr), None, "dtn://thisNode/").is_ok());
    assert_eq!(derive_agent_id(true, Some(&addr), None), "agentY");
}

#[test]
fn send_destination_is_not_cross_checked() {
    let dest = eid("dtn://remote/agent1");
    assert!(cross_check_node(false, Some(&dest), None, "dtn://thisNode/").is_ok());
}

#[test]
fn source_on_other_node_is_a_mismatch() {
    let dest = eid("dtn://remote/agent1");
    let src = eid("dtn://elsewhere/me");
    let r = cross_check_node(false, Some(&dest), Some(&src), "dtn://thisNode/");
    assert!(matches!(r, Err(Failure::NodeMismatch(_))));
}

#[test]
fn exit_codes_per_failure() {
    assert_eq!(Failure::MissingNodeId.exit_code(), None);
    assert_eq!(Failure::MissingAgentId.exit_code(), None);
    assert_eq!(Failure::NonSingletonSource.exit_code(), Some(1));
    assert_eq!(Failure::NonSingletonListen.exit_code(), Some(1));
    assert_eq!(Failure::Connect.exit_code(), Some(10));
    assert_eq!(Failure::Handshake.exit_code(), Some(11));
    assert_eq!(Failure::Register.exit_code(), Some(11));
    assert_eq!(Failure::ReadInput.exit_code(), Some(13));
    assert_eq!(Failure::SendBundle.exit_code(), Some(14));
    assert_eq!(Failure::ReceiveBundle.exit_code(), Some(15));
    assert_eq!(Failure::WriteOutput.exit_code(), Some(16));
}

#[test]
fn session_runs_through_every_phase() {
    let mut s = Session::new(false, Some(eid("dtn://node1/agent1")), Some(eid("dtn://here/me")));
    assert_eq!(s.phase(), Phase::Idle);
    assert!(s.validate().is_ok());
    assert_eq!(s.phase(), Phase::Validated);
    assert!(s.connected(true).is_ok());
    assert_eq!(s.phase(), Phase::Connected);
    assert!(s.handshaken(Some("dtn://here/")).is_ok());
    assert_eq!(s.phase(), Phase::Handshaken);
    assert_eq!(s.agent_id(), "me");
    assert!(s.registered(true).is_ok());
    assert_eq!(s.phase(), Phase::Registered);
    s.start_exchange();
    assert_eq!(s.phase(), Phase::Active);
    assert!(s.finish_exchange(None).is_ok());
    assert_eq!(s.phase(), Phase::Closed);
    assert!(!s.is_listening());
    assert_eq!(s.endpoint().unwrap().as_str(), "dtn://node1/agent1");
}

#[test]
fn session_aborts_on_bad_request() {
    let mut s = Session::new(false, Some(eid("agent1")), None);
    assert!(matches!(s.validate(), Err(Failure::MissingNodeId)));
    assert_eq!(s.phase(), Phase::Aborted);
}

#[test]
fn session_aborts_when_connect_fails() {
    let mut s = Session::new(true, None, None);
    assert!(s.validate().is_ok());
    assert!(matches!(s.connected(false), Err(Failure::Connect)));
    assert_eq!(s.phase(), Phase::Aborted);
}

#[test]
fn session_aborts_when_handshake_fails() {
    let mut s = Session::new(true, None, None);
    s.validate().unwrap();
    s.connected(true).unwrap();
    assert!(matches!(s.handshaken(None), Err(Failure::Handshake)));
    assert_eq!(s.phase(), Phase::Aborted);
}

#[test]
fn session_aborts_on_node_mismatch() {
    let mut s = Session::new(true, Some(eid("dtn://otherNode/agentY")), None);
    s.validate().unwrap();
    s.connected(true).unwrap();
    let r = s.handshaken(Some("dtn://thisNode"));
    assert!(matches!(r, Err(Failure::NodeMismatch(ref n)) if n == "dtn://thisNode"));
    assert_eq!(s.phase(), Phase::Aborted);
}

#[test]
fn session_aborts_when_register_fails() {
    let mut s = Session::new(true, None, None);
    s.validate().unwrap();
    s.connected(true).unwrap();
    s.handshaken(Some("dtn://n/")).unwrap();
    assert_eq!(s.agent_id().len(), UUID_TEXT_LEN);
    assert!(matches!(s.registered(false), Err(Failure::Register)));
    assert_eq!(s.phase(), Phase::Aborted);
}

#[test]
fn session_aborts_when_exchange_fails() {
    let mut s = Session::new(true, Some(eid("inbox")), None);
    s.validate().unwrap();
    s.connected(true).unwrap();
    s.handshaken(Some("dtn://n/")).unwrap();
    assert_eq!(s.agent_id(), "inbox");
    s.registered(true).unwrap();
    s.start_exchange();
    assert!(matches!(s.finish_exchange(Some(Failure::WriteOutput)), Err(Failure::WriteOutput)));
    assert_eq!(s.phase(), Phase::Aborted);
}
