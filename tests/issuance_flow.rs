use issuance::agent::{Agent, Lookup};
use issuance::model::{
    Connection, CredentialOffer, CredentialPreview, InboxMessage, IssuanceError, OfferMessage,
    Outbound, PreviewAttribute, State,
};

fn attribute(name: &str, value: &str) -> PreviewAttribute {
    PreviewAttribute { name: name.to_string(), value: value.to_string() }
}

fn offer(cred_def_id: &str, connection_id: &str) -> CredentialOffer {
    CredentialOffer {
        cred_def_id: cred_def_id.to_string(),
        credential_preview: CredentialPreview {
            msg_type: "issue-credential/1.0/credential-preview".to_string(),
            attributes: vec![attribute("name", "Alice"), attribute("age", "30")],
        },
        connection_id: connection_id.to_string(),
    }
}

fn connection(id: &str, did: &str) -> Connection {
    Connection { id: id.to_string(), local_did: did.to_string() }
}

fn offer_message(thread_id: &str, cred_def_id: &str) -> InboxMessage {
    InboxMessage::CredentialOffer(OfferMessage {
        thread_id: thread_id.to_string(),
        offer: offer(cred_def_id, "C1"),
    })
}

#[test]
fn offer_with_known_connection_is_sent() {
    let mut agent = Agent::new();
    agent.add_connection(connection("C1", "did:local"));
    let plan = agent.prepare_credential_offer(&offer("CD1", "C1")).ok().unwrap();
    let receipt = agent.send_credential_offer(plan, true).ok().unwrap();
    assert_eq!(receipt.state, State::OfferSent);
    assert_eq!(receipt.state.as_str(), "offer-sent");
    assert_eq!(receipt.thread_id.len(), 36);
    assert_eq!(receipt.thread_id.matches('-').count(), 4);
}

#[test]
fn offer_with_unknown_connection_is_not_found() {
    let mut agent = Agent::new();
    agent.add_connection(connection("C2", "did:local"));
    let r = agent.prepare_credential_offer(&offer("CD1", "C1"));
    assert!(matches!(r, Err(IssuanceError::NotFound)));
}

#[test]
fn state_after_sent_offer_is_offer_sent() {
    let mut agent = Agent::new();
    agent.add_connection(connection("C1", "did:local"));
    let plan = agent.plan_credential_offer(&offer("CD1", "C1"), "session-1".to_string()).ok().unwrap();
    let receipt = agent.send_credential_offer(plan, true).ok().unwrap();
    assert_eq!(receipt.thread_id, "session-1");
    let state = agent.get_issuer_state(&"session-1".to_string());
    assert_eq!(state, Ok(Lookup::Known(State::OfferSent)));
}

#[test]
fn fresh_session_ids_differ() {
    let mut agent = Agent::new();
    agent.add_connection(connection("C1", "did:local"));
    let a = agent.prepare_credential_offer(&offer("CD1", "C1")).ok().unwrap();
    let b = agent.prepare_credential_offer(&offer("CD1", "C1")).ok().unwrap();
    assert_ne!(a.session_id(), b.session_id());
    assert_eq!(a.session_id().len(), 36);
}

#[test]
fn offer_message_carries_offer_content() {
    let mut agent = Agent::new();
    agent.add_connection(connection("C1", "did:local"));
    let plan = agent.plan_credential_offer(&offer("CD1", "C1"), "t-1".to_string()).ok().unwrap();
    let m = plan.message();
    assert_eq!(m.thread_id, "t-1");
    assert_eq!(m.offer.cred_def_id, "CD1");
    assert_eq!(m.offer.connection_id, "C1");
    assert_eq!(m.offer.credential_preview.msg_type, "issue-credential/1.0/credential-preview");
    assert_eq!(m.offer.credential_preview.attributes.len(), 2);
    assert_eq!(m.offer.credential_preview.attributes[0].name, "name");
    assert_eq!(m.offer.credential_preview.attributes[0].value, "Alice");
    assert_eq!(m.offer.credential_preview.attributes[1].name, "age");
    assert_eq!(m.offer.credential_preview.attributes[1].value, "30");
    assert_eq!(plan.connection_id(), "C1");
}

#[test]
fn undelivered_offer_stores_nothing() {
    let mut agent = Agent::new();
    agent.add_connection(connection("C1", "did:local"));
    let plan = agent.plan_credential_offer(&offer("CD1", "C1"), "s".to_string()).ok().unwrap();
    let r = agent.send_credential_offer(plan, false);
    assert!(matches!(r, Err(IssuanceError::Transport)));
    assert_eq!(agent.get_issuer_state(&"s".to_string()), Ok(Lookup::ScanInbox));
}

#[test]
fn offer_without_definition_is_configuration_error() {
    let mut agent = Agent::new();
    agent.add_connection(connection("C1", "did:local"));
    let r = agent.plan_credential_offer(&offer("", "C1"), "s".to_string());
    assert!(matches!(r, Err(IssuanceError::Configuration)));
}

#[test]
fn offer_with_repeated_attribute_is_configuration_error() {
    let mut agent = Agent::new();
    agent.add_connection(connection("C1", "did:local"));
    let mut o = offer("CD1", "C1");
    o.credential_preview.attributes.push(attribute("name", "Bob"));
    let r = agent.plan_credential_offer(&o, "s".to_string());
    assert!(matches!(r, Err(IssuanceError::Configuration)));
}

#[test]
fn offer_with_unnamed_attribute_is_configuration_error() {
    let mut agent = Agent::new();
    agent.add_connection(connection("C1", "did:local"));
    let mut o = offer("CD1", "C1");
    o.credential_preview.attributes.push(attribute("", "x"));
    let r = agent.plan_credential_offer(&o, "s".to_string());
    assert!(matches!(r, Err(IssuanceError::Configuration)));
}

#[test]
fn reused_session_id_is_refused() {
    let mut agent = Agent::new();
    agent.add_connection(connection("C1", "did:local"));
    let a = agent.plan_credential_offer(&offer("CD1", "C1"), "s".to_string()).ok().unwrap();
    let b = agent.plan_credential_offer(&offer("CD2", "C1"), "s".to_string()).ok().unwrap();
    assert!(agent.send_credential_offer(a, true).is_ok());
    assert!(matches!(agent.send_credential_offer(b, true), Err(IssuanceError::Internal)));
}

#[test]
fn request_without_holder_is_not_found() {
    let mut agent = Agent::new();
    agent.add_connection(connection("C1", "did:local"));
    let r = agent.prepare_credential_request(&"missing".to_string());
    assert!(matches!(r, Err(IssuanceError::NotFound)));
}

#[test]
fn request_on_issuer_session_is_not_found() {
    let mut agent = Agent::new();
    agent.add_connection(connection("C1", "did:local"));
    let plan = agent.plan_credential_offer(&offer("CD1", "C1"), "s".to_string()).ok().unwrap();
    agent.send_credential_offer(plan, true).ok().unwrap();
    let r = agent.prepare_credential_request(&"s".to_string());
    assert!(matches!(r, Err(IssuanceError::NotFound)));
}

#[test]
fn state_of_unknown_session_without_connection_is_internal() {
    let agent = Agent::new();
    assert_eq!(agent.get_issuer_state(&"x".to_string()), Err(IssuanceError::Internal));
}

#[test]
fn state_of_unknown_session_with_connection_asks_for_inbox() {
    let mut agent = Agent::new();
    agent.add_connection(connection("C1", "did:local"));
    assert_eq!(agent.get_issuer_state(&"x".to_string()), Ok(Lookup::ScanInbox));
}

#[test]
fn inbox_without_offer_is_not_found() {
    let mut agent = Agent::new();
    agent.add_connection(connection("C1", "did:local"));
    let r = agent.adopt_offer_from_inbox("h".to_string(), vec![InboxMessage::Other]);
    assert_eq!(r, Err(IssuanceError::NotFound));
    let r = agent.adopt_offer_from_inbox("h".to_string(), vec![]);
    assert_eq!(r, Err(IssuanceError::NotFound));
    assert_eq!(agent.get_issuer_state(&"h".to_string()), Ok(Lookup::ScanInbox));
}

#[test]
fn latest_of_two_offers_is_adopted() {
    let mut agent = Agent::new();
    agent.add_connection(connection("C1", "did:holder"));
    let inbox = vec![
        offer_message("t-old", "CD-OLD"),
        offer_message("t-new", "CD-NEW"),
        InboxMessage::Other,
    ];
    let r = agent.adopt_offer_from_inbox("h".to_string(), inbox);
    assert_eq!(r, Ok(State::OfferReceived));
    assert_eq!(agent.get_issuer_state(&"h".to_string()), Ok(Lookup::Known(State::OfferReceived)));
    let plan = agent.prepare_credential_request(&"h".to_string()).ok().unwrap();
    match plan.outbound() {
        Outbound::Request(m) => {
            assert_eq!(m.cred_def_id, "CD-NEW");
            assert_eq!(m.thread_id, "h");
            assert_eq!(m.requester_did, "did:holder");
        },
        Outbound::ProblemReport { .. } => panic!("expected a request"),
    }
    // A second materialization keeps the stored holder.
    let again = agent.adopt_offer_from_inbox("h".to_string(), vec![offer_message("t-3", "CD-3")]);
    assert_eq!(again, Ok(State::OfferReceived));
    let plan = agent.prepare_credential_request(&"h".to_string()).ok().unwrap();
    assert!(matches!(plan.outbound(), Outbound::Request(m) if m.cred_def_id == "CD-NEW"));
}

#[test]
fn delivered_request_moves_holder_forward() {
    let mut agent = Agent::new();
    agent.add_connection(connection("C1", "did:holder"));
    agent.adopt_offer_from_inbox("h".to_string(), vec![offer_message("t", "CD1")]).ok().unwrap();
    let plan = agent.prepare_credential_request(&"h".to_string()).ok().unwrap();
    assert_eq!(plan.session_id(), "h");
    assert_eq!(plan.connection().id, "C1");
    assert_eq!(agent.send_credential_request(plan, true), Ok(State::RequestSent));
    assert_eq!(agent.get_issuer_state(&"h".to_string()), Ok(Lookup::Known(State::RequestSent)));
    assert_eq!(State::RequestSent.as_str(), "request-sent");
}

#[test]
fn undelivered_request_keeps_holder() {
    let mut agent = Agent::new();
    agent.add_connection(connection("C1", "did:holder"));
    agent.adopt_offer_from_inbox("h".to_string(), vec![offer_message("t", "CD1")]).ok().unwrap();
    let plan = agent.prepare_credential_request(&"h".to_string()).ok().unwrap();
    assert_eq!(agent.send_credential_request(plan, false), Err(IssuanceError::Transport));
    assert_eq!(agent.get_issuer_state(&"h".to_string()), Ok(Lookup::Known(State::OfferReceived)));
}

#[test]
fn offer_without_definition_gets_problem_report() {
    let mut agent = Agent::new();
    agent.add_connection(connection("C1", "did:holder"));
    agent.adopt_offer_from_inbox("h".to_string(), vec![offer_message("t", "")]).ok().unwrap();
    let plan = agent.prepare_credential_request(&"h".to_string()).ok().unwrap();
    assert!(matches!(plan.outbound(), Outbound::ProblemReport { thread_id } if thread_id == "h"));
    assert_eq!(agent.send_credential_request(plan, true), Err(IssuanceError::Protocol));
    assert_eq!(agent.get_issuer_state(&"h".to_string()), Ok(Lookup::Known(State::OfferReceived)));
}

#[test]
fn request_before_any_connection_is_internal() {
    let mut agent = Agent::new();
    agent.adopt_offer_from_inbox("h".to_string(), vec![offer_message("t", "CD1")]).ok().unwrap();
    let r = agent.prepare_credential_request(&"h".to_string());
    assert!(matches!(r, Err(IssuanceError::Internal)));
}

#[test]
fn state_names() {
    assert_eq!(State::Initial.as_str(), "initial");
    assert_eq!(State::RequestReceived.as_str(), "request-received");
    assert_eq!(State::CredentialSent.as_str(), "credential-sent");
    assert_eq!(State::OfferReceived.as_str(), "offer-received");
    assert_eq!(State::CredentialReceived.as_str(), "credential-received");
    assert_eq!(State::Unknown.as_str(), "unknown");
}
