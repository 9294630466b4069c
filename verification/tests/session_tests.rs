use nymstr_core::crypto::Crypto;
use nymstr_core::envelope::DbWrite;
use nymstr_core::envelope::Envelope;
use nymstr_core::envelope::Incoming;
use nymstr_core::hexfmt::hex_decode;
use nymstr_core::session::FlowKind;
use nymstr_core::session::MessageHandler;
use nymstr_core::session::SessionError;
use nymstr_core::session::Step;

fn env(action: &str, context: Option<&str>, content: Option<&str>) -> Envelope {
    Envelope {
        action: action.to_string(),
        context: context.map(|c| c.to_string()),
        content: content.map(|c| c.to_string()),
    }
}

fn inc(action: &str, context: Option<&str>, content: Option<&str>) -> Incoming {
    Incoming { envelope: env(action, context, content), ts: 1_700_000_000 }
}

fn json_field(doc: &str, key: &str) -> Option<String> {
    let v: serde_json::Value = serde_json::from_str(doc).ok()?;
    Some(v.get(key)?.as_str()?.to_string())
}

/// Drive a registration for `name` to success and return the handler.
fn registered(name: &str) -> MessageHandler {
    let mut h = MessageHandler::new();
    h.register_user(name).expect("start registration");
    let step = h
        .handle_incoming(inc("challengeResponse", Some("registration"), Some("success")))
        .expect("verdict");
    assert!(matches!(step, Step::AuthDone { success: true, .. }));
    h
}

#[test]
fn registration_scenario_alice() {
    let mut h = MessageHandler::new();
    let started = h.register_user("alice").expect("start registration");

    // The request envelope carries the username and the public key PEM.
    assert_eq!(started.outbound.envelope.action, "registrationRequest");
    assert_eq!(started.outbound.envelope.context.as_deref(), Some("registration"));
    let content = started.outbound.envelope.content.expect("request content");
    assert_eq!(json_field(&content, "username").as_deref(), Some("alice"));
    let sent_pem = json_field(&content, "publicKey").expect("publicKey field");
    let held_pem = String::from_utf8(h.public_key.clone().expect("public key")).unwrap();
    assert_eq!(sent_pem, held_pem);
    match started.write {
        Some(DbWrite::RegisterUser { username, public_key_pem }) => {
            assert_eq!(username, "alice");
            assert_eq!(public_key_pem, held_pem);
        },
        other => panic!("unexpected write: {:?}", other),
    }

    // The server's challenge is answered with a signature over the nonce.
    let step = h
        .handle_incoming(inc(
            "challenge",
            Some("registration"),
            Some("{\"nonce\":\"abc123\"}"),
        ))
        .expect("challenge step");
    let reply = match step {
        Step::Replied { outbound } => outbound,
        other => panic!("expected a reply, got {:?}", other),
    };
    assert_eq!(reply.envelope.action, "challengeResponse");
    assert_eq!(reply.envelope.context.as_deref(), Some("registration"));
    let reply_content = reply.envelope.content.expect("reply content");
    assert_eq!(json_field(&reply_content, "username").as_deref(), Some("alice"));
    let sig_hex = json_field(&reply_content, "signature").expect("signature field");
    let sig = hex_decode(&sig_hex).expect("signature hex");
    let pk = h.public_key.clone().expect("public key");
    assert!(Crypto::verify(&pk, b"abc123", &sig));

    // The verdict ends the flow and sets the current user.
    let step = h
        .handle_incoming(inc("challengeResponse", Some("registration"), Some("success")))
        .expect("verdict step");
    match step {
        Step::AuthDone { kind, username, success, write } => {
            assert_eq!(kind, FlowKind::Registration);
            assert_eq!(username, "alice");
            assert!(success);
            assert!(matches!(write, Some(DbWrite::InitUser { username }) if username == "alice"));
        },
        other => panic!("expected a verdict, got {:?}", other),
    }
    assert_eq!(h.current_user.as_deref(), Some("alice"));
}

#[test]
fn registration_failure_verdict() {
    let mut h = MessageHandler::new();
    h.register_user("alice").expect("start registration");
    let step = h
        .handle_incoming(inc("challengeResponse", Some("registration"), Some("denied")))
        .expect("verdict step");
    assert!(matches!(step, Step::AuthDone { success: false, write: None, .. }));
    assert_eq!(h.current_user, None);
}

#[test]
fn unrelated_envelope_does_not_advance_registration() {
    let mut h = MessageHandler::new();
    h.register_user("alice").expect("start registration");

    // An unrelated chat envelope arrives mid-handshake: consumed, ignored.
    let step = h
        .handle_incoming(inc(
            "incomingMessage",
            Some("chat"),
            Some("{\"sender\":\"bob\",\"body\":\"hi\"}"),
        ))
        .expect("unrelated step");
    assert!(matches!(step, Step::Ignored));

    // The flow still reacts to the matching challenge afterwards.
    let step = h
        .handle_incoming(inc(
            "challenge",
            Some("registration"),
            Some("{\"nonce\":\"abc123\"}"),
        ))
        .expect("challenge step");
    assert!(matches!(step, Step::Replied { .. }));
}

#[test]
fn challenge_of_wrong_context_is_ignored() {
    let mut h = MessageHandler::new();
    h.register_user("alice").expect("start registration");
    let step = h
        .handle_incoming(inc("challenge", Some("login"), Some("{\"nonce\":\"abc123\"}")))
        .expect("step");
    assert!(matches!(step, Step::Ignored));
}

#[test]
fn challenge_without_nonce_is_ignored() {
    let mut h = MessageHandler::new();
    h.register_user("alice").expect("start registration");
    let step = h
        .handle_incoming(inc("challenge", Some("registration"), Some("{\"noncense\":1}")))
        .expect("step");
    assert!(matches!(step, Step::Ignored));
    let step = h
        .handle_incoming(inc("challenge", Some("registration"), Some("not json")))
        .expect("step");
    assert!(matches!(step, Step::Ignored));
}

#[test]
fn idle_session_ignores_everything() {
    let mut h = MessageHandler::new();
    let step = h
        .handle_incoming(inc("challenge", Some("registration"), Some("{\"nonce\":\"x\"}")))
        .expect("step");
    assert!(matches!(step, Step::Ignored));
}

#[test]
fn login_without_key_fails_at_once() {
    let mut h = MessageHandler::new();
    assert!(matches!(h.login_user("alice"), Err(SessionError::NoLocalKey)));
}

#[test]
fn login_scenario_after_registration() {
    let mut h = registered("alice");
    let started = h.login_user("alice").expect("start login");
    assert_eq!(started.outbound.envelope.action, "loginRequest");
    assert_eq!(started.outbound.envelope.context.as_deref(), Some("login"));
    let content = started.outbound.envelope.content.expect("request content");
    assert_eq!(json_field(&content, "username").as_deref(), Some("alice"));
    assert!(started.write.is_none());

    let step = h
        .handle_incoming(inc("challenge", Some("login"), Some("{\"nonce\":\"n-42\"}")))
        .expect("challenge step");
    let reply = match step {
        Step::Replied { outbound } => outbound,
        other => panic!("expected a reply, got {:?}", other),
    };
    let reply_content = reply.envelope.content.expect("reply content");
    let sig = hex_decode(&json_field(&reply_content, "signature").unwrap()).unwrap();
    assert!(Crypto::verify(&h.public_key.clone().unwrap(), b"n-42", &sig));

    let step = h
        .handle_incoming(inc("challengeResponse", Some("login"), Some("success")))
        .expect("verdict step");
    assert!(matches!(step, Step::AuthDone { kind: FlowKind::Login, success: true, .. }));
    assert_eq!(h.current_user.as_deref(), Some("alice"));
}

#[test]
fn query_scenario_bob() {
    let mut h = registered("alice");
    let started = h.query_user("bob");
    assert_eq!(started.outbound.envelope.action, "queryRequest");
    assert_eq!(started.outbound.envelope.context.as_deref(), Some("query"));

    let step = h
        .handle_incoming(inc(
            "queryResponse",
            Some("query"),
            Some("{\"username\":\"bob\",\"publicKey\":\"<pem>\"}"),
        ))
        .expect("response step");
    match step {
        Step::QueryDone { result, write } => {
            assert_eq!(result, Some(("bob".to_string(), "<pem>".to_string())));
            match write {
                Some(DbWrite::AddContact { owner, username, public_key_pem }) => {
                    assert_eq!(owner, "alice");
                    assert_eq!(username, "bob");
                    assert_eq!(public_key_pem, "<pem>");
                },
                other => panic!("unexpected write: {:?}", other),
            }
        },
        other => panic!("expected a query result, got {:?}", other),
    }
}

#[test]
fn query_scenario_carol_unparsable() {
    let mut h = registered("alice");
    h.query_user("carol");
    let step = h
        .handle_incoming(inc("queryResponse", Some("query"), Some(";;; not json ;;;")))
        .expect("response step");
    assert!(matches!(step, Step::QueryDone { result: None, write: None }));
}

#[test]
fn query_without_current_user_persists_nothing() {
    let mut h = MessageHandler::new();
    h.query_user("bob");
    let step = h
        .handle_incoming(inc(
            "queryResponse",
            Some("query"),
            Some("{\"username\":\"bob\",\"publicKey\":\"<pem>\"}"),
        ))
        .expect("response step");
    match step {
        Step::QueryDone { result, write } => {
            assert!(result.is_some());
            assert!(write.is_none());
        },
        other => panic!("expected a query result, got {:?}", other),
    }
}

#[test]
fn send_direct_message_signs_payload() {
    let h = registered("alice");
    let (write, sent) = h.send_direct_message("bob", "hello bob", 1_700_000_123);
    match write {
        DbWrite::SaveMessage { owner, contact, sent, text, ts } => {
            assert_eq!(owner, "alice");
            assert_eq!(contact, "bob");
            assert!(sent);
            assert_eq!(text, "hello bob");
            assert_eq!(ts, 1_700_000_123);
        },
        other => panic!("unexpected write: {:?}", other),
    }
    let outbound = sent.expect("outbound message");
    assert_eq!(outbound.recipient.as_deref(), Some("bob"));
    assert_eq!(outbound.envelope.action, "message");
    assert_eq!(outbound.envelope.context.as_deref(), Some("chat"));
    let payload = outbound.envelope.content.expect("payload");
    assert_eq!(
        payload,
        "{\"body\":\"hello bob\",\"recipient\":\"bob\",\"sender\":\"alice\"}"
    );
    let sig = hex_decode(&outbound.signature.expect("signature")).expect("hex");
    assert!(Crypto::verify(&h.public_key.clone().unwrap(), payload.as_bytes(), &sig));
}

#[test]
fn send_without_key_reports_missing_key_but_logs_intent() {
    let h = MessageHandler::new();
    let (write, sent) = h.send_direct_message("bob", "hi", 7);
    assert!(matches!(write, DbWrite::SaveMessage { sent: true, .. }));
    assert_eq!(sent.err(), Some(SessionError::NoLocalKey));
}

#[test]
fn drain_on_empty_stream_is_empty() {
    let h = registered("alice");
    let out = h.drain_incoming(Vec::new());
    assert!(out.messages.is_empty());
    assert!(out.writes.is_empty());
}

#[test]
fn drain_extracts_chat_messages() {
    let h = registered("alice");
    let batch = vec![
        inc(
            "incomingMessage",
            Some("chat"),
            Some("{\"sender\":\"bob\",\"body\":{\"encryptedPayload\":{\"ciphertext\":\"deadbeef\"}}}"),
        ),
        inc("queryResponse", Some("query"), Some("{}")),
        inc("incomingMessage", Some("chat"), Some("{\"sender\":\"carol\",\"note\":1}")),
        inc("incomingMessage", Some("chat"), Some("no sender here")),
    ];
    let out = h.drain_incoming(batch);
    assert_eq!(out.messages.len(), 2);
    assert_eq!(out.messages[0].0, "bob");
    assert_eq!(out.messages[0].1, "deadbeef");
    assert_eq!(out.messages[1].0, "carol");
    assert_eq!(out.messages[1].1, "{\"sender\":\"carol\",\"note\":1}");
    assert_eq!(out.writes.len(), 2);
    match &out.writes[0] {
        DbWrite::SaveMessage { owner, contact, sent, text, ts } => {
            assert_eq!(owner, "alice");
            assert_eq!(contact, "bob");
            assert!(!*sent);
            assert_eq!(text, "deadbeef");
            assert_eq!(*ts, 1_700_000_000);
        },
        other => panic!("unexpected write: {:?}", other),
    }
}

#[test]
fn drain_without_user_persists_nothing() {
    let h = MessageHandler::new();
    let batch = vec![inc(
        "incomingMessage",
        Some("chat"),
        Some("{\"sender\":\"bob\",\"body\":\"x\"}"),
    )];
    let out = h.drain_incoming(batch);
    assert_eq!(out.messages.len(), 1);
    assert!(out.writes.is_empty());
}

#[test]
fn cancel_aborted_registration_discards_keys() {
    let mut h = MessageHandler::new();
    h.register_user("alice").expect("start registration");
    assert!(h.private_key.is_some());
    h.cancel_flow();
    assert!(h.private_key.is_none());
    assert!(h.public_key.is_none());
    assert_eq!(h.current_user, None);
}

#[test]
fn cancel_login_keeps_keys() {
    let mut h = registered("alice");
    h.login_user("alice").expect("start login");
    h.cancel_flow();
    assert!(h.private_key.is_some());
    assert_eq!(h.current_user.as_deref(), Some("alice"));
}

#[test]
fn handshake_envelope_shape() {
    let h = registered("alice");
    let ob = h.send_handshake("bob");
    assert_eq!(ob.recipient.as_deref(), Some("bob"));
    assert_eq!(ob.envelope.action, "handshake");
    assert_eq!(ob.envelope.context.as_deref(), Some("chat"));
    assert!(ob.envelope.content.is_none());
    assert!(ob.signature.is_none());
}
