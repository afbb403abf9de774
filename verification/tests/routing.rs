use sip_proxy::error::RouteError;
use sip_proxy::message::Outbound;
use sip_proxy::proxy::Proxy;

fn register_msg(user: &str, contact: &str, via: &str) -> Vec<u8> {
    format!(
        "REGISTER sip:proxy SIP/2.0\r\n\
         Via: SIP/2.0/UDP {via}\r\n\
         Max-Forwards: 70\r\n\
         From: <sip:{user}@proxy>;tag=a1\r\n\
         To: <sip:{user}@proxy>\r\n\
         Call-ID: call-{user}\r\n\
         CSeq: 1 REGISTER\r\n\
         Contact: <{contact}>\r\n\
         Content-Length: 0\r\n\r\n"
    )
    .into_bytes()
}

fn invite_msg(user: &str, via: &str) -> Vec<u8> {
    format!(
        "INVITE sip:{user}@proxy SIP/2.0\r\n\
         Via: SIP/2.0/UDP {via}\r\n\
         Max-Forwards: 70\r\n\
         From: <sip:caller@elsewhere>;tag=b2\r\n\
         To: <sip:{user}@proxy>\r\n\
         Call-ID: call-invite-{user}\r\n\
         CSeq: 1 INVITE\r\n\
         Content-Length: 0\r\n\r\n"
    )
    .into_bytes()
}

#[test]
fn register_records_contact() {
    let mut proxy = Proxy::new();
    let out = proxy
        .process_message(&register_msg("alice", "sip:alice@10.0.0.5:5060", "1.2.3.4:5062"))
        .expect("REGISTER should be acknowledged");
    let contact = proxy.lookup("alice").expect("alice should be registered");
    assert_eq!(contact.host, "10.0.0.5");
    assert_eq!(contact.port, Some(5060));
    assert_eq!(contact.user.as_deref(), Some("alice"));
    match out {
        Outbound::Response { dest, status, .. } => {
            assert_eq!(status, 200);
            assert_eq!(dest.host, "1.2.3.4");
            assert_eq!(dest.port, Some(5062));
        }
        _ => panic!("REGISTER must yield a response, not a forwarded request"),
    }
}

#[test]
fn register_ack_echoes_headers() {
    let mut proxy = Proxy::new();
    let out = proxy
        .process_message(&register_msg("alice", "sip:alice@10.0.0.5:5060", "1.2.3.4:5062"))
        .expect("REGISTER should be acknowledged");
    let wire = out.serialize();
    assert!(wire.starts_with("SIP/2.0 200 OK\r\n"), "got: {wire}");
    assert!(wire.contains("Via: SIP/2.0/UDP 1.2.3.4:5062\r\n"));
    assert!(wire.contains("To: <sip:alice@proxy>\r\n"));
    assert!(wire.contains("From: <sip:alice@proxy>;tag=a1\r\n"));
    assert!(wire.contains("Call-ID: call-alice\r\n"));
    assert!(wire.contains("Contact: <sip:alice@10.0.0.5:5060>\r\n"));
    assert!(wire.ends_with("\r\n\r\n"), "ack body must be empty, got: {wire}");
}

#[test]
fn register_twice_overwrites() {
    let mut proxy = Proxy::new();
    proxy
        .process_message(&register_msg("alice", "sip:alice@10.0.0.5:5060", "1.2.3.4:5062"))
        .expect("first REGISTER");
    proxy
        .process_message(&register_msg("alice", "sip:alice@10.0.0.6:5066", "1.2.3.4:5062"))
        .expect("second REGISTER");
    let contact = proxy.lookup("alice").expect("alice should be registered");
    assert_eq!(contact.host, "10.0.0.6");
    assert_eq!(contact.port, Some(5066));
}

#[test]
fn invite_forwarded_to_registered_contact() {
    let mut proxy = Proxy::new();
    proxy
        .process_message(&register_msg("alice", "sip:alice@10.0.0.5:5060", "1.2.3.4:5062"))
        .expect("REGISTER");
    let out = proxy
        .process_message(&invite_msg("alice", "9.9.9.9:5090"))
        .expect("INVITE for a registered user should be forwarded");
    match &out {
        Outbound::Request { dest, method, uri, .. } => {
            assert_eq!(method, "INVITE");
            assert_eq!(dest.host, "10.0.0.5");
            assert_eq!(dest.port, Some(5060));
            assert_eq!(uri.host, "10.0.0.5");
            assert_eq!(uri.port, Some(5060));
        }
        _ => panic!("INVITE for a registered user must yield a forwarded request"),
    }
    let wire = out.serialize();
    assert!(wire.starts_with("INVITE sip:alice@10.0.0.5:5060 SIP/2.0\r\n"), "got: {wire}");
    assert!(wire.contains("Via: SIP/2.0/UDP 9.9.9.9:5090\r\n"));
    assert!(wire.contains("From: <sip:caller@elsewhere>;tag=b2\r\n"));
    assert!(wire.contains("To: <sip:alice@proxy>\r\n"));
}

#[test]
fn invite_for_unknown_user_rejected_with_404() {
    let mut proxy = Proxy::new();
    let out = proxy
        .process_message(&invite_msg("bob", "1.2.3.4:5062"))
        .expect("INVITE for an unknown user should yield a 404");
    match &out {
        Outbound::Response { dest, status, .. } => {
            assert_eq!(*status, 404);
            assert_eq!(dest.host, "1.2.3.4");
            assert_eq!(dest.port, Some(5062));
        }
        _ => panic!("INVITE for an unknown user must yield a response"),
    }
    let wire = out.serialize();
    assert!(wire.starts_with("SIP/2.0 404 NotFound\r\n"), "got: {wire}");
    assert!(wire.contains("To: <sip:bob@proxy>\r\n"));
    assert!(wire.ends_with("\r\n\r\n"), "404 body must be empty, got: {wire}");
}

#[test]
fn response_forwarded_to_its_via_address() {
    let proxy = Proxy::new();
    let msg = "SIP/2.0 180 Ringing\r\n\
               Via: SIP/2.0/UDP 10.0.0.9:5080;branch=z9hG4bK77\r\n\
               From: <sip:caller@elsewhere>;tag=b2\r\n\
               To: <sip:alice@proxy>;tag=c3\r\n\
               Call-ID: call-x\r\n\
               CSeq: 1 INVITE\r\n\
               Content-Length: 0\r\n\r\n";
    let out = {
        let mut p = proxy;
        p.process_message(msg.as_bytes()).expect("a response with a Via is forwarded")
    };
    match &out {
        Outbound::Response { dest, status, .. } => {
            assert_eq!(*status, 180);
            assert_eq!(dest.host, "10.0.0.9");
            assert_eq!(dest.port, Some(5080));
        }
        _ => panic!("a response stays a response"),
    }
    let wire = out.serialize();
    assert!(wire.starts_with("SIP/2.0 180 Ringing\r\n"), "got: {wire}");
    assert!(wire.contains("Via: SIP/2.0/UDP 10.0.0.9:5080;branch=z9hG4bK77\r\n"));
    assert!(wire.contains("To: <sip:alice@proxy>;tag=c3\r\n"));
}

#[test]
fn malformed_datagram_is_dropped_and_loop_goes_on() {
    let mut proxy = Proxy::new();
    proxy
        .process_message(&register_msg("alice", "sip:alice@10.0.0.5:5060", "1.2.3.4:5062"))
        .expect("REGISTER");
    let err = proxy.process_message(b"not a sip message at all").unwrap_err();
    assert_eq!(err, RouteError::Unparseable);
    // the registry is untouched and the next datagram is processed normally
    assert!(proxy.lookup("alice").is_some());
    let out = proxy
        .process_message(&invite_msg("alice", "9.9.9.9:5090"))
        .expect("the proxy keeps working after a malformed datagram");
    assert!(matches!(out, Outbound::Request { .. }));
}

#[test]
fn register_without_contact_is_an_error() {
    let mut proxy = Proxy::new();
    let msg = "REGISTER sip:proxy SIP/2.0\r\n\
               Via: SIP/2.0/UDP 1.2.3.4:5062\r\n\
               From: <sip:alice@proxy>;tag=a1\r\n\
               To: <sip:alice@proxy>\r\n\
               Call-ID: call-1\r\n\
               CSeq: 1 REGISTER\r\n\
               Content-Length: 0\r\n\r\n";
    let err = proxy.process_message(msg.as_bytes()).unwrap_err();
    assert_eq!(err, RouteError::MissingContact);
    assert!(proxy.lookup("alice").is_none());
}

#[test]
fn request_without_user_part_is_an_error() {
    let mut proxy = Proxy::new();
    let msg = "INVITE sip:proxy SIP/2.0\r\n\
               Via: SIP/2.0/UDP 1.2.3.4:5062\r\n\
               From: <sip:caller@elsewhere>;tag=b2\r\n\
               To: <sip:proxy>\r\n\
               Call-ID: call-2\r\n\
               CSeq: 1 INVITE\r\n\
               Content-Length: 0\r\n\r\n";
    let err = proxy.process_message(msg.as_bytes()).unwrap_err();
    assert_eq!(err, RouteError::MissingUser);
}

#[test]
fn request_without_to_header_is_an_error() {
    let mut proxy = Proxy::new();
    let msg = "INVITE sip:alice@proxy SIP/2.0\r\n\
               Via: SIP/2.0/UDP 1.2.3.4:5062\r\n\
               From: <sip:caller@elsewhere>;tag=b2\r\n\
               Call-ID: call-3\r\n\
               CSeq: 1 INVITE\r\n\
               Content-Length: 0\r\n\r\n";
    let err = proxy.process_message(msg.as_bytes()).unwrap_err();
    assert_eq!(err, RouteError::MissingTarget);
}

#[test]
fn response_without_via_is_an_error() {
    let mut proxy = Proxy::new();
    let msg = "SIP/2.0 200 OK\r\n\
               From: <sip:caller@elsewhere>;tag=b2\r\n\
               To: <sip:alice@proxy>;tag=c3\r\n\
               Call-ID: call-4\r\n\
               CSeq: 1 INVITE\r\n\
               Content-Length: 0\r\n\r\n";
    let err = proxy.process_message(msg.as_bytes()).unwrap_err();
    assert_eq!(err, RouteError::MissingVia);
}

#[test]
fn register_without_via_still_registers_but_reports_the_missing_via() {
    let mut proxy = Proxy::new();
    let msg = "REGISTER sip:proxy SIP/2.0\r\n\
               From: <sip:alice@proxy>;tag=a1\r\n\
               To: <sip:alice@proxy>\r\n\
               Call-ID: call-5\r\n\
               CSeq: 1 REGISTER\r\n\
               Contact: <sip:alice@10.0.0.5:5060>\r\n\
               Content-Length: 0\r\n\r\n";
    let err = proxy.process_message(msg.as_bytes()).unwrap_err();
    assert_eq!(err, RouteError::MissingVia);
    // the registry was written before the acknowledgment was routed
    let contact = proxy.lookup("alice").expect("alice should be registered");
    assert_eq!(contact.host, "10.0.0.5");
}

#[test]
fn error_messages_name_the_reason() {
    assert_eq!(
        RouteError::Unparseable.message(),
        "message is neither a SIP request nor a SIP response"
    );
    assert_eq!(RouteError::MissingVia.message(), "message has no readable Via URI");
}
