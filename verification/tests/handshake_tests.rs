use gateway_handshake::HandshakeError;
use gateway_handshake::check_version;
use gateway_handshake::config::endpoint_from_parts;
use gateway_handshake::config::endpoint_from_url;
use gateway_handshake::context::Context;
use gateway_handshake::handshake::Action;
use gateway_handshake::handshake::Event;
use gateway_handshake::handshake::Handshake;
use gateway_handshake::handshake::ServiceKind;

fn registered_context(local: &str, remote: &str, gateway_url: &str) -> Context {
    let mut h = Handshake::new(String::from(local), gateway_url).unwrap();
    assert_eq!(h.next_action(), Action::Connect);
    h.step(Event::ConnectSucceeded);
    assert_eq!(h.next_action(), Action::SendVersion);
    assert_eq!(h.version_request().unwrap(), local);
    h.step(Event::VersionReply(String::from(remote)));
    assert_eq!(h.next_action(), Action::Register);
    h.step(Event::RegisterAcknowledged);
    assert_eq!(h.next_action(), Action::Complete);
    let client = h.complete().unwrap_or_else(|_| panic!("handshake failed"));
    Context::new(client)
}

#[test]
fn errors_carry_their_messages() {
    assert_eq!(
        HandshakeError::ConfigurationError.message(),
        "missing or malformed configuration"
    );
    assert_eq!(
        HandshakeError::ConnectionError.message(),
        "failed to reach the discovery service"
    );
    assert_eq!(HandshakeError::VersionMismatchError.message(), "mismatched version");
    assert_eq!(HandshakeError::RegistrationError.message(), "registration rejected");
}

#[test]
fn version_negotiation_is_exact_equality() {
    assert!(check_version(&String::from("1.0.0"), &String::from("1.0.0")));
    assert!(!check_version(&String::from("1.0.0"), &String::from("1.0.1")));
    assert!(!check_version(&String::from("1.0.0"), &String::from("1.0.0 ")));
    assert!(!check_version(&String::from("1.0.0"), &String::from("")));
    assert!(check_version(&String::from(""), &String::from("")));
}

#[test]
fn mismatched_version_fails_negotiation() {
    let mut h = Handshake::new(String::from("1.0.0"), "http://10.0.0.5:9000").unwrap();
    h.step(Event::ConnectSucceeded);
    h.step(Event::VersionReply(String::from("2.0.0")));
    assert_eq!(
        h.next_action(),
        Action::Abort(HandshakeError::VersionMismatchError)
    );
}

#[test]
fn registration_never_attempted_after_mismatch() {
    let mut h = Handshake::new(String::from("1.0.0"), "http://10.0.0.5:9000").unwrap();
    h.step(Event::ConnectSucceeded);
    assert!(h.register_request().is_none());
    h.step(Event::VersionReply(String::from("1.0.1")));
    // The registration payload is withheld, now and after any later event.
    assert!(h.register_request().is_none());
    h.step(Event::RegisterAcknowledged);
    assert!(h.register_request().is_none());
    assert_eq!(
        h.next_action(),
        Action::Abort(HandshakeError::VersionMismatchError)
    );
}

#[test]
fn unreachable_discovery_fails_with_connection_error() {
    let mut h = Handshake::new(String::from("1.0.0"), "http://10.0.0.5:9000").unwrap();
    h.step(Event::ConnectFailed);
    assert_eq!(
        h.next_action(),
        Action::Abort(HandshakeError::ConnectionError)
    );
    // The handshake never reaches the registered phase, so no client handle
    // exists and the shared context cannot be constructed.
    match h.complete() {
        Err(e) => assert_eq!(e, HandshakeError::ConnectionError),
        Ok(_) => panic!("a failed handshake must not yield a client handle"),
    }
}

#[test]
fn version_rpc_failure_is_a_connection_error() {
    let mut h = Handshake::new(String::from("1.0.0"), "http://10.0.0.5:9000").unwrap();
    h.step(Event::ConnectSucceeded);
    h.step(Event::VersionRpcFailed);
    assert_eq!(
        h.next_action(),
        Action::Abort(HandshakeError::ConnectionError)
    );
}

#[test]
fn rejected_registration_is_a_registration_error() {
    let mut h = Handshake::new(String::from("1.0.0"), "http://10.0.0.5:9000").unwrap();
    h.step(Event::ConnectSucceeded);
    h.step(Event::VersionReply(String::from("1.0.0")));
    h.step(Event::RegisterFailed);
    assert_eq!(
        h.next_action(),
        Action::Abort(HandshakeError::RegistrationError)
    );
    match h.complete() {
        Err(e) => assert_eq!(e, HandshakeError::RegistrationError),
        Ok(_) => panic!("a rejected registration must not yield a client handle"),
    }
}

#[test]
fn gateway_url_without_port_is_a_configuration_error() {
    let r = Handshake::new(String::from("1.0.0"), "http://10.0.0.5");
    match r {
        Err(e) => assert_eq!(e, HandshakeError::ConfigurationError),
        Ok(_) => panic!("a gateway URL without a port must be rejected"),
    }
}

#[test]
fn malformed_gateway_url_is_a_configuration_error() {
    match Handshake::new(String::from("1.0.0"), "not a url") {
        Err(e) => assert_eq!(e, HandshakeError::ConfigurationError),
        Ok(_) => panic!("a malformed gateway URL must be rejected"),
    }
    match Handshake::new(String::from("1.0.0"), "unix:/run/gateway.socket") {
        Err(e) => assert_eq!(e, HandshakeError::ConfigurationError),
        Ok(_) => panic!("a gateway URL without a host must be rejected"),
    }
}

#[test]
fn endpoint_is_parsed_from_the_url() {
    let a = endpoint_from_url("https://gateway.example.net:8443/inner?x=1").unwrap();
    assert_eq!(a.host, "gateway.example.net");
    assert_eq!(a.port, 8443);
    // A scheme-default port is not an explicit one.
    assert!(endpoint_from_url("https://gateway.example.net").is_err());
}

#[test]
fn endpoint_parts_are_validated() {
    let a = endpoint_from_parts(Some((Some(String::from("10.0.0.5")), Some(9000)))).unwrap();
    assert_eq!(a.host, "10.0.0.5");
    assert_eq!(a.port, 9000);
    assert!(endpoint_from_parts(Some((Some(String::from("10.0.0.5")), None))).is_err());
    assert!(endpoint_from_parts(Some((None, Some(9000)))).is_err());
    assert!(endpoint_from_parts(Some((Some(String::new()), Some(9000)))).is_err());
    assert!(endpoint_from_parts(None).is_err());
}

#[test]
fn successful_handshake_registers_the_descriptor() {
    let mut h = Handshake::new(String::from("1.0.0"), "http://10.0.0.5:9000").unwrap();
    h.step(Event::ConnectSucceeded);
    h.step(Event::VersionReply(String::from("1.0.0")));
    let q = h.register_request().unwrap();
    assert_eq!(q.kind, ServiceKind::Gateway);
    assert_eq!(q.address, "10.0.0.5");
    assert_eq!(q.port, 9000);
    h.step(Event::RegisterAcknowledged);
    let client = h.complete().unwrap_or_else(|_| panic!("handshake failed"));
    let context = Context::new(client);
    let reader = context.acquire_read();
    assert_eq!(reader.borrow().descriptor_ref().address.host, "10.0.0.5");
    assert_eq!(reader.borrow().descriptor_ref().address.port, 9000);
    reader.release_read();
}

#[test]
fn mismatch_scenario_ends_without_registration() {
    let mut h = Handshake::new(String::from("1.0.0"), "http://10.0.0.5:9000").unwrap();
    h.step(Event::ConnectSucceeded);
    h.step(Event::VersionReply(String::from("1.0.1")));
    assert!(h.register_request().is_none());
    match h.complete() {
        Err(e) => assert_eq!(e, HandshakeError::VersionMismatchError),
        Ok(_) => panic!("a version mismatch must not yield a client handle"),
    }
}

#[test]
fn concurrent_readers_share_the_context() {
    let context = registered_context("1.0.0", "1.0.0", "http://10.0.0.5:9000");
    // Several read handles are held at the same time: acquiring one does not
    // require releasing another, and each observes the registered handle.
    let r1 = context.acquire_read();
    let r2 = context.acquire_read();
    let r3 = context.acquire_read();
    assert_eq!(r1.borrow().descriptor_ref().address.host, "10.0.0.5");
    assert_eq!(r2.borrow().descriptor_ref().address.host, "10.0.0.5");
    assert_eq!(r3.borrow().descriptor_ref().address.port, 9000);
    r1.release_read();
    r2.release_read();
    r3.release_read();
}

#[test]
fn writer_replaces_the_handle_for_later_readers() {
    let context = registered_context("1.0.0", "1.0.0", "http://10.0.0.5:9000");
    let other = registered_context("1.0.0", "1.0.0", "http://10.0.0.6:9001");
    let replacement = {
        let reader = other.acquire_read();
        let descriptor_host = reader.borrow().descriptor_ref().address.host.clone();
        reader.release_read();
        assert_eq!(descriptor_host, "10.0.0.6");
        // Build a second registered handle through the pipeline.
        let mut h = Handshake::new(String::from("1.0.0"), "http://10.0.0.6:9001").unwrap();
        h.step(Event::ConnectSucceeded);
        h.step(Event::VersionReply(String::from("1.0.0")));
        h.step(Event::RegisterAcknowledged);
        h.complete().unwrap_or_else(|_| panic!("handshake failed"))
    };
    let previous = context.replace(replacement);
    assert_eq!(previous.descriptor_ref().address.host, "10.0.0.5");
    let reader = context.acquire_read();
    assert_eq!(reader.borrow().descriptor_ref().address.host, "10.0.0.6");
    reader.release_read();
}
