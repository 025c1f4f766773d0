use backconnectsocks5::socks5::{
    auth_message, client_start, client_step, request_message, server_step, ClientError,
    ClientStage, ClientStep, HandshakeError, ServerStage, ServerStep, SocksAddr,
};

/// Feeds `stream` to the accepting side stage after stage, as the connection
/// handler does; returns the outcome and the replies written.
fn drive(
    stream: &[u8],
    user: &str,
    pass: &str,
) -> (Option<Result<(SocksAddr, u16), HandshakeError>>, Vec<u8>) {
    let user = user.to_string();
    let pass = pass.to_string();
    let mut stage = ServerStage::Greeting;
    let mut pos = 0;
    let mut replies = Vec::new();
    loop {
        let n = stage.need();
        if pos + n > stream.len() {
            return (None, replies);
        }
        match server_step(&stage, &user, &pass, &stream[pos..pos + n]) {
            ServerStep::Next(next, reply) => {
                replies.extend_from_slice(&reply);
                stage = next;
                pos += n;
            }
            ServerStep::Done(addr, port) => return (Some(Ok((addr, port))), replies),
            ServerStep::Fail(e) => return (Some(Err(e)), replies),
        }
    }
}

fn sent_bytes(step: &ClientStep) -> Vec<u8> {
    match step {
        ClientStep::Send(b, _) => b.clone(),
        ClientStep::Finish(b) => b.clone(),
        ClientStep::Fail(_) => panic!("unexpected failure"),
    }
}

#[test]
fn anonymous_handshake_ipv4() {
    let stream = [5, 1, 0, 5, 1, 0, 1, 10, 0, 0, 7, 0x1f, 0x90];
    let (outcome, replies) = drive(&stream, "", "");
    assert_eq!(outcome, Some(Ok((SocksAddr::Ipv4(vec![10, 0, 0, 7]), 8080))));
    assert_eq!(replies, vec![5, 0]);
}

#[test]
fn anonymous_handshake_domain_and_ipv6() {
    let mut stream = vec![5, 2, 0, 1, 5, 1, 0, 3, 11];
    stream.extend_from_slice(b"example.com");
    stream.extend_from_slice(&[0, 80]);
    let (outcome, replies) = drive(&stream, "", "");
    assert_eq!(outcome, Some(Ok((SocksAddr::Domain(b"example.com".to_vec()), 80))));
    assert_eq!(replies, vec![5, 0]);

    let mut stream = vec![5, 1, 0, 5, 1, 0, 4];
    let ip: Vec<u8> = (1..=16).collect();
    stream.extend_from_slice(&ip);
    stream.extend_from_slice(&[1, 187]);
    let (outcome, _) = drive(&stream, "", "");
    assert_eq!(outcome, Some(Ok((SocksAddr::Ipv6(ip), 443))));
}

#[test]
fn authenticated_handshake_accepts_right_credentials() {
    let mut stream = vec![5, 2, 0, 2, 1, 4];
    stream.extend_from_slice(b"user");
    stream.push(6);
    stream.extend_from_slice(b"secret");
    stream.extend_from_slice(&[5, 1, 0, 1, 1, 2, 3, 4, 0, 22]);
    let (outcome, replies) = drive(&stream, "user", "secret");
    assert_eq!(outcome, Some(Ok((SocksAddr::Ipv4(vec![1, 2, 3, 4]), 22))));
    assert_eq!(replies, vec![5, 2, 1, 0]);
}

#[test]
fn authenticated_handshake_refuses_wrong_credentials() {
    let mut stream = vec![5, 1, 2, 1, 4];
    stream.extend_from_slice(b"user");
    stream.push(5);
    stream.extend_from_slice(b"wrong");
    let (outcome, replies) = drive(&stream, "user", "secret");
    assert_eq!(outcome, Some(Err(HandshakeError::AuthenticationFailed)));
    assert_eq!(replies, vec![5, 2]);

    let mut stream = vec![5, 1, 2, 1, 4];
    stream.extend_from_slice(b"eve!");
    let (outcome, _) = drive(&stream, "user", "secret");
    assert_eq!(outcome, Some(Err(HandshakeError::AuthenticationFailed)));

    let stream = [5, 1, 2, 1, 2, 0xff, 0xfe];
    let (outcome, _) = drive(&stream, "user", "secret");
    let expected = String::from_utf8(vec![0xff, 0xfe]).unwrap_err().to_string();
    match outcome {
        Some(Err(e)) => {
            assert_eq!(e.message(), expected);
            assert_eq!(e, HandshakeError::InvalidUtf8(expected));
        }
        other => panic!("{:?}", other),
    }
}

#[test]
fn handshake_errors() {
    assert_eq!(drive(&[4, 1], "", "").0, Some(Err(HandshakeError::UnexpectedVersion)));
    assert_eq!(drive(&[5, 0], "", "").0, Some(Err(HandshakeError::NoAuthMethods)));
    assert_eq!(
        drive(&[5, 1, 0], "user", "pw").0,
        Some(Err(HandshakeError::AuthMethodNotSupported))
    );
    assert_eq!(
        drive(&[5, 1, 0, 4, 1, 0, 1], "", "").0,
        Some(Err(HandshakeError::UnexpectedVersion))
    );
    assert_eq!(
        drive(&[5, 1, 0, 5, 2, 0, 1], "", "").0,
        Some(Err(HandshakeError::UnsupportedCommand))
    );
    assert_eq!(
        drive(&[5, 1, 0, 5, 1, 1, 1], "", "").0,
        Some(Err(HandshakeError::ReservedNotZero))
    );
    assert_eq!(
        drive(&[5, 1, 0, 5, 1, 0, 7], "", "").0,
        Some(Err(HandshakeError::UnsupportedAddressType(7)))
    );
    assert_eq!(drive(&[5, 1, 0, 5, 1, 0, 1, 1, 2], "", "").0, None);
}

#[test]
fn handshake_error_messages() {
    assert_eq!(HandshakeError::UnexpectedVersion.message(), "Unexpected socks version");
    assert_eq!(
        HandshakeError::NoAuthMethods.message(),
        "Got empty list of supported authentication methods"
    );
    assert_eq!(
        HandshakeError::AuthMethodNotSupported.message(),
        "Authentication method not supported"
    );
    assert_eq!(HandshakeError::AuthenticationFailed.message(), "Authentication failed");
    assert_eq!(
        HandshakeError::InvalidUtf8("bad bytes".to_string()).message(),
        "bad bytes"
    );
    assert_eq!(
        HandshakeError::UnsupportedCommand.message(),
        "Only tcp/ip stream connections are supported"
    );
    assert_eq!(HandshakeError::ReservedNotZero.message(), "Reserved field is not zero");
    assert_eq!(
        HandshakeError::UnsupportedAddressType(200).message(),
        "Unsupported address type: 200"
    );
    assert_eq!(
        HandshakeError::UnsupportedAddressType(0).message(),
        "Unsupported address type: 0"
    );
}

#[test]
fn address_text() {
    assert_eq!(SocksAddr::Ipv4(vec![127, 0, 0, 1]).to_string(), "127.0.0.1");
    assert_eq!(SocksAddr::Ipv4(vec![255, 10, 100, 9]).to_string(), "255.10.100.9");
    assert_eq!(
        SocksAddr::Domain(b"example.com".to_vec()).to_string(),
        "\"example.com\""
    );
    let mut v6 = vec![0x20, 0x01, 0x0d, 0xb8];
    v6.extend_from_slice(&[0; 11]);
    v6.push(0xab);
    assert_eq!(
        SocksAddr::Ipv6(v6.clone()).to_string(),
        "[2001:0DB8:0000:0000:0000:0000:0000:00AB]"
    );
    v6.push(0x77);
    assert_eq!(
        SocksAddr::Ipv6(v6).to_string(),
        "[2001:0DB8:0000:0000:0000:0000:0000:00AB]"
    );
    assert_eq!(SocksAddr::Ipv4(vec![1, 2, 3, 4, 5, 6]).to_string(), "1.2.3.4");
    let long = vec![b'a'; 300];
    let text = SocksAddr::Domain(long).to_string();
    assert_eq!(text.len(), 302);
    assert!(text.starts_with('"') && text.ends_with('"'));
}

#[test]
fn request_encoding() {
    assert_eq!(
        request_message(&SocksAddr::Ipv4(vec![10, 0, 0, 1]), 1080),
        vec![5, 1, 0, 1, 10, 0, 0, 1, 4, 56]
    );
    let mut expected = vec![5, 1, 0, 3, 3];
    expected.extend_from_slice(b"a.b");
    expected.extend_from_slice(&[0, 80]);
    assert_eq!(request_message(&SocksAddr::Domain(b"a.b".to_vec()), 80), expected);
    let v6 = vec![9u8; 16];
    let mut expected = vec![5, 1, 0, 4];
    expected.extend_from_slice(&v6);
    expected.extend_from_slice(&[0xff, 0xff]);
    assert_eq!(request_message(&SocksAddr::Ipv6(v6), 65535), expected);
}

#[test]
fn request_round_trip() {
    for (addr, port) in [
        (SocksAddr::Ipv4(vec![192, 168, 1, 20]), 1u16),
        (SocksAddr::Domain(b"proxy.internal".to_vec()), 3128),
        (SocksAddr::Domain(Vec::new()), 0),
        (SocksAddr::Ipv6(vec![7; 16]), 65000),
    ] {
        let mut stream = vec![5, 1, 0];
        stream.extend_from_slice(&request_message(&addr, port));
        let (outcome, replies) = drive(&stream, "", "");
        assert_eq!(outcome, Some(Ok((addr, port))));
        assert_eq!(replies, vec![5, 0]);
    }
}

#[test]
fn auth_message_bytes() {
    let msg = auth_message(&"bob".to_string(), &"pässword".to_string());
    let mut expected = vec![3];
    expected.extend_from_slice(b"bob");
    expected.push(9);
    expected.extend_from_slice("pässword".as_bytes());
    assert_eq!(msg, expected);
}

#[test]
fn client_anonymous() {
    let user = String::new();
    let pass = String::new();
    let start = client_start(&user);
    assert_eq!(sent_bytes(&start), vec![5, 1, 0]);
    let addr = SocksAddr::Ipv4(vec![1, 1, 1, 1]);
    match client_step(ClientStage::AwaitAnonymousReply, &[5, 0], &user, &pass, &addr, 53) {
        ClientStep::Finish(b) => assert_eq!(b, vec![5, 1, 0, 1, 1, 1, 1, 1, 0, 53]),
        other => panic!("{:?}", other),
    }
    match client_step(ClientStage::AwaitAnonymousReply, &[5, 2], &user, &pass, &addr, 53) {
        ClientStep::Fail(e) => {
            assert_eq!(e, ClientError::AnonymousRejected);
            assert_eq!(e.message(), "Proxy didn't accept anonymous auth");
        }
        other => panic!("{:?}", other),
    }
}

#[test]
fn client_authenticated() {
    let user = "u".to_string();
    let pass = "p".to_string();
    let addr = SocksAddr::Domain(b"x".to_vec());
    match client_start(&user) {
        ClientStep::Send(b, ClientStage::AwaitAuthSelection) => assert!(b.is_empty()),
        other => panic!("{:?}", other),
    }
    match client_step(ClientStage::AwaitAuthSelection, &[5, 2], &user, &pass, &addr, 1) {
        ClientStep::Send(b, ClientStage::AwaitAuthReply) => {
            assert_eq!(b, vec![1, b'u', 1, b'p'])
        }
        other => panic!("{:?}", other),
    }
    match client_step(ClientStage::AwaitAuthSelection, &[5, 0], &user, &pass, &addr, 1) {
        ClientStep::Fail(e) => assert_eq!(e.message(), "Proxy didn't accept auth"),
        other => panic!("{:?}", other),
    }
    match client_step(ClientStage::AwaitAuthReply, &[1, 0], &user, &pass, &addr, 1) {
        ClientStep::Finish(b) => assert_eq!(b, vec![5, 1, 0, 3, 1, b'x', 0, 1]),
        other => panic!("{:?}", other),
    }
    match client_step(ClientStage::AwaitAuthReply, &[1, 1], &user, &pass, &addr, 1) {
        ClientStep::Fail(e) => assert_eq!(e.message(), "Failed to handshake"),
        other => panic!("{:?}", other),
    }
}

#[test]
fn client_and_server_agree_anonymously() {
    let user = String::new();
    let pass = String::new();
    let addr = SocksAddr::Domain(b"upstream.example".to_vec());
    let mut wire = sent_bytes(&client_start(&user));
    let reply = [5, 0];
    let request = sent_bytes(&client_step(
        ClientStage::AwaitAnonymousReply,
        &reply,
        &user,
        &pass,
        &addr,
        9050,
    ));
    wire.extend_from_slice(&request);
    let (outcome, replies) = drive(&wire, "", "");
    assert_eq!(replies, reply.to_vec());
    assert_eq!(outcome, Some(Ok((addr, 9050))));
}
