//! What the two sides of the SOCKS5 handshake guarantee together.
use vstd::prelude::*;
use vstd::utf8::*;
use crate::socks5::{
    auth_bytes, client_start_spec, client_step_spec, credential_result, port_bytes, port_of,
    request_bytes, server_run, ClientStage, ClientStepSpec, HandshakeFault, ServerRun, StageSpec,
    TargetAddr, AddrKind, after_replies, server_step_spec, StepSpec, ClientError,
};

verus! {

broadcast use vstd::seq_lib::group_seq_properties;

/// The port bytes in network order carry the port.
pub proof fn lemma_port_bytes(port: u16)
    ensures
        port_of(port_bytes(port)[0], port_bytes(port)[1]) == port,
        port_bytes(port).len() == 2,
{
}

/// A request that the connecting side encodes is read back by the accepting
/// side, from its request stage on, as the same target and port, whatever
/// follows it on the connection; no reply is written meanwhile.
pub proof fn lemma_request_round_trip(
    user: Seq<char>,
    pass: Seq<char>,
    addr: TargetAddr,
    port: u16,
    rest: Seq<u8>,
)
    requires
        addr.wf(),
    ensures
        server_run(StageSpec::Request, user, pass, request_bytes(addr, port) + rest)
            == ServerRun::Done(addr, port, seq![]),
{
    let s = request_bytes(addr, port) + rest;
    let pb = port_bytes(port);
    lemma_port_bytes(port);
    let s_port = pb + rest;
    assert(s_port.take(2) =~= pb);
    assert(server_run(StageSpec::Port(addr), user, pass, s_port) == ServerRun::Done(
        addr,
        port,
        seq![],
    ));
    match addr {
        TargetAddr::Ipv4(b) => {
            assert(s.take(4) =~= seq![5u8, 1u8, 0u8, 1u8]);
            let s1 = s.skip(4);
            assert(s1 =~= b + s_port);
            assert(s1.take(4) =~= b);
            assert(s1.skip(4) =~= s_port);
            assert(server_run(StageSpec::Address(AddrKind::Ipv4, 4), user, pass, s1)
                == ServerRun::Done(addr, port, seq![]));
        },
        TargetAddr::Ipv6(b) => {
            assert(s.take(4) =~= seq![5u8, 1u8, 0u8, 4u8]);
            let s1 = s.skip(4);
            assert(s1 =~= b + s_port);
            assert(s1.take(16) =~= b);
            assert(s1.skip(16) =~= s_port);
            assert(server_run(StageSpec::Address(AddrKind::Ipv6, 16), user, pass, s1)
                == ServerRun::Done(addr, port, seq![]));
        },
        TargetAddr::Domain(b) => {
            let len = (b.len() % 256) as u8;
            assert(len == b.len());
            assert(s.take(4) =~= seq![5u8, 1u8, 0u8, 3u8]);
            let s1 = s.skip(4);
            assert(s1 =~= seq![len] + b + s_port);
            assert(s1.take(1) =~= seq![len]);
            let s2 = s1.skip(1);
            assert(s2 =~= b + s_port);
            assert(s2.take(len as int) =~= b);
            assert(s2.skip(len as int) =~= s_port);
            assert(server_run(StageSpec::Address(AddrKind::Domain, len), user, pass, s2)
                == ServerRun::Done(addr, port, seq![]));
            assert(server_run(StageSpec::DomainLen, user, pass, s1) == ServerRun::Done(
                addr,
                port,
                seq![],
            ));
        },
    }
}

/// Without configured credentials, the connecting side's greeting and
/// request complete the accepting side's handshake for the same target,
/// with the one reply `[5, 0]`; and on that reply the connecting side sends
/// exactly that request.
pub proof fn lemma_anonymous_handshake(
    user: Seq<char>,
    pass: Seq<char>,
    addr: TargetAddr,
    port: u16,
    rest: Seq<u8>,
)
    requires
        user.len() == 0,
        addr.wf(),
    ensures
        client_start_spec(user) == ClientStepSpec::Send(
            seq![5u8, 1u8, 0u8],
            ClientStage::AwaitAnonymousReply,
        ),
        server_run(
            StageSpec::Greeting,
            user,
            pass,
            seq![5u8, 1u8, 0u8] + request_bytes(addr, port) + rest,
        ) == ServerRun::Done(addr, port, seq![5u8, 0u8]),
        client_step_spec(ClientStage::AwaitAnonymousReply, seq![5u8, 0u8], user, pass, addr, port)
            == ClientStepSpec::Finish(request_bytes(addr, port)),
{
    let req = request_bytes(addr, port) + rest;
    let s = seq![5u8, 1u8, 0u8] + request_bytes(addr, port) + rest;
    assert(s =~= seq![5u8, 1u8, 0u8] + req);
    assert(s.take(2) =~= seq![5u8, 1u8]);
    let s1 = s.skip(2);
    assert(s1 =~= seq![0u8] + req);
    assert(s1.take(1) =~= seq![0u8]);
    assert(s1.skip(1) =~= req);
    lemma_request_round_trip(user, pass, addr, port, rest);
    assert(seq![5u8, 0u8] + seq![] =~= seq![5u8, 0u8]);
    assert(server_run(StageSpec::Methods(1), user, pass, s1) == ServerRun::Done(
        addr,
        port,
        seq![5u8, 0u8],
    ));
    assert(seq![] + seq![5u8, 0u8] =~= seq![5u8, 0u8]);
}

/// The bytes of a credential in a username/password sub-negotiation:
/// one byte of length, then the bytes.
pub open spec fn framed(bytes: Seq<u8>) -> Seq<u8> {
    seq![bytes.len() as u8] + bytes
}

/// What the accepting side does from the password stage on.
spec fn password_outcome(pass: Seq<char>, pass_bytes: Seq<u8>, addr: TargetAddr, port: u16) -> ServerRun {
    match credential_result(pass, pass_bytes) {
        Err(e) => ServerRun::Failed(e, seq![]),
        Ok(_) => ServerRun::Done(addr, port, seq![1u8, 0u8]),
    }
}

/// What the accepting side does from the username stage on.
spec fn credentials_outcome(
    user: Seq<char>,
    pass: Seq<char>,
    user_bytes: Seq<u8>,
    pass_bytes: Seq<u8>,
    addr: TargetAddr,
    port: u16,
) -> ServerRun {
    match credential_result(user, user_bytes) {
        Err(e) => ServerRun::Failed(e, seq![]),
        Ok(_) => password_outcome(pass, pass_bytes, addr, port),
    }
}

proof fn lemma_password_stages(
    user: Seq<char>,
    pass: Seq<char>,
    pass_bytes: Seq<u8>,
    addr: TargetAddr,
    port: u16,
    rest: Seq<u8>,
)
    requires
        pass_bytes.len() <= 255,
        addr.wf(),
    ensures
        server_run(StageSpec::PasswordLen, user, pass, framed(pass_bytes) + request_bytes(addr, port) + rest)
            == password_outcome(pass, pass_bytes, addr, port),
{
    let req = request_bytes(addr, port) + rest;
    let plen = pass_bytes.len() as u8;
    assert(plen == pass_bytes.len());
    let after_pass = pass_bytes + req;
    let s = framed(pass_bytes) + request_bytes(addr, port) + rest;
    assert(s =~= seq![plen] + after_pass);
    lemma_request_round_trip(user, pass, addr, port, rest);
    assert(after_pass.take(plen as int) =~= pass_bytes);
    assert(after_pass.skip(plen as int) =~= req);
    assert(seq![1u8, 0u8] + Seq::<u8>::empty() =~= seq![1u8, 0u8]);
    assert(server_run(StageSpec::Password(plen), user, pass, after_pass)
        == password_outcome(pass, pass_bytes, addr, port));
    assert(s.take(1) =~= seq![plen]);
    assert(s.skip(1) =~= after_pass);
    assert(Seq::<u8>::empty() + seq![1u8, 0u8] =~= seq![1u8, 0u8]);
    assert(Seq::<u8>::empty() + Seq::<u8>::empty() =~= Seq::<u8>::empty());
}

proof fn lemma_username_stages(
    user: Seq<char>,
    pass: Seq<char>,
    version: u8,
    user_bytes: Seq<u8>,
    pass_bytes: Seq<u8>,
    addr: TargetAddr,
    port: u16,
    rest: Seq<u8>,
)
    requires
        user_bytes.len() <= 255,
        pass_bytes.len() <= 255,
        addr.wf(),
    ensures
        server_run(
            StageSpec::AuthHeader,
            user,
            pass,
            seq![version] + framed(user_bytes) + framed(pass_bytes) + request_bytes(addr, port) + rest,
        ) == credentials_outcome(user, pass, user_bytes, pass_bytes, addr, port),
{
    let ulen = user_bytes.len() as u8;
    assert(ulen == user_bytes.len());
    let after_plen = framed(pass_bytes) + request_bytes(addr, port) + rest;
    lemma_password_stages(user, pass, pass_bytes, addr, port, rest);
    let after_user = user_bytes + after_plen;
    assert(after_user.take(ulen as int) =~= user_bytes);
    assert(after_user.skip(ulen as int) =~= after_plen);
    let outcome = password_outcome(pass, pass_bytes, addr, port);
    assert(after_replies(Seq::<u8>::empty(), outcome) == outcome) by {
        assert(Seq::<u8>::empty() + seq![1u8, 0u8] =~= seq![1u8, 0u8]);
        assert(Seq::<u8>::empty() + Seq::<u8>::empty() =~= Seq::<u8>::empty());
    }
    assert(server_run(StageSpec::Username(ulen), user, pass, after_user)
        == credentials_outcome(user, pass, user_bytes, pass_bytes, addr, port));
    let s = seq![version] + framed(user_bytes) + framed(pass_bytes) + request_bytes(addr, port) + rest;
    assert(s =~= seq![version, ulen] + after_user);
    assert(s.take(2) =~= seq![version, ulen]);
    assert(s.skip(2) =~= after_user);
    let c = credentials_outcome(user, pass, user_bytes, pass_bytes, addr, port);
    assert(after_replies(Seq::<u8>::empty(), c) == c) by {
        assert(Seq::<u8>::empty() + seq![1u8, 0u8] =~= seq![1u8, 0u8]);
        assert(Seq::<u8>::empty() + Seq::<u8>::empty() =~= Seq::<u8>::empty());
    }
}

/// With configured credentials, a client that offers username/password
/// authentication among its methods and then sends a username and a
/// password is answered by the credential checks: the first check that
/// fails refuses the handshake (after the method selection reply
/// `[5, 2]`); when both pass, the request that follows completes it for its
/// target, with the replies `[5, 2]` and `[1, 0]`.
pub proof fn lemma_authenticated_handshake(
    user: Seq<char>,
    pass: Seq<char>,
    methods: Seq<u8>,
    version: u8,
    user_bytes: Seq<u8>,
    pass_bytes: Seq<u8>,
    addr: TargetAddr,
    port: u16,
    rest: Seq<u8>,
)
    requires
        user.len() > 0,
        0 < methods.len() <= 255,
        methods.contains(2u8),
        user_bytes.len() <= 255,
        pass_bytes.len() <= 255,
        addr.wf(),
    ensures
        server_run(
            StageSpec::Greeting,
            user,
            pass,
            seq![5u8, methods.len() as u8] + methods + seq![version] + framed(user_bytes) + framed(
                pass_bytes,
            ) + request_bytes(addr, port) + rest,
        ) == (match (credential_result(user, user_bytes), credential_result(pass, pass_bytes)) {
            (Err(e), _) => ServerRun::Failed(e, seq![5u8, 2u8]),
            (Ok(_), Err(e)) => ServerRun::Failed(e, seq![5u8, 2u8]),
            (Ok(_), Ok(_)) => ServerRun::Done(addr, port, seq![5u8, 2u8, 1u8, 0u8]),
        }),
{
    let n = methods.len() as u8;
    assert(n == methods.len());
    let tail = seq![version] + framed(user_bytes) + framed(pass_bytes) + request_bytes(addr, port)
        + rest;
    lemma_methods_stage(user, pass, methods, version, user_bytes, pass_bytes, addr, port, rest);
    let c = credentials_outcome(user, pass, user_bytes, pass_bytes, addr, port);
    let after_methods = methods + tail;
    let s = seq![5u8, methods.len() as u8] + methods + seq![version] + framed(user_bytes) + framed(
        pass_bytes,
    ) + request_bytes(addr, port) + rest;
    assert(s =~= seq![5u8, n] + after_methods);
    assert(s.take(2) =~= seq![5u8, n]);
    assert(s.skip(2) =~= after_methods);
    let r = after_replies(seq![5u8, 2u8], c);
    assert(server_run(StageSpec::Greeting, user, pass, s) == after_replies(Seq::<u8>::empty(), r));
    lemma_prefixed_outcome(user, pass, user_bytes, pass_bytes, addr, port);
}

proof fn lemma_prefixed_outcome(
    user: Seq<char>,
    pass: Seq<char>,
    user_bytes: Seq<u8>,
    pass_bytes: Seq<u8>,
    addr: TargetAddr,
    port: u16,
)
    ensures
        after_replies(
            Seq::<u8>::empty(),
            after_replies(seq![5u8, 2u8], credentials_outcome(user, pass, user_bytes, pass_bytes, addr, port)),
        ) == (match (credential_result(user, user_bytes), credential_result(pass, pass_bytes)) {
            (Err(e), _) => ServerRun::Failed(e, seq![5u8, 2u8]),
            (Ok(_), Err(e)) => ServerRun::Failed(e, seq![5u8, 2u8]),
            (Ok(_), Ok(_)) => ServerRun::Done(addr, port, seq![5u8, 2u8, 1u8, 0u8]),
        }),
{
    assert(seq![5u8, 2u8] + seq![1u8, 0u8] =~= seq![5u8, 2u8, 1u8, 0u8]);
    assert(seq![5u8, 2u8] + Seq::<u8>::empty() =~= seq![5u8, 2u8]);
    assert(Seq::<u8>::empty() + seq![5u8, 2u8] =~= seq![5u8, 2u8]);
    assert(Seq::<u8>::empty() + seq![5u8, 2u8, 1u8, 0u8] =~= seq![5u8, 2u8, 1u8, 0u8]);
}

proof fn lemma_methods_stage(
    user: Seq<char>,
    pass: Seq<char>,
    methods: Seq<u8>,
    version: u8,
    user_bytes: Seq<u8>,
    pass_bytes: Seq<u8>,
    addr: TargetAddr,
    port: u16,
    rest: Seq<u8>,
)
    requires
        user.len() > 0,
        0 < methods.len() <= 255,
        methods.contains(2u8),
        user_bytes.len() <= 255,
        pass_bytes.len() <= 255,
        addr.wf(),
    ensures
        server_run(
            StageSpec::Methods(methods.len() as u8),
            user,
            pass,
            methods + (seq![version] + framed(user_bytes) + framed(pass_bytes) + request_bytes(
                addr,
                port,
            ) + rest),
        ) == after_replies(
            seq![5u8, 2u8],
            credentials_outcome(user, pass, user_bytes, pass_bytes, addr, port),
        ),
{
    let n = methods.len() as u8;
    assert(n == methods.len());
    let tail = seq![version] + framed(user_bytes) + framed(pass_bytes) + request_bytes(addr, port)
        + rest;
    lemma_username_stages(user, pass, version, user_bytes, pass_bytes, addr, port, rest);
    let after_methods = methods + tail;
    assert(after_methods.take(n as int) =~= methods);
    assert(after_methods.skip(n as int) =~= tail);
}

/// The configured credentials, sent as their UTF-8 bytes, pass the check.
pub proof fn lemma_own_credential_passes(expected: Seq<char>)
    ensures
        credential_result(expected, encode_utf8(expected)) == Ok::<(), HandshakeFault>(()),
{
    encode_utf8_valid_utf8(expected);
    encode_utf8_decode_utf8(expected);
}

/// With configured credentials, a client whose greeting does not offer
/// username/password authentication is refused without a reply.
pub proof fn lemma_auth_method_required(
    user: Seq<char>,
    pass: Seq<char>,
    methods: Seq<u8>,
    rest: Seq<u8>,
)
    requires
        user.len() > 0,
        0 < methods.len() <= 255,
        !methods.contains(2u8),
    ensures
        server_run(StageSpec::Greeting, user, pass, seq![5u8, methods.len() as u8] + methods + rest)
            == ServerRun::Failed(HandshakeFault::AuthMethodNotSupported, seq![]),
{
    let n = methods.len() as u8;
    let s = seq![5u8, n] + methods + rest;
    let s1 = methods + rest;
    assert(s =~= seq![5u8, n] + s1);
    assert(s.take(2) =~= seq![5u8, n]);
    assert(s.skip(2) =~= s1);
    assert(s1.take(n as int) =~= methods);
    assert(server_run(StageSpec::Methods(n), user, pass, s1) == ServerRun::Failed(
        HandshakeFault::AuthMethodNotSupported,
        Seq::<u8>::empty(),
    ));
    assert(Seq::<u8>::empty() + Seq::<u8>::empty() =~= Seq::<u8>::empty());
}

/// The username bytes of a stream that offers authentication: after the
/// greeting, its methods and the sub-negotiation header.
pub open spec fn sent_username(s: Seq<u8>) -> Seq<u8> {
    let n = s[1] as int;
    let ulen = s[n + 3] as int;
    s.subrange(n + 4, n + 4 + ulen)
}

/// The password bytes of such a stream, after the username and the
/// password length.
pub open spec fn sent_password(s: Seq<u8>) -> Seq<u8> {
    let n = s[1] as int;
    let p = n + 4 + s[n + 3] as int;
    s.subrange(p + 1, p + 1 + s[p] as int)
}

/// With configured credentials, the accepting side completes a handshake
/// only for a client that sent that username and that password.
pub proof fn lemma_done_requires_credentials(user: Seq<char>, pass: Seq<char>, s: Seq<u8>)
    requires
        user.len() > 0,
        server_run(StageSpec::Greeting, user, pass, s) is Done,
    ensures
        credential_result(user, sent_username(s)) == Ok::<(), HandshakeFault>(()),
        credential_result(pass, sent_password(s)) == Ok::<(), HandshakeFault>(()),
{
    let n = s[1];
    let s1 = s.skip(2);
    assert(s.len() >= 2);
    assert(server_run(StageSpec::Methods(n), user, pass, s1) is Done);
    assert(s1.len() >= n);
    let s2 = s1.skip(n as int);
    assert(server_run(StageSpec::AuthHeader, user, pass, s2) is Done);
    assert(s2.len() >= 2);
    let ulen = s2[1];
    let s3 = s2.skip(2);
    assert(server_run(StageSpec::Username(ulen), user, pass, s3) is Done);
    assert(s3.len() >= ulen);
    assert(credential_result(user, s3.take(ulen as int)) is Ok);
    let s4 = s3.skip(ulen as int);
    assert(server_run(StageSpec::PasswordLen, user, pass, s4) is Done);
    assert(s4.len() >= 1);
    let plen = s4[0];
    let s5 = s4.skip(1);
    assert(server_run(StageSpec::Password(plen), user, pass, s5) is Done);
    assert(s5.len() >= plen);
    assert(credential_result(pass, s5.take(plen as int)) is Ok);
    assert(ulen == s[n + 3]);
    assert(s3.take(ulen as int) =~= sent_username(s));
    assert(plen == s[n + 4 + ulen]);
    assert(s5.take(plen as int) =~= sent_password(s));
}

/// Every handshake that completes yields an address that a request can
/// carry, and that can therefore be printed.
pub proof fn lemma_done_address_wf(stage: StageSpec, user: Seq<char>, pass: Seq<char>, s: Seq<u8>)
    requires
        stage.wf(),
    ensures
        server_run(stage, user, pass, s) matches ServerRun::Done(a, _, _) ==> a.wf() && a.printable(),
    decreases stage.rank(),
{
    if s.len() >= stage.need() {
        let n = stage.need() as int;
        match server_step_spec(stage, user, pass, s.take(n)) {
            StepSpec::Next(next, reply) => {
                if next.rank() < stage.rank() {
                    lemma_done_address_wf(next, user, pass, s.skip(n));
                }
            },
            _ => {},
        }
    }
}

/// Without configured credentials, any non-empty method list (whatever
/// methods it offers) is answered with `[5, 0]` (no authentication), and the
/// request that follows completes the handshake for its target.
pub proof fn lemma_anonymous_any_methods(
    user: Seq<char>,
    pass: Seq<char>,
    methods: Seq<u8>,
    addr: TargetAddr,
    port: u16,
    rest: Seq<u8>,
)
    requires
        user.len() == 0,
        0 < methods.len() <= 255,
        addr.wf(),
    ensures
        server_run(
            StageSpec::Greeting,
            user,
            pass,
            seq![5u8, methods.len() as u8] + methods + request_bytes(addr, port) + rest,
        ) == ServerRun::Done(addr, port, seq![5u8, 0u8]),
{
    let n = methods.len() as u8;
    assert(n == methods.len());
    let req = request_bytes(addr, port) + rest;
    let s = seq![5u8, n] + methods + request_bytes(addr, port) + rest;
    let s1 = methods + req;
    assert(s =~= seq![5u8, n] + s1);
    assert(s.take(2) =~= seq![5u8, n]);
    assert(s.skip(2) =~= s1);
    assert(s1.take(n as int) =~= methods);
    assert(s1.skip(n as int) =~= req);
    lemma_request_round_trip(user, pass, addr, port, rest);
    assert(seq![5u8, 0u8] + Seq::<u8>::empty() =~= seq![5u8, 0u8]);
    assert(server_run(StageSpec::Methods(n), user, pass, s1) == ServerRun::Done(
        addr,
        port,
        seq![5u8, 0u8],
    ));
    assert(Seq::<u8>::empty() + seq![5u8, 0u8] =~= seq![5u8, 0u8]);
}

/// The connecting side goes on only on the exact expected reply: `[5, 0]`
/// after offering no authentication, `[5, 2]` for the credentials, `[1, 0]`
/// after them; any other two-byte reply fails with that stage's error.
pub proof fn lemma_client_replies(
    reply: Seq<u8>,
    user: Seq<char>,
    pass: Seq<char>,
    addr: TargetAddr,
    port: u16,
)
    requires
        reply.len() == 2,
    ensures
        reply[0] == 5 && reply[1] == 0 ==> client_step_spec(
            ClientStage::AwaitAnonymousReply,
            reply,
            user,
            pass,
            addr,
            port,
        ) == ClientStepSpec::Finish(request_bytes(addr, port)),
        !(reply[0] == 5 && reply[1] == 0) ==> client_step_spec(
            ClientStage::AwaitAnonymousReply,
            reply,
            user,
            pass,
            addr,
            port,
        ) == ClientStepSpec::Fail(ClientError::AnonymousRejected),
        reply[0] == 5 && reply[1] == 2 ==> client_step_spec(
            ClientStage::AwaitAuthSelection,
            reply,
            user,
            pass,
            addr,
            port,
        ) == ClientStepSpec::Send(auth_bytes(user, pass), ClientStage::AwaitAuthReply),
        !(reply[0] == 5 && reply[1] == 2) ==> client_step_spec(
            ClientStage::AwaitAuthSelection,
            reply,
            user,
            pass,
            addr,
            port,
        ) == ClientStepSpec::Fail(ClientError::AuthRejected),
        reply[0] == 1 && reply[1] == 0 ==> client_step_spec(
            ClientStage::AwaitAuthReply,
            reply,
            user,
            pass,
            addr,
            port,
        ) == ClientStepSpec::Finish(request_bytes(addr, port)),
        !(reply[0] == 1 && reply[1] == 0) ==> client_step_spec(
            ClientStage::AwaitAuthReply,
            reply,
            user,
            pass,
            addr,
            port,
        ) == ClientStepSpec::Fail(ClientError::HandshakeFailed),
{
    if reply[0] == 5 && reply[1] == 0 {
        assert(reply =~= seq![5u8, 0u8]);
    }
    if reply[0] == 5 && reply[1] == 2 {
        assert(reply =~= seq![5u8, 2u8]);
    }
    if reply[0] == 1 && reply[1] == 0 {
        assert(reply =~= seq![1u8, 0u8]);
    }
}

} // verus!
