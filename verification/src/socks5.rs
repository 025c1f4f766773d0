//! The SOCKS5 handshake, on the side that accepts clients (a step function
//! driven by the bytes that the connection delivers) and on the side that
//! connects to the upstream proxy, with the request encoding they share.
use vstd::prelude::*;
use vstd::utf8::*;
use vstd::string::*;
use vstd::slice::slice_to_vec;
use bstr::ByteSlice;
use crate::text::{decimal, hex2, push_char, push_decimal};

verus! {

broadcast use vstd::seq_lib::group_seq_properties;

// ---------------------------------------------------------------------------
// Addresses
// ---------------------------------------------------------------------------

/// The target of a connection request, as the client sent its bytes.
#[derive(Debug, PartialEq, Eq)]
pub enum SocksAddr {
    Ipv4(Vec<u8>),
    Domain(Vec<u8>),
    Ipv6(Vec<u8>),
}

/// The mathematical model of a [`SocksAddr`].
pub enum TargetAddr {
    Ipv4(Seq<u8>),
    Domain(Seq<u8>),
    Ipv6(Seq<u8>),
}

impl View for SocksAddr {
    type V = TargetAddr;

    open spec fn view(&self) -> TargetAddr {
        match self {
            SocksAddr::Ipv4(b) => TargetAddr::Ipv4(b@),
            SocksAddr::Domain(b) => TargetAddr::Domain(b@),
            SocksAddr::Ipv6(b) => TargetAddr::Ipv6(b@),
        }
    }
}

impl TargetAddr {
    /// An address that can be written out: at least the four bytes of an
    /// IPv4 address or the sixteen of an IPv6 one (further bytes are not
    /// shown); any domain.
    pub open spec fn printable(self) -> bool {
        match self {
            TargetAddr::Ipv4(b) => b.len() >= 4,
            TargetAddr::Domain(_) => true,
            TargetAddr::Ipv6(b) => b.len() >= 16,
        }
    }

    /// An address that a request can carry: four bytes for IPv4, sixteen for
    /// IPv6, and a domain whose length fits in its one-byte length prefix.
    pub open spec fn wf(self) -> bool {
        match self {
            TargetAddr::Ipv4(b) => b.len() == 4,
            TargetAddr::Domain(b) => b.len() <= 255,
            TargetAddr::Ipv6(b) => b.len() == 16,
        }
    }
}

/// The name that `bstr` gives to the debug rendering of a byte string.
pub uninterp spec fn bstr_debug_text(bytes: Seq<u8>) -> Seq<char>;

/// `<BStr as Debug>::fmt` on `bytes.as_bstr()`. Its text is named by
/// `bstr_debug_text`; the source writes a double quote first and last, which
/// is all that is stated of it.
#[verifier::external_body]
fn bstr_debug(bytes: &[u8]) -> (res: String)
    ensures
        res@ == bstr_debug_text(bytes@),
        res@.len() >= 2,
        res@[0] == '"',
        res@.last() == '"',
{
    format!("{:?}", bytes.as_bstr())
}

/// The text of an IPv4 address in dotted decimal form.
pub open spec fn dotted_quad(b: Seq<u8>) -> Seq<char> {
    decimal(b[0] as nat) + seq!['.'] + decimal(b[1] as nat) + seq!['.'] + decimal(b[2] as nat)
        + seq!['.'] + decimal(b[3] as nat)
}

/// The text of an IPv6 address: eight groups of four upper-case hexadecimal
/// digits between brackets, the groups separated by colons.
pub open spec fn bracketed_hex_groups(b: Seq<u8>) -> Seq<char> {
    seq!['['] + hex_groups(b, 8) + seq![']']
}

/// The first `n` groups of two bytes, each as four hexadecimal digits,
/// joined by colons.
pub open spec fn hex_groups(b: Seq<u8>, n: nat) -> Seq<char>
    decreases n,
{
    if n == 0 {
        seq![]
    } else if n == 1 {
        hex2(b[0]) + hex2(b[1])
    } else {
        hex_groups(b, (n - 1) as nat) + seq![':'] + hex2(b[2 * n - 2]) + hex2(b[2 * n - 1])
    }
}

/// How an address is written in a log line.
pub open spec fn addr_text(a: TargetAddr) -> Seq<char> {
    match a {
        TargetAddr::Ipv4(b) => dotted_quad(b),
        TargetAddr::Domain(b) => bstr_debug_text(b),
        TargetAddr::Ipv6(b) => bracketed_hex_groups(b),
    }
}

/// Appends the two upper-case hexadecimal digits of a byte.
fn push_hex2(s: &mut String, b: u8)
    ensures
        final(s)@ == old(s)@ + hex2(b),
{
    let hi = b / 16;
    let lo = b % 16;
    let c1 = if hi < 10 { (hi + 48) as char } else { (hi + 55) as char };
    let c2 = if lo < 10 { (lo + 48) as char } else { (lo + 55) as char };
    push_char(s, c1);
    push_char(s, c2);
}

impl SocksAddr {
    /// The text of the address, as it appears in the log.
    pub fn to_string(&self) -> (res: String)
        requires
            self@.printable(),
        ensures
            res@ == addr_text(self@),
    {
        match self {
            SocksAddr::Ipv4(b) => {
                let mut s = String::new();
                push_decimal(&mut s, b[0] as u64);
                push_char(&mut s, '.');
                push_decimal(&mut s, b[1] as u64);
                push_char(&mut s, '.');
                push_decimal(&mut s, b[2] as u64);
                push_char(&mut s, '.');
                push_decimal(&mut s, b[3] as u64);
                s
            },
            SocksAddr::Domain(b) => bstr_debug(b.as_slice()),
            SocksAddr::Ipv6(b) => {
                let mut s = String::new();
                push_char(&mut s, '[');
                let mut g: usize = 0;
                while g < 8
                    invariant
                        g <= 8,
                        b@.len() >= 16,
                        s@ == seq!['['] + hex_groups(b@, g as nat),
                    decreases 8 - g,
                {
                    if g > 0 {
                        push_char(&mut s, ':');
                    }
                    push_hex2(&mut s, b[2 * g]);
                    push_hex2(&mut s, b[2 * g + 1]);
                    g = g + 1;
                }
                push_char(&mut s, ']');
                s
            },
        }
    }
}

// ---------------------------------------------------------------------------
// The accepting side
// ---------------------------------------------------------------------------

/// Why a client's handshake was refused.
#[derive(PartialEq, Eq, Debug)]
pub enum HandshakeError {
    UnexpectedVersion,
    NoAuthMethods,
    AuthMethodNotSupported,
    /// Credentials that are not UTF-8, with the text of the decoding error.
    InvalidUtf8(String),
    AuthenticationFailed,
    UnsupportedCommand,
    ReservedNotZero,
    UnsupportedAddressType(u8),
}

/// The mathematical model of a [`HandshakeError`].
pub enum HandshakeFault {
    UnexpectedVersion,
    NoAuthMethods,
    AuthMethodNotSupported,
    InvalidUtf8(Seq<char>),
    AuthenticationFailed,
    UnsupportedCommand,
    ReservedNotZero,
    UnsupportedAddressType(u8),
}

impl View for HandshakeError {
    type V = HandshakeFault;

    open spec fn view(&self) -> HandshakeFault {
        match self {
            HandshakeError::UnexpectedVersion => HandshakeFault::UnexpectedVersion,
            HandshakeError::NoAuthMethods => HandshakeFault::NoAuthMethods,
            HandshakeError::AuthMethodNotSupported => HandshakeFault::AuthMethodNotSupported,
            HandshakeError::InvalidUtf8(t) => HandshakeFault::InvalidUtf8(t@),
            HandshakeError::AuthenticationFailed => HandshakeFault::AuthenticationFailed,
            HandshakeError::UnsupportedCommand => HandshakeFault::UnsupportedCommand,
            HandshakeError::ReservedNotZero => HandshakeFault::ReservedNotZero,
            HandshakeError::UnsupportedAddressType(x) => HandshakeFault::UnsupportedAddressType(*x),
        }
    }
}

/// The text of a handshake error, as it appears in the log.
pub open spec fn handshake_error_text(e: HandshakeFault) -> Seq<char> {
    match e {
        HandshakeFault::UnexpectedVersion => "Unexpected socks version"@,
        HandshakeFault::NoAuthMethods => "Got empty list of supported authentication methods"@,
        HandshakeFault::AuthMethodNotSupported => "Authentication method not supported"@,
        HandshakeFault::InvalidUtf8(t) => t,
        HandshakeFault::AuthenticationFailed => "Authentication failed"@,
        HandshakeFault::UnsupportedCommand => "Only tcp/ip stream connections are supported"@,
        HandshakeFault::ReservedNotZero => "Reserved field is not zero"@,
        HandshakeFault::UnsupportedAddressType(x) => "Unsupported address type: "@ + decimal(
            x as nat,
        ),
    }
}

impl HandshakeError {
    /// The text of the error.
    pub fn message(&self) -> (res: String)
        ensures
            res@ == handshake_error_text(self@),
    {
        match self {
            HandshakeError::UnexpectedVersion => String::from_str("Unexpected socks version"),
            HandshakeError::NoAuthMethods => String::from_str(
                "Got empty list of supported authentication methods",
            ),
            HandshakeError::AuthMethodNotSupported => String::from_str(
                "Authentication method not supported",
            ),
            HandshakeError::InvalidUtf8(t) => t.clone(),
            HandshakeError::AuthenticationFailed => String::from_str("Authentication failed"),
            HandshakeError::UnsupportedCommand => String::from_str(
                "Only tcp/ip stream connections are supported",
            ),
            HandshakeError::ReservedNotZero => String::from_str("Reserved field is not zero"),
            HandshakeError::UnsupportedAddressType(x) => {
                let mut s = String::from_str("Unsupported address type: ");
                push_decimal(&mut s, *x as u64);
                s
            },
        }
    }
}

/// The kind of address announced by a request.
#[derive(Clone, Copy, PartialEq, Eq, Structural, Debug)]
pub enum AddrKind {
    Ipv4,
    Domain,
    Ipv6,
}

/// Where the accepting side of a handshake stands: each stage waits for a
/// fixed number of bytes (see [`ServerStage::need`]).
#[derive(Debug)]
pub enum ServerStage {
    /// The version and the number of authentication methods.
    Greeting,
    /// The list of authentication methods, of the given length.
    Methods(u8),
    /// The sub-negotiation header, whose second byte is the username length.
    AuthHeader,
    /// The username, of the given length.
    Username(u8),
    /// The one byte of the password length.
    PasswordLen,
    /// The password, of the given length.
    Password(u8),
    /// Version, command, reserved byte and address type.
    Request,
    /// The one byte of the domain length.
    DomainLen,
    /// The address bytes, of the given kind and length.
    Address(AddrKind, u8),
    /// The two bytes of the port, after the given address.
    Port(SocksAddr),
}

/// The mathematical model of a [`ServerStage`].
pub enum StageSpec {
    Greeting,
    Methods(u8),
    AuthHeader,
    Username(u8),
    PasswordLen,
    Password(u8),
    Request,
    DomainLen,
    Address(AddrKind, u8),
    Port(TargetAddr),
}

impl View for ServerStage {
    type V = StageSpec;

    open spec fn view(&self) -> StageSpec {
        match self {
            ServerStage::Greeting => StageSpec::Greeting,
            ServerStage::Methods(n) => StageSpec::Methods(*n),
            ServerStage::AuthHeader => StageSpec::AuthHeader,
            ServerStage::Username(n) => StageSpec::Username(*n),
            ServerStage::PasswordLen => StageSpec::PasswordLen,
            ServerStage::Password(n) => StageSpec::Password(*n),
            ServerStage::Request => StageSpec::Request,
            ServerStage::DomainLen => StageSpec::DomainLen,
            ServerStage::Address(k, n) => StageSpec::Address(*k, *n),
            ServerStage::Port(a) => StageSpec::Port(a@),
        }
    }
}

impl StageSpec {
    /// The number of bytes that the stage waits for.
    pub open spec fn need(self) -> nat {
        match self {
            StageSpec::Greeting => 2,
            StageSpec::Methods(n) => n as nat,
            StageSpec::AuthHeader => 2,
            StageSpec::Username(n) => n as nat,
            StageSpec::PasswordLen => 1,
            StageSpec::Password(n) => n as nat,
            StageSpec::Request => 4,
            StageSpec::DomainLen => 1,
            StageSpec::Address(_, n) => n as nat,
            StageSpec::Port(_) => 2,
        }
    }

    /// A stage that the handshake can reach from its start: an address
    /// stage waits for the length of its kind, and a port stage holds an
    /// address that a request can carry.
    pub open spec fn wf(self) -> bool {
        match self {
            StageSpec::Address(AddrKind::Ipv4, n) => n == 4,
            StageSpec::Address(AddrKind::Ipv6, n) => n == 16,
            StageSpec::Port(a) => a.wf(),
            _ => true,
        }
    }

    /// How many stages at most remain: every step moves to a lower rank.
    pub open spec fn rank(self) -> nat {
        match self {
            StageSpec::Greeting => 9,
            StageSpec::Methods(_) => 8,
            StageSpec::AuthHeader => 7,
            StageSpec::Username(_) => 6,
            StageSpec::PasswordLen => 5,
            StageSpec::Password(_) => 4,
            StageSpec::Request => 3,
            StageSpec::DomainLen => 2,
            StageSpec::Address(_, _) => 1,
            StageSpec::Port(_) => 0,
        }
    }
}

impl ServerStage {
    /// The number of bytes that the stage waits for.
    pub fn need(&self) -> (n: usize)
        ensures
            n == self@.need(),
    {
        match self {
            ServerStage::Greeting => 2,
            ServerStage::Methods(n) => *n as usize,
            ServerStage::AuthHeader => 2,
            ServerStage::Username(n) => *n as usize,
            ServerStage::PasswordLen => 1,
            ServerStage::Password(n) => *n as usize,
            ServerStage::Request => 4,
            ServerStage::DomainLen => 1,
            ServerStage::Address(_, n) => *n as usize,
            ServerStage::Port(_) => 2,
        }
    }
}

/// What the accepting side does after the bytes of one stage.
#[derive(Debug)]
pub enum ServerStep {
    /// Write `reply` to the client (when it is not empty), then wait for
    /// the bytes of the next stage.
    Next(ServerStage, Vec<u8>),
    /// The handshake is complete: the client asks for this target.
    Done(SocksAddr, u16),
    /// The handshake is refused.
    Fail(HandshakeError),
}

/// The mathematical model of a [`ServerStep`].
pub enum StepSpec {
    Next(StageSpec, Seq<u8>),
    Done(TargetAddr, u16),
    Fail(HandshakeFault),
}

impl View for ServerStep {
    type V = StepSpec;

    open spec fn view(&self) -> StepSpec {
        match self {
            ServerStep::Next(s, r) => StepSpec::Next(s@, r@),
            ServerStep::Done(a, p) => StepSpec::Done(a@, *p),
            ServerStep::Fail(e) => StepSpec::Fail(e@),
        }
    }
}

/// The outcome of checking a credential sent by the client against the
/// configured one: the bytes must be UTF-8 and spell the configured text.
pub open spec fn credential_result(expected: Seq<char>, bytes: Seq<u8>) -> Result<(), HandshakeFault> {
    if !valid_utf8(bytes) {
        Err(HandshakeFault::InvalidUtf8(utf8_error_text(bytes)))
    } else if decode_utf8(bytes) != expected {
        Err(HandshakeFault::AuthenticationFailed)
    } else {
        Ok(())
    }
}

/// The step after a credential check: `then` when it passed.
pub open spec fn after_check(check: Result<(), HandshakeFault>, then: StepSpec) -> StepSpec {
    match check {
        Ok(_) => then,
        Err(e) => StepSpec::Fail(e),
    }
}

/// The port carried by two bytes in network order.
pub open spec fn port_of(hi: u8, lo: u8) -> u16 {
    (hi as nat * 256 + lo as nat) as u16
}

/// The address of the given kind made of the given bytes.
pub open spec fn target_of(kind: AddrKind, bytes: Seq<u8>) -> TargetAddr {
    match kind {
        AddrKind::Ipv4 => TargetAddr::Ipv4(bytes),
        AddrKind::Domain => TargetAddr::Domain(bytes),
        AddrKind::Ipv6 => TargetAddr::Ipv6(bytes),
    }
}

/// One step of the accepting side: `input` holds the bytes that the stage
/// waited for; `user` and `pass` are the credentials that this proxy
/// requires (an empty `user` means none).
pub open spec fn server_step_spec(
    stage: StageSpec,
    user: Seq<char>,
    pass: Seq<char>,
    input: Seq<u8>,
) -> StepSpec {
    match stage {
        StageSpec::Greeting => {
            if input[0] != 5 {
                StepSpec::Fail(HandshakeFault::UnexpectedVersion)
            } else if input[1] == 0 {
                StepSpec::Fail(HandshakeFault::NoAuthMethods)
            } else {
                StepSpec::Next(StageSpec::Methods(input[1]), seq![])
            }
        },
        StageSpec::Methods(_) => {
            if user.len() > 0 {
                if !input.contains(2u8) {
                    StepSpec::Fail(HandshakeFault::AuthMethodNotSupported)
                } else {
                    StepSpec::Next(StageSpec::AuthHeader, seq![5u8, 2u8])
                }
            } else {
                StepSpec::Next(StageSpec::Request, seq![5u8, 0u8])
            }
        },
        StageSpec::AuthHeader => StepSpec::Next(StageSpec::Username(input[1]), seq![]),
        StageSpec::Username(_) => after_check(
            credential_result(user, input),
            StepSpec::Next(StageSpec::PasswordLen, seq![]),
        ),
        StageSpec::PasswordLen => StepSpec::Next(StageSpec::Password(input[0]), seq![]),
        StageSpec::Password(_) => after_check(
            credential_result(pass, input),
            StepSpec::Next(StageSpec::Request, seq![1u8, 0u8]),
        ),
        StageSpec::Request => {
            if input[0] != 5 {
                StepSpec::Fail(HandshakeFault::UnexpectedVersion)
            } else if input[1] != 1 {
                StepSpec::Fail(HandshakeFault::UnsupportedCommand)
            } else if input[2] != 0 {
                StepSpec::Fail(HandshakeFault::ReservedNotZero)
            } else if input[3] == 1 {
                StepSpec::Next(StageSpec::Address(AddrKind::Ipv4, 4), seq![])
            } else if input[3] == 3 {
                StepSpec::Next(StageSpec::DomainLen, seq![])
            } else if input[3] == 4 {
                StepSpec::Next(StageSpec::Address(AddrKind::Ipv6, 16), seq![])
            } else {
                StepSpec::Fail(HandshakeFault::UnsupportedAddressType(input[3]))
            }
        },
        StageSpec::DomainLen => StepSpec::Next(StageSpec::Address(AddrKind::Domain, input[0]), seq![]),
        StageSpec::Address(kind, _) => StepSpec::Next(StageSpec::Port(target_of(kind, input)), seq![]),
        StageSpec::Port(addr) => StepSpec::Done(addr, port_of(input[0], input[1])),
    }
}

/// The name of the text of the error that `String::from_utf8` reports for
/// bytes that are not valid UTF-8.
pub uninterp spec fn utf8_error_text(bytes: Seq<u8>) -> Seq<char>;

/// `String::from_utf8`: the string whose UTF-8 encoding is `bytes`, when
/// `bytes` is valid UTF-8; otherwise the text of its error (`to_string` of
/// the `FromUtf8Error`), which is named by `utf8_error_text`.
#[verifier::external_body]
fn string_from_utf8(bytes: Vec<u8>) -> (res: Result<String, String>)
    ensures
        res is Ok <==> valid_utf8(bytes@),
        res matches Ok(s) ==> encode_utf8(s@) == bytes@,
        res matches Err(m) ==> m@ == utf8_error_text(bytes@),
{
    match String::from_utf8(bytes) {
        Ok(s) => Ok(s),
        Err(e) => Err(e.to_string()),
    }
}

/// The outcome of a credential check, from the result of decoding the
/// client's bytes: a decoding error refuses with its text, a decoded text
/// other than the configured one refuses as a failed authentication.
pub fn credential_outcome(expected: &String, decoded: Result<String, String>) -> (res: Result<
    (),
    HandshakeError,
>)
    ensures
        decoded matches Err(m) ==> res == Err::<(), HandshakeError>(HandshakeError::InvalidUtf8(m)),
        decoded matches Ok(s) ==> (s@ == expected@ ==> res is Ok) && (s@ != expected@ ==> res
            == Err::<(), HandshakeError>(HandshakeError::AuthenticationFailed)),
{
    match decoded {
        Err(m) => Err(HandshakeError::InvalidUtf8(m)),
        Ok(s) => {
            if s == *expected {
                Ok(())
            } else {
                Err(HandshakeError::AuthenticationFailed)
            }
        },
    }
}

/// Checks a credential sent by the client against the configured one.
fn check_credential(expected: &String, input: &[u8]) -> (res: Result<(), HandshakeError>)
    ensures
        (match res {
            Ok(_) => Ok::<(), HandshakeFault>(()),
            Err(e) => Err(e@),
        }) == credential_result(expected@, input@),
{
    let decoded = string_from_utf8(slice_to_vec(input));
    proof {
        if decoded is Ok {
            encode_utf8_decode_utf8(decoded->Ok_0@);
        }
    }
    credential_outcome(expected, decoded)
}

/// One step of the accepting side of the handshake (the logic of reading a
/// client's greeting, credentials and request).
pub fn server_step(stage: &ServerStage, m_username: &String, m_password: &String, input: &[u8]) -> (res:
    ServerStep)
    requires
        input@.len() == stage@.need(),
    ensures
        res@ == server_step_spec(stage@, m_username@, m_password@, input@),
        stage@.wf() ==> (res@ matches StepSpec::Next(next, _) ==> next.wf()),
        stage@.wf() ==> (res@ matches StepSpec::Done(addr, _) ==> addr.wf()),
{
    match stage {
        ServerStage::Greeting => {
            if input[0] != 5 {
                ServerStep::Fail(HandshakeError::UnexpectedVersion)
            } else if input[1] == 0 {
                ServerStep::Fail(HandshakeError::NoAuthMethods)
            } else {
                ServerStep::Next(ServerStage::Methods(input[1]), Vec::new())
            }
        },
        ServerStage::Methods(_) => {
            if !m_username.as_str().is_empty() {
                let mut auth_flag = false;
                let mut i: usize = 0;
                while i < input.len()
                    invariant
                        i <= input@.len(),
                        auth_flag <==> input@.subrange(0, i as int).contains(2u8),
                    decreases input@.len() - i,
                {
                    proof {
                        assert(input@.subrange(0, i + 1) =~= input@.subrange(0, i as int).push(
                            input@[i as int],
                        ));
                    }
                    if input[i] == 2 {
                        auth_flag = true;
                    }
                    i = i + 1;
                }
                proof {
                    assert(input@.subrange(0, input@.len() as int) =~= input@);
                }
                if !auth_flag {
                    ServerStep::Fail(HandshakeError::AuthMethodNotSupported)
                } else {
                    ServerStep::Next(ServerStage::AuthHeader, vec![5u8, 2u8])
                }
            } else {
                ServerStep::Next(ServerStage::Request, vec![5u8, 0u8])
            }
        },
        ServerStage::AuthHeader => ServerStep::Next(ServerStage::Username(input[1]), Vec::new()),
        ServerStage::Username(_) => {
            match check_credential(m_username, input) {
                Ok(_) => ServerStep::Next(ServerStage::PasswordLen, Vec::new()),
                Err(e) => ServerStep::Fail(e),
            }
        },
        ServerStage::PasswordLen => ServerStep::Next(ServerStage::Password(input[0]), Vec::new()),
        ServerStage::Password(_) => {
            match check_credential(m_password, input) {
                Ok(_) => ServerStep::Next(ServerStage::Request, vec![1u8, 0u8]),
                Err(e) => ServerStep::Fail(e),
            }
        },
        ServerStage::Request => {
            if input[0] != 5 {
                ServerStep::Fail(HandshakeError::UnexpectedVersion)
            } else if input[1] != 1 {
                ServerStep::Fail(HandshakeError::UnsupportedCommand)
            } else if input[2] != 0 {
                ServerStep::Fail(HandshakeError::ReservedNotZero)
            } else if input[3] == 1 {
                ServerStep::Next(ServerStage::Address(AddrKind::Ipv4, 4), Vec::new())
            } else if input[3] == 3 {
                ServerStep::Next(ServerStage::DomainLen, Vec::new())
            } else if input[3] == 4 {
                ServerStep::Next(ServerStage::Address(AddrKind::Ipv6, 16), Vec::new())
            } else {
                ServerStep::Fail(HandshakeError::UnsupportedAddressType(input[3]))
            }
        },
        ServerStage::DomainLen => ServerStep::Next(
            ServerStage::Address(AddrKind::Domain, input[0]),
            Vec::new(),
        ),
        ServerStage::Address(kind, _) => {
            let bytes = slice_to_vec(input);
            let addr = match kind {
                AddrKind::Ipv4 => SocksAddr::Ipv4(bytes),
                AddrKind::Domain => SocksAddr::Domain(bytes),
                AddrKind::Ipv6 => SocksAddr::Ipv6(bytes),
            };
            ServerStep::Next(ServerStage::Port(addr), Vec::new())
        },
        ServerStage::Port(addr) => {
            let a = clone_addr(addr);
            let port = (input[0] as u16) * 256 + (input[1] as u16);
            ServerStep::Done(a, port)
        },
    }
}

/// A copy of an address.
fn clone_addr(a: &SocksAddr) -> (res: SocksAddr)
    ensures
        res@ == a@,
{
    match a {
        SocksAddr::Ipv4(b) => SocksAddr::Ipv4(slice_to_vec(b.as_slice())),
        SocksAddr::Domain(b) => SocksAddr::Domain(slice_to_vec(b.as_slice())),
        SocksAddr::Ipv6(b) => SocksAddr::Ipv6(slice_to_vec(b.as_slice())),
    }
}

/// What the accepting side has done with a stream of bytes from a client.
pub enum ServerRun {
    /// It waits for more bytes, having written these replies.
    Waiting(Seq<u8>),
    /// It completed the handshake for this target, having written these
    /// replies.
    Done(TargetAddr, u16, Seq<u8>),
    /// It refused the handshake, having written these replies.
    Failed(HandshakeFault, Seq<u8>),
}

/// The run `run`, preceded by the replies `r`.
pub open spec fn after_replies(r: Seq<u8>, run: ServerRun) -> ServerRun {
    match run {
        ServerRun::Waiting(x) => ServerRun::Waiting(r + x),
        ServerRun::Done(a, p, x) => ServerRun::Done(a, p, r + x),
        ServerRun::Failed(e, x) => ServerRun::Failed(e, r + x),
    }
}

/// The accepting side from `stage` on, fed with `stream` stage after stage
/// as [`server_step`] consumes it.
pub open spec fn server_run(stage: StageSpec, user: Seq<char>, pass: Seq<char>, stream: Seq<u8>) -> ServerRun
    decreases stage.rank(),
{
    if stream.len() < stage.need() {
        ServerRun::Waiting(seq![])
    } else {
        let n = stage.need() as int;
        match server_step_spec(stage, user, pass, stream.take(n)) {
            StepSpec::Next(next, reply) => {
                if next.rank() < stage.rank() {
                    after_replies(reply, server_run(next, user, pass, stream.skip(n)))
                } else {
                    ServerRun::Waiting(reply)
                }
            },
            StepSpec::Done(a, p) => ServerRun::Done(a, p, seq![]),
            StepSpec::Fail(e) => ServerRun::Failed(e, seq![]),
        }
    }
}

// ---------------------------------------------------------------------------
// The connecting side
// ---------------------------------------------------------------------------

/// A port in network byte order.
pub open spec fn port_bytes(port: u16) -> Seq<u8> {
    seq![(port / 256) as u8, (port % 256) as u8]
}

/// The address type byte and the address, as a request carries them.
pub open spec fn addr_bytes(a: TargetAddr) -> Seq<u8> {
    match a {
        TargetAddr::Ipv4(b) => seq![1u8] + b,
        TargetAddr::Domain(b) => seq![3u8, (b.len() % 256) as u8] + b,
        TargetAddr::Ipv6(b) => seq![4u8] + b,
    }
}

/// A CONNECT request for a target and a port.
pub open spec fn request_bytes(a: TargetAddr, port: u16) -> Seq<u8> {
    seq![5u8, 1u8, 0u8] + addr_bytes(a) + port_bytes(port)
}

/// The credentials message that the connecting side sends: each credential
/// as its UTF-8 bytes after one byte of its length (modulo 256).
pub open spec fn auth_bytes(user: Seq<char>, pass: Seq<char>) -> Seq<u8> {
    let u = encode_utf8(user);
    let p = encode_utf8(pass);
    seq![(u.len() % 256) as u8] + u + seq![(p.len() % 256) as u8] + p
}

/// Appends the bytes of a slice to a vector.
fn append_bytes(v: &mut Vec<u8>, s: &[u8])
    ensures
        final(v)@ == old(v)@ + s@,
{
    let mut t = slice_to_vec(s);
    v.append(&mut t);
}

/// The CONNECT request that the connecting side sends for a target.
pub fn request_message(addr: &SocksAddr, port: u16) -> (res: Vec<u8>)
    ensures
        res@ == request_bytes(addr@, port),
{
    let mut buf = vec![5u8, 1u8, 0u8];
    match addr {
        SocksAddr::Ipv4(b) => {
            buf.push(1u8);
            append_bytes(&mut buf, b.as_slice());
        },
        SocksAddr::Domain(b) => {
            buf.push(3u8);
            buf.push((b.len() % 256) as u8);
            append_bytes(&mut buf, b.as_slice());
        },
        SocksAddr::Ipv6(b) => {
            buf.push(4u8);
            append_bytes(&mut buf, b.as_slice());
        },
    }
    buf.push((port / 256) as u8);
    buf.push((port % 256) as u8);
    buf
}

/// The credentials message for the upstream proxy.
pub fn auth_message(username: &String, password: &String) -> (res: Vec<u8>)
    ensures
        res@ == auth_bytes(username@, password@),
{
    let u = username.as_str().as_bytes();
    let p = password.as_str().as_bytes();
    let mut buf = Vec::new();
    buf.push((u.len() % 256) as u8);
    append_bytes(&mut buf, u);
    buf.push((p.len() % 256) as u8);
    append_bytes(&mut buf, p);
    buf
}

/// Where the connecting side of a handshake stands; each stage waits for a
/// two-byte reply from the upstream proxy.
#[derive(Clone, Copy, PartialEq, Eq, Structural, Debug)]
pub enum ClientStage {
    /// The greeting offered no authentication.
    AwaitAnonymousReply,
    /// Waiting for the proxy to select username/password authentication.
    AwaitAuthSelection,
    /// The credentials were sent.
    AwaitAuthReply,
}

/// Why the upstream proxy's handshake failed.
#[derive(Clone, Copy, PartialEq, Eq, Structural, Debug)]
pub enum ClientError {
    AnonymousRejected,
    AuthRejected,
    HandshakeFailed,
}

/// The text of a connecting-side error, as it appears in the log.
pub open spec fn client_error_text(e: ClientError) -> Seq<char> {
    match e {
        ClientError::AnonymousRejected => "Proxy didn't accept anonymous auth"@,
        ClientError::AuthRejected => "Proxy didn't accept auth"@,
        ClientError::HandshakeFailed => "Failed to handshake"@,
    }
}

impl ClientError {
    /// The text of the error.
    pub fn message(&self) -> (res: String)
        ensures
            res@ == client_error_text(*self),
    {
        match self {
            ClientError::AnonymousRejected => String::from_str("Proxy didn't accept anonymous auth"),
            ClientError::AuthRejected => String::from_str("Proxy didn't accept auth"),
            ClientError::HandshakeFailed => String::from_str("Failed to handshake"),
        }
    }
}

/// What the connecting side does after a reply.
#[derive(Debug)]
pub enum ClientStep {
    /// Write these bytes (when not empty), then wait in this stage.
    Send(Vec<u8>, ClientStage),
    /// Write these bytes (the request); the handshake is complete.
    Finish(Vec<u8>),
    /// The handshake failed.
    Fail(ClientError),
}

/// The mathematical model of a [`ClientStep`].
pub enum ClientStepSpec {
    Send(Seq<u8>, ClientStage),
    Finish(Seq<u8>),
    Fail(ClientError),
}

impl View for ClientStep {
    type V = ClientStepSpec;

    open spec fn view(&self) -> ClientStepSpec {
        match self {
            ClientStep::Send(b, s) => ClientStepSpec::Send(b@, *s),
            ClientStep::Finish(b) => ClientStepSpec::Finish(b@),
            ClientStep::Fail(e) => ClientStepSpec::Fail(*e),
        }
    }
}

/// How the connecting side opens: without credentials it offers the
/// anonymous method; with credentials it writes nothing and waits.
pub open spec fn client_start_spec(user: Seq<char>) -> ClientStepSpec {
    if user.len() == 0 {
        ClientStepSpec::Send(seq![5u8, 1u8, 0u8], ClientStage::AwaitAnonymousReply)
    } else {
        ClientStepSpec::Send(seq![], ClientStage::AwaitAuthSelection)
    }
}

/// One step of the connecting side after a two-byte reply.
pub open spec fn client_step_spec(
    stage: ClientStage,
    reply: Seq<u8>,
    user: Seq<char>,
    pass: Seq<char>,
    addr: TargetAddr,
    port: u16,
) -> ClientStepSpec {
    match stage {
        ClientStage::AwaitAnonymousReply => {
            if reply == seq![5u8, 0u8] {
                ClientStepSpec::Finish(request_bytes(addr, port))
            } else {
                ClientStepSpec::Fail(ClientError::AnonymousRejected)
            }
        },
        ClientStage::AwaitAuthSelection => {
            if reply == seq![5u8, 2u8] {
                ClientStepSpec::Send(auth_bytes(user, pass), ClientStage::AwaitAuthReply)
            } else {
                ClientStepSpec::Fail(ClientError::AuthRejected)
            }
        },
        ClientStage::AwaitAuthReply => {
            if reply == seq![1u8, 0u8] {
                ClientStepSpec::Finish(request_bytes(addr, port))
            } else {
                ClientStepSpec::Fail(ClientError::HandshakeFailed)
            }
        },
    }
}

/// The opening of the connecting side of the handshake.
pub fn client_start(username: &String) -> (res: ClientStep)
    ensures
        res@ == client_start_spec(username@),
{
    if username.as_str().is_empty() {
        ClientStep::Send(vec![5u8, 1u8, 0u8], ClientStage::AwaitAnonymousReply)
    } else {
        ClientStep::Send(Vec::new(), ClientStage::AwaitAuthSelection)
    }
}

/// Whether a two-byte reply is exactly `[a, b]`.
fn reply_is(reply: &[u8], a: u8, b: u8) -> (res: bool)
    requires
        reply@.len() == 2,
    ensures
        res == (reply@ == seq![a, b]),
{
    let r = reply[0] == a && reply[1] == b;
    proof {
        if r {
            assert(reply@ =~= seq![a, b]);
        }
    }
    r
}

/// One step of the connecting side after a two-byte reply from the
/// upstream proxy.
pub fn client_step(
    stage: ClientStage,
    reply: &[u8],
    username: &String,
    password: &String,
    addr: &SocksAddr,
    port: u16,
) -> (res: ClientStep)
    requires
        reply@.len() == 2,
    ensures
        res@ == client_step_spec(stage, reply@, username@, password@, addr@, port),
{
    match stage {
        ClientStage::AwaitAnonymousReply => {
            if reply_is(reply, 5, 0) {
                ClientStep::Finish(request_message(addr, port))
            } else {
                ClientStep::Fail(ClientError::AnonymousRejected)
            }
        },
        ClientStage::AwaitAuthSelection => {
            if reply_is(reply, 5, 2) {
                ClientStep::Send(auth_message(username, password), ClientStage::AwaitAuthReply)
            } else {
                ClientStep::Fail(ClientError::AuthRejected)
            }
        },
        ClientStage::AwaitAuthReply => {
            if reply_is(reply, 1, 0) {
                ClientStep::Finish(request_message(addr, port))
            } else {
                ClientStep::Fail(ClientError::HandshakeFailed)
            }
        },
    }
}

} // verus!
