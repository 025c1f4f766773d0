//! What describes a proxy: its upstream, the credentials that clients must
//! present, the bodies of the API requests and responses, and the decisions
//! of the request handlers that do not touch the proxy table.
use vstd::prelude::*;
use rand::distributions::Alphanumeric;
use rand::Rng;
use crate::socks5::dotted_quad;
use crate::text::{push_char, push_decimal};
use crate::traffic::Traffic;

verus! {

/// The protocol spoken to the upstream proxy.
#[derive(Clone, Copy, Debug, PartialEq, Eq, Structural)]
pub enum Protocol {
    Socks5,
    Http,
}

impl Protocol {
    /// The lower-case name of the protocol.
    pub fn to_string(&self) -> (res: String)
        ensures
            res@ == (match self {
                Protocol::Socks5 => "socks5"@,
                Protocol::Http => "http"@,
            }),
    {
        match self {
            Protocol::Socks5 => String::from_str("socks5"),
            Protocol::Http => String::from_str("http"),
        }
    }
}

/// An IP address: four octets, or eight 16-bit segments.
#[derive(Clone, Copy, Debug)]
pub enum IpAddress {
    V4(u8, u8, u8, u8),
    V6([u16; 8]),
}

/// An IP address with a port.
#[derive(Clone, Copy, Debug)]
pub struct SocketAddress {
    pub ip: IpAddress,
    pub port: u16,
}

/// How to reach an upstream proxy and what clients must present to use it.
#[derive(Debug)]
pub struct ProxyInfo {
    pub protocol: Protocol,
    pub proxy_addr: SocketAddress,
    pub username: String,
    pub password: String,
    /// The username and password that clients of this proxy must send;
    /// empty when the proxy admits clients by address.
    pub m_credentials: (String, String),
}

/// A proxy with the traffic counted so far.
#[derive(Debug)]
pub struct ProxyData {
    pub info: ProxyInfo,
    pub traffic: Traffic,
}

/// The body of a request to start a proxy.
#[derive(Debug)]
pub struct AddProxyBody {
    pub host: String,
    pub port: u16,
    pub username: String,
    pub password: String,
    pub m_port: u16,
    pub allow_ip: Vec<String>,
}

/// The body of a request to set a proxy's delay.
#[derive(Debug)]
pub struct AdminProxyBody {
    pub m_port: u16,
    pub delay: u64,
}

/// The body of a request to stop a proxy.
#[derive(Debug)]
pub struct CancelProxyBody {
    pub m_port: u16,
}

/// The answer to a successful start.
#[derive(Debug)]
pub struct BuyResponseData {
    pub protocol: String,
    pub host: String,
    pub port: u16,
    pub m_username: String,
    pub m_password: String,
}

/// The answer to a successful stop.
#[derive(Debug)]
pub struct StopResponseData {
    pub protocol: String,
    pub host: String,
    pub port: u16,
}

/// The answer to a failed request.
#[derive(Debug)]
pub struct ErrMessage {
    pub message: String,
}

/// An HTTP status with the body that goes with it.
#[derive(Debug)]
pub struct Response<T> {
    pub status: u16,
    pub body: Result<T, ErrMessage>,
}

/// The status of a successful request.
pub const STATUS_OK: u16 = 200;

/// The status of a request that could not be served.
pub const STATUS_BAD_REQUEST: u16 = 400;

/// The status of a request that failed inside the server.
pub const STATUS_INTERNAL_SERVER_ERROR: u16 = 500;

// ---------------------------------------------------------------------------
// Credentials
// ---------------------------------------------------------------------------

/// A character of the alphabet `A-Z`, `a-z`, `0-9`.
pub open spec fn is_alphanumeric(c: char) -> bool {
    ('A' <= c <= 'Z') || ('a' <= c <= 'z') || ('0' <= c <= '9')
}

/// A text of `len` characters of that alphabet.
pub open spec fn alphanumeric_text(s: Seq<char>, len: nat) -> bool {
    s.len() == len && forall|i: int| 0 <= i < s.len() ==> is_alphanumeric(#[trigger] s[i])
}

/// `len` characters drawn by `thread_rng().sample_iter(&Alphanumeric)`.
/// The characters are random; what is stated is their number and that each
/// comes from the alphabet that `Alphanumeric` samples.
#[verifier::external_body]
fn random_alphanumeric(len: usize) -> (res: String)
    ensures
        alphanumeric_text(res@, len as nat),
{
    rand::thread_rng().sample_iter(&Alphanumeric).take(len).map(char::from).collect()
}

/// The credentials of a new proxy: a random username of 7 characters and a
/// random password of 15 when no client address is allowed (clients then
/// authenticate); empty ones otherwise (clients are admitted by address).
pub fn get_credentials(allow_ip: &Vec<String>) -> (res: (String, String))
    ensures
        allow_ip@.len() == 0 ==> alphanumeric_text(res.0@, 7) && alphanumeric_text(res.1@, 15),
        allow_ip@.len() > 0 ==> res.0@.len() == 0 && res.1@.len() == 0,
{
    if allow_ip.len() == 0 {
        (random_alphanumeric(7), random_alphanumeric(15))
    } else {
        (String::new(), String::new())
    }
}

// ---------------------------------------------------------------------------
// Admission of clients
// ---------------------------------------------------------------------------

/// The dotted decimal text of four octets.
pub open spec fn ipv4_text(a: u8, b: u8, c: u8, d: u8) -> Seq<char> {
    dotted_quad(seq![a, b, c, d])
}

/// Whether a client connecting from `peer` is served: every client when no
/// address is listed; otherwise an IPv4 client whose address, in dotted
/// decimal, is listed.
pub open spec fn admits(allow_ip: Seq<String>, peer: IpAddress) -> bool {
    allow_ip.len() == 0 || match peer {
        IpAddress::V4(a, b, c, d) => exists|i: int|
            0 <= i < allow_ip.len() && (#[trigger] allow_ip[i])@ == ipv4_text(a, b, c, d),
        IpAddress::V6(_) => false,
    }
}

/// The dotted decimal text of an IPv4 address.
pub fn ipv4_string(a: u8, b: u8, c: u8, d: u8) -> (res: String)
    ensures
        res@ == ipv4_text(a, b, c, d),
{
    let mut s = String::new();
    push_decimal(&mut s, a as u64);
    push_char(&mut s, '.');
    push_decimal(&mut s, b as u64);
    push_char(&mut s, '.');
    push_decimal(&mut s, c as u64);
    push_char(&mut s, '.');
    push_decimal(&mut s, d as u64);
    s
}

/// Whether a client connecting from `peer` is served by a proxy with this
/// allow list.
pub fn connection_allowed(allow_ip: &Vec<String>, peer: &IpAddress) -> (res: bool)
    ensures
        res == admits(allow_ip@, *peer),
{
    if allow_ip.len() == 0 {
        return true;
    }
    match *peer {
        IpAddress::V4(a, b, c, d) => {
            let text = ipv4_string(a, b, c, d);
            let mut i: usize = 0;
            while i < allow_ip.len()
                invariant
                    i <= allow_ip@.len(),
                    text@ == ipv4_text(a, b, c, d),
                    *peer == IpAddress::V4(a, b, c, d),
                    allow_ip@.len() > 0,
                    forall|j: int| 0 <= j < i ==> (#[trigger] allow_ip@[j])@ != text@,
                decreases allow_ip@.len() - i,
            {
                if allow_ip[i] == text {
                    assert((allow_ip@[i as int])@ == ipv4_text(a, b, c, d));
                    return true;
                }
                i = i + 1;
            }
            false
        },
        IpAddress::V6(_) => false,
    }
}

// ---------------------------------------------------------------------------
// Answers
// ---------------------------------------------------------------------------

/// The message of a failed start.
pub open spec fn start_failed_text() -> Seq<char> {
    "Failed to run server"@
}

/// The answer to a request to start a proxy on `m_port`, given the
/// credentials that the started proxy requires, or `None` when it could not
/// be started (an upstream address that does not parse, or a port that
/// cannot be bound). `host` is the public address of this server.
pub fn buy_response(m_port: u16, host: String, started: Option<(String, String)>) -> (res: Response<
    BuyResponseData,
>)
    ensures
        started is None ==> res.status == STATUS_BAD_REQUEST && (res.body matches Err(e)
            && e.message@ == start_failed_text()),
        started matches Some(c) ==> res.status == STATUS_OK && (res.body matches Ok(d)
            && d.protocol@ == "socks5"@ && d.host == host && d.port == m_port && d.m_username
            == c.0 && d.m_password == c.1),
{
    match started {
        Some((m_username, m_password)) => Response {
            status: STATUS_OK,
            body: Ok(
                BuyResponseData {
                    protocol: String::from_str("socks5"),
                    host,
                    port: m_port,
                    m_username,
                    m_password,
                },
            ),
        },
        None => Response {
            status: STATUS_BAD_REQUEST,
            body: Err(ErrMessage { message: String::from_str("Failed to run server") }),
        },
    }
}

} // verus!
