//! The table of running proxies, keyed by the port they listen on, and what
//! starting and stopping a proxy does to it.
use vstd::prelude::*;
use std::collections::HashMap;
use std::sync::Arc;
use std::sync::atomic::AtomicU64;
use tokio_util::sync::CancellationToken;
use crate::proxy::{CancelProxyBody, ErrMessage, Response, StopResponseData, STATUS_BAD_REQUEST, STATUS_OK};
use crate::text::{decimal, push_decimal};
use crate::traffic::Traffic;

verus! {

broadcast use vstd::std_specs::hash::group_hash_axioms;

/// `tokio_util::sync::CancellationToken`, carried through opaquely.
#[verifier::external_type_specification]
#[verifier::external_body]
pub struct ExCancellationToken(CancellationToken);

/// `CancellationToken::cancel`: tells the tasks that wait on the token (the
/// proxy's accept loop) to stop. Nothing is stated of the token afterwards.
#[verifier::external_body]
fn cancel(token: &CancellationToken) {
    token.cancel()
}

/// A running proxy: how to stop it, the traffic it has counted, and the
/// delay cell that paces its connections.
#[derive(Debug)]
pub struct ProxyHandle {
    pub cancel_token: CancellationToken,
    pub traffic: Traffic,
    pub delay: Arc<AtomicU64>,
}

/// The table after a proxy starts on `m_port` with `handle`: an earlier
/// proxy on that port is replaced.
pub open spec fn registered(
    table: Map<u16, ProxyHandle>,
    m_port: u16,
    handle: ProxyHandle,
) -> Map<u16, ProxyHandle> {
    table.insert(m_port, handle)
}

/// The table after the proxy on `m_port` stops.
pub open spec fn stopped(table: Map<u16, ProxyHandle>, m_port: u16) -> Map<u16, ProxyHandle> {
    table.remove(m_port)
}

/// Records a proxy that now listens on `m_port`: an earlier proxy on that
/// port is cancelled and replaced; the new entry holds `cancel_token`, no
/// traffic, and a fresh delay cell.
pub fn register_proxy(
    proxies: &mut HashMap<u16, ProxyHandle>,
    m_port: u16,
    cancel_token: CancellationToken,
)
    ensures
        final(proxies)@ == registered(old(proxies)@, m_port, final(proxies)@[m_port]),
        final(proxies)@[m_port].cancel_token == cancel_token,
        final(proxies)@[m_port].traffic == Traffic(0, 0),
{
    let handle = ProxyHandle {
        cancel_token,
        traffic: Traffic(0, 0),
        delay: Arc::new(AtomicU64::new(0)),
    };
    if let Some(previous) = proxies.remove(&m_port) {
        cancel(&previous.cancel_token);
    }
    proxies.insert(m_port, handle);
    proof {
        assert(final(proxies)@ =~= old(proxies)@.insert(m_port, handle));
    }
}

/// The message of a stop for a port without a proxy.
pub open spec fn no_proxy_text(m_port: u16) -> Seq<char> {
    "No proxy server found on port "@ + decimal(m_port as nat)
}

/// Stops the proxy on the requested port: its entry leaves the table and
/// its token is cancelled. The answer carries `host`, the public address of
/// this server; it is an error when no proxy runs on that port.
pub fn stop_proxy(proxies: &mut HashMap<u16, ProxyHandle>, body: &CancelProxyBody, host: String) -> (res:
    Response<StopResponseData>)
    ensures
        final(proxies)@ == stopped(old(proxies)@, body.m_port),
        old(proxies)@.contains_key(body.m_port) ==> res.status == STATUS_OK && (res.body matches Ok(
            d,
        ) && d.protocol@ == "socks5"@ && d.host == host && d.port == body.m_port),
        !old(proxies)@.contains_key(body.m_port) ==> res.status == STATUS_BAD_REQUEST && (
        res.body matches Err(e) && e.message@ == no_proxy_text(body.m_port)),
{
    let port = body.m_port;
    match proxies.remove(&port) {
        Some(handle) => {
            cancel(&handle.cancel_token);
            Response {
                status: STATUS_OK,
                body: Ok(StopResponseData { protocol: String::from_str("socks5"), host, port }),
            }
        },
        None => {
            proof {
                assert(old(proxies)@.remove(port) =~= old(proxies)@);
            }
            let mut message = String::from_str("No proxy server found on port ");
            push_decimal(&mut message, port as u64);
            Response { status: STATUS_BAD_REQUEST, body: Err(ErrMessage { message }) }
        },
    }
}

/// Starting a proxy and then stopping it leaves the table as it was,
/// without an entry for that port.
pub proof fn lemma_stop_undoes_register(table: Map<u16, ProxyHandle>, m_port: u16, handle: ProxyHandle)
    ensures
        stopped(registered(table, m_port, handle), m_port) == stopped(table, m_port),
        !stopped(registered(table, m_port, handle), m_port).contains_key(m_port),
{
    assert(stopped(registered(table, m_port, handle), m_port) =~= stopped(table, m_port));
}

/// Starting a proxy on a port twice leaves the second start in the table,
/// as if the first had not happened.
pub proof fn lemma_register_replaces(
    table: Map<u16, ProxyHandle>,
    m_port: u16,
    first: ProxyHandle,
    second: ProxyHandle,
)
    ensures
        registered(registered(table, m_port, first), m_port, second) == registered(
            table,
            m_port,
            second,
        ),
{
    assert(registered(registered(table, m_port, first), m_port, second) =~= registered(
        table,
        m_port,
        second,
    ));
}

/// Stopping leaves the other ports' proxies untouched.
pub proof fn lemma_stop_keeps_others(table: Map<u16, ProxyHandle>, m_port: u16, other: u16)
    requires
        other != m_port,
    ensures
        stopped(table, m_port).contains_key(other) == table.contains_key(other),
        table.contains_key(other) ==> stopped(table, m_port)[other] == table[other],
{
}

} // verus!
