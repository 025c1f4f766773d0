//! The admin endpoint (a proxy's delay and counters) and the bookkeeping of
//! the admin task: the list of live proxies kept for restarts, and the
//! traffic of finished connections.
use vstd::prelude::*;
use std::collections::HashMap;
use std::sync::Arc;
use std::sync::atomic::{AtomicU64, AtomicUsize, Ordering};
use crate::proxy::{
    AdminProxyBody, ErrMessage, ProxyData, ProxyInfo, Response, STATUS_INTERNAL_SERVER_ERROR,
    STATUS_OK,
};
use crate::table::ProxyHandle;
use crate::text::{decimal, push_char, push_decimal};
use crate::traffic::{can_add, traffic_sum, Traffic};

verus! {

broadcast use vstd::std_specs::hash::group_hash_axioms;

/// What the admin endpoint reports of a proxy.
#[derive(Debug)]
pub struct AdminData {
    pub m_port: u16,
    pub delay: u64,
    pub bytes_sent: u64,
    pub bytes_received: u64,
    pub active_threads: usize,
}

/// The message when no proxy runs on the requested port.
pub open spec fn port_not_in_use_text(m_port: u16) -> Seq<char> {
    "Port "@ + decimal(m_port as nat) + " is not in use"@
}

/// The message when the delay read back differs from the one written.
pub open spec fn delay_not_updated_text(m_port: u16) -> Seq<char> {
    "Error on updating delay for m_port: "@ + decimal(m_port as nat) + seq!['.']
}

/// The report of the admin endpoint, from the delay it wrote and the one it
/// then read back: an error when they differ.
pub fn admin_data(
    m_port: u16,
    requested: u64,
    observed: u64,
    traffic: Traffic,
    active_threads: usize,
) -> (res: Result<AdminData, String>)
    ensures
        observed == requested ==> (res matches Ok(d) && d.m_port == m_port && d.delay == requested
            && d.bytes_sent == traffic.0 && d.bytes_received == traffic.1 && d.active_threads
            == active_threads),
        observed != requested ==> (res matches Err(m) && m@ == delay_not_updated_text(m_port)),
{
    if observed != requested {
        let mut m = String::from_str("Error on updating delay for m_port: ");
        push_decimal(&mut m, m_port as u64);
        push_char(&mut m, '.');
        return Err(m);
    }
    Ok(
        AdminData {
            m_port,
            delay: observed,
            bytes_sent: traffic.0,
            bytes_received: traffic.1,
            active_threads,
        },
    )
}

/// The message for a port without a proxy.
fn port_not_in_use(m_port: u16) -> (res: String)
    ensures
        res@ == port_not_in_use_text(m_port),
{
    let mut m = String::from_str("Port ");
    push_decimal(&mut m, m_port as u64);
    let tail = String::from_str(" is not in use");
    m.append(tail.as_str());
    m
}

/// Sets the delay of the proxy on the requested port and reports it with
/// the proxy's traffic and the number of active connections. Other tasks
/// share the delay cell and the counter, so what is read back is not stated;
/// the report is [`admin_data`] of it.
pub fn run_admin_endpoint(
    proxies: &HashMap<u16, ProxyHandle>,
    body: &AdminProxyBody,
    thread_counter: &AtomicUsize,
) -> (res: Result<AdminData, String>)
    ensures
        !proxies@.contains_key(body.m_port) ==> (res matches Err(m) && m@ == port_not_in_use_text(
            body.m_port,
        )),
        proxies@.contains_key(body.m_port) ==> match res {
            Ok(d) => d.m_port == body.m_port && d.delay == body.delay && d.bytes_sent
                == proxies@[body.m_port].traffic.0 && d.bytes_received
                == proxies@[body.m_port].traffic.1,
            Err(m) => m@ == delay_not_updated_text(body.m_port),
        },
{
    let m_port = body.m_port;
    match proxies.get(&m_port) {
        None => Err(port_not_in_use(m_port)),
        Some(handle) => {
            handle.delay.store(body.delay, Ordering::Release);
            let delay = handle.delay.load(Ordering::Acquire);
            let active_threads = thread_counter.load(Ordering::Acquire);
            admin_data(m_port, body.delay, delay, handle.traffic, active_threads)
        },
    }
}

/// The answer of the admin endpoint: the report, or its error message with
/// an internal-error status.
pub fn admin_response(result: Result<AdminData, String>) -> (res: Response<AdminData>)
    ensures
        result is Ok ==> res.status == STATUS_OK && res.body == Ok::<AdminData, ErrMessage>(
            result->Ok_0,
        ),
        result matches Err(m) ==> res.status == STATUS_INTERNAL_SERVER_ERROR && (res.body matches Err(
            e,
        ) && e.message == m),
{
    match result {
        Ok(data) => Response { status: STATUS_OK, body: Ok(data) },
        Err(message) => Response { status: STATUS_INTERNAL_SERVER_ERROR, body: Err(ErrMessage { message }) },
    }
}

// ---------------------------------------------------------------------------
// The admin task
// ---------------------------------------------------------------------------

/// A proxy's accept loop has started on `m_port` with this delay cell: the
/// table's entry takes the cell, and the proxy joins the live list with no
/// traffic (the live list is then saved).
fn on_start_proxy(
    proxies: &mut HashMap<u16, ProxyHandle>,
    live: &mut HashMap<u16, ProxyData>,
    m_port: u16,
    delay: Arc<AtomicU64>,
    info: ProxyInfo,
)
    ensures
        old(proxies)@.contains_key(m_port) ==> final(proxies)@ == old(proxies)@.insert(
            m_port,
            ProxyHandle {
                cancel_token: old(proxies)@[m_port].cancel_token,
                traffic: old(proxies)@[m_port].traffic,
                delay,
            },
        ),
        !old(proxies)@.contains_key(m_port) ==> final(proxies)@ == old(proxies)@,
        final(live)@ == old(live)@.insert(m_port, ProxyData { info, traffic: Traffic(0, 0) }),
{
    if let Some(handle) = proxies.remove(&m_port) {
        let ProxyHandle { cancel_token, traffic, delay: _ } = handle;
        proxies.insert(m_port, ProxyHandle { cancel_token, traffic, delay });
        proof {
            assert(final(proxies)@ =~= old(proxies)@.insert(
                m_port,
                ProxyHandle {
                    cancel_token: old(proxies)@[m_port].cancel_token,
                    traffic: old(proxies)@[m_port].traffic,
                    delay,
                },
            ));
        }
    } else {
        proof {
            assert(old(proxies)@.remove(m_port) =~= old(proxies)@);
        }
    }
    live.insert(m_port, ProxyData { info, traffic: Traffic::default() });
}

/// A proxy's accept loop has stopped: it leaves the live list (which is
/// then saved).
fn on_stop_proxy(live: &mut HashMap<u16, ProxyData>, m_port: u16)
    ensures
        final(live)@ == old(live)@.remove(m_port),
{
    live.remove(&m_port);
}

/// A message to the admin task: a proxy's accept loop started (with its
/// delay cell and description) or stopped, or a connection began (with the
/// handle that yields its traffic when it finishes).
#[derive(Debug)]
pub enum AdminEvent<J> {
    StartProxy(u16, Arc<AtomicU64>, ProxyInfo),
    StopProxy(u16),
    NewServeOne(u16, J),
}

/// What the admin task does after a message, besides its bookkeeping.
#[derive(Clone, Copy, PartialEq, Eq, Structural, Debug)]
pub enum AdminAction {
    /// Write the live list to the live-proxies file.
    SaveLiveProxies,
    Nothing,
}

/// One message of the admin task. A start gives the proxy's entry in the
/// table its delay cell and puts the proxy in the live list with no
/// traffic; a stop takes it out of the live list and leaves the table
/// alone; both ask for the live list to be saved. A new connection joins
/// the running connections.
pub fn admin_step<J>(
    proxies: &mut HashMap<u16, ProxyHandle>,
    live: &mut HashMap<u16, ProxyData>,
    running: &mut Vec<(u16, J)>,
    event: AdminEvent<J>,
) -> (action: AdminAction)
    ensures
        match event {
            AdminEvent::StartProxy(m_port, delay, info) => {
                &&& old(proxies)@.contains_key(m_port) ==> final(proxies)@ == old(proxies)@.insert(
                    m_port,
                    ProxyHandle {
                        cancel_token: old(proxies)@[m_port].cancel_token,
                        traffic: old(proxies)@[m_port].traffic,
                        delay,
                    },
                )
                &&& !old(proxies)@.contains_key(m_port) ==> final(proxies)@ == old(proxies)@
                &&& final(live)@ == old(live)@.insert(m_port, ProxyData { info, traffic: Traffic(0, 0) })
                &&& final(running)@ == old(running)@
                &&& action == AdminAction::SaveLiveProxies
            },
            AdminEvent::StopProxy(m_port) => {
                &&& final(proxies)@ == old(proxies)@
                &&& final(live)@ == old(live)@.remove(m_port)
                &&& final(running)@ == old(running)@
                &&& action == AdminAction::SaveLiveProxies
            },
            AdminEvent::NewServeOne(m_port, handle) => {
                &&& final(proxies)@ == old(proxies)@
                &&& final(live)@ == old(live)@
                &&& final(running)@ == old(running)@.push((m_port, handle))
                &&& action == AdminAction::Nothing
            },
        },
{
    match event {
        AdminEvent::StartProxy(m_port, delay, info) => {
            on_start_proxy(proxies, live, m_port, delay, info);
            AdminAction::SaveLiveProxies
        },
        AdminEvent::StopProxy(m_port) => {
            on_stop_proxy(live, m_port);
            AdminAction::SaveLiveProxies
        },
        AdminEvent::NewServeOne(m_port, handle) => {
            running.push((m_port, handle));
            AdminAction::Nothing
        },
    }
}

/// The bytes sent and received by a finished connection; a connection that
/// failed counts none.
pub open spec fn finished_traffic(bytes: Option<(u64, u64)>) -> Traffic {
    match bytes {
        Some((sent, received)) => Traffic(sent, received),
        None => Traffic(0, 0),
    }
}

/// The counters of a proxy after adding a finished connection's bytes.
pub open spec fn counted(t: Traffic, bytes: Option<(u64, u64)>) -> Traffic {
    let s = traffic_sum(t, finished_traffic(bytes));
    Traffic(s.0 as u64, s.1 as u64)
}

/// A connection of the proxy on `m_port` has finished, with the bytes it
/// moved (none when it failed): they are added to the proxy's traffic, and
/// the live list's entry takes the new counters. Nothing changes when no
/// proxy runs on that port. The counters must not overflow (adding them
/// would panic).
pub fn on_thread_finished(
    proxies: &mut HashMap<u16, ProxyHandle>,
    live: &mut HashMap<u16, ProxyData>,
    m_port: u16,
    bytes: Option<(u64, u64)>,
)
    requires
        old(proxies)@.contains_key(m_port) ==> can_add(
            old(proxies)@[m_port].traffic,
            finished_traffic(bytes),
        ),
    ensures
        !old(proxies)@.contains_key(m_port) ==> final(proxies)@ == old(proxies)@ && final(live)@
            == old(live)@,
        old(proxies)@.contains_key(m_port) ==> {
            let t = counted(old(proxies)@[m_port].traffic, bytes);
            &&& final(proxies)@ == old(proxies)@.insert(
                m_port,
                ProxyHandle {
                    cancel_token: old(proxies)@[m_port].cancel_token,
                    traffic: t,
                    delay: old(proxies)@[m_port].delay,
                },
            )
            &&& old(live)@.contains_key(m_port) ==> final(live)@ == old(live)@.insert(
                m_port,
                ProxyData { info: old(live)@[m_port].info, traffic: t },
            )
            &&& !old(live)@.contains_key(m_port) ==> final(live)@ == old(live)@
        },
{
    let (bytes_sent, bytes_received) = match bytes {
        Some(b) => b,
        None => (0, 0),
    };
    if let Some(mut handle) = proxies.remove(&m_port) {
        handle.traffic.add_assign(Traffic(bytes_sent, bytes_received));
        let t = handle.traffic;
        proxies.insert(m_port, handle);
        proof {
            assert(final(proxies)@ =~= old(proxies)@.insert(
                m_port,
                ProxyHandle {
                    cancel_token: old(proxies)@[m_port].cancel_token,
                    traffic: t,
                    delay: old(proxies)@[m_port].delay,
                },
            ));
        }
        if let Some(mut data) = live.remove(&m_port) {
            data.traffic = t;
            live.insert(m_port, data);
            proof {
                assert(final(live)@ =~= old(live)@.insert(
                    m_port,
                    ProxyData { info: old(live)@[m_port].info, traffic: t },
                ));
            }
        } else {
            proof {
                assert(old(live)@.remove(m_port) =~= old(live)@);
            }
        }
    } else {
        proof {
            assert(old(proxies)@.remove(m_port) =~= old(proxies)@);
        }
    }
}

/// A stop after a start takes the proxy out of the live list, leaving the
/// rest of the list as the stop alone would.
pub proof fn lemma_stop_after_start(live: Map<u16, ProxyData>, m_port: u16, data: ProxyData)
    ensures
        live.insert(m_port, data).remove(m_port) == live.remove(m_port),
        !live.insert(m_port, data).remove(m_port).contains_key(m_port),
{
    assert(live.insert(m_port, data).remove(m_port) =~= live.remove(m_port));
}

/// A finished connection's bytes are added field by field: what it sent to
/// the sent counter, what it received to the received counter; a failed
/// connection adds nothing.
pub proof fn lemma_counted_adds_fields(t: Traffic, sent: u64, received: u64)
    requires
        t.0 + sent <= u64::MAX,
        t.1 + received <= u64::MAX,
    ensures
        counted(t, Some((sent, received))).0 == t.0 + sent,
        counted(t, Some((sent, received))).1 == t.1 + received,
        counted(t, None) == t,
{
}

} // verus!
