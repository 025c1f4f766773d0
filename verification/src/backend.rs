//! The proxy list kept by the backend, and the live-proxy map built from it
//! when the server starts.
use vstd::prelude::*;
use std::collections::HashMap;
use crate::proxy::{Protocol, ProxyData, ProxyInfo, SocketAddress};
use crate::text::{decimal, push_char, push_decimal};
use crate::traffic::Traffic;

verus! {

broadcast use vstd::std_specs::hash::group_hash_axioms;

/// An upstream proxy as the backend describes it.
#[derive(Debug)]
pub struct Proxy {
    pub protocol: Protocol,
    pub host: String,
    pub port: u16,
    pub username: String,
    pub password: String,
    pub url: String,
    pub is_deleted: bool,
    pub id: String,
}

/// A customer's proxy as the backend describes it: the upstream, the
/// credentials and port of this server's side, and the traffic so far.
#[derive(Debug)]
pub struct ClientData {
    pub user: String,
    pub proxy: Proxy,
    pub protocol: Protocol,
    pub m_username: String,
    pub m_password: String,
    pub allow_ip: Vec<String>,
    pub m_host: String,
    pub m_port: u16,
    pub data_in: u64,
    pub data_out: u64,
    pub created: String,
    pub updated: String,
    pub m_url: String,
    pub is_deleted: bool,
    pub id: String,
}

/// The backend's whole list.
#[derive(Debug)]
pub struct BackendData {
    pub data: Vec<ClientData>,
}

/// The live proxies by the port that they listen on.
#[derive(Debug)]
pub struct ProxyHashMap {
    pub hashmap: HashMap<u16, ProxyData>,
}

/// The text that the upstream address of a record is parsed from:
/// `host:port`.
pub open spec fn upstream_text(d: ClientData) -> Seq<char> {
    d.proxy.host@ + seq![':'] + decimal(d.proxy.port as nat)
}

/// The live proxy that a record describes, once its upstream address is
/// known. The traffic counts the record's outgoing bytes as sent and its
/// incoming bytes as received.
pub open spec fn proxy_data_of(d: ClientData, addr: SocketAddress) -> ProxyData {
    ProxyData {
        info: ProxyInfo {
            protocol: d.protocol,
            proxy_addr: addr,
            username: d.proxy.username,
            password: d.proxy.password,
            m_credentials: (d.m_username, d.m_password),
        },
        traffic: Traffic(d.data_out, d.data_in),
    }
}

/// The live-proxy map of the first records, each with its upstream address
/// when it parsed: records in order, a later record for a port replacing an
/// earlier one, records whose address did not parse left out.
pub open spec fn live_map(records: Seq<ClientData>, addrs: Seq<Option<SocketAddress>>) -> Map<
    u16,
    ProxyData,
>
    decreases records.len(),
{
    if records.len() == 0 || addrs.len() == 0 {
        Map::empty()
    } else {
        let prev = live_map(records.drop_last(), addrs.drop_last());
        match addrs.last() {
            Some(a) => prev.insert(records.last().m_port, proxy_data_of(records.last(), a)),
            None => prev,
        }
    }
}

impl ClientData {
    /// The text of the upstream address, `host:port`.
    pub fn upstream_text(&self) -> (res: String)
        ensures
            res@ == upstream_text(*self),
    {
        let mut s = self.proxy.host.clone();
        push_char(&mut s, ':');
        push_decimal(&mut s, self.proxy.port as u64);
        s
    }
}

/// The live proxy of a record with its parsed upstream address.
fn proxy_data(d: &ClientData, addr: SocketAddress) -> (res: ProxyData)
    ensures
        res == proxy_data_of(*d, addr),
{
    ProxyData {
        info: ProxyInfo {
            protocol: d.protocol,
            proxy_addr: addr,
            username: d.proxy.username.clone(),
            password: d.proxy.password.clone(),
            m_credentials: (d.m_username.clone(), d.m_password.clone()),
        },
        traffic: Traffic(d.data_out, d.data_in),
    }
}

impl ProxyHashMap {
    /// The live-proxy map of the backend's list; `proxy_addrs[i]` is the
    /// upstream address parsed from the `i`-th record's
    /// [`upstream_text`](ClientData::upstream_text), or `None` when it does
    /// not parse.
    pub fn from(backend_data: BackendData, proxy_addrs: Vec<Option<SocketAddress>>) -> (res:
        ProxyHashMap)
        requires
            proxy_addrs@.len() == backend_data.data@.len(),
        ensures
            res.hashmap@ == live_map(backend_data.data@, proxy_addrs@),
    {
        let mut hashmap: HashMap<u16, ProxyData> = HashMap::new();
        let n = backend_data.data.len();
        let mut i: usize = 0;
        while i < n
            invariant
                n == backend_data.data@.len(),
                n == proxy_addrs@.len(),
                i <= n,
                hashmap@ == live_map(
                    backend_data.data@.take(i as int),
                    proxy_addrs@.take(i as int),
                ),
            decreases n - i,
        {
            let ghost records = backend_data.data@.take(i + 1);
            let ghost addrs = proxy_addrs@.take(i + 1);
            proof {
                assert(records.drop_last() =~= backend_data.data@.take(i as int));
                assert(addrs.drop_last() =~= proxy_addrs@.take(i as int));
            }
            let data = &backend_data.data[i];
            if let Some(addr) = proxy_addrs[i] {
                let entry = proxy_data(data, addr);
                hashmap.insert(data.m_port, entry);
            }
            i = i + 1;
        }
        proof {
            assert(backend_data.data@.take(n as int) =~= backend_data.data@);
            assert(proxy_addrs@.take(n as int) =~= proxy_addrs@);
        }
        ProxyHashMap { hashmap }
    }
}

/// Every live proxy comes from a record whose address parsed, the last
/// such record for its port; and every port of such a record is live.
pub proof fn lemma_live_map_sources(
    records: Seq<ClientData>,
    addrs: Seq<Option<SocketAddress>>,
    port: u16,
)
    requires
        records.len() == addrs.len(),
    ensures
        live_map(records, addrs).contains_key(port) <==> exists|i: int|
            0 <= i < records.len() && addrs[i] is Some && (#[trigger] records[i]).m_port == port,
        live_map(records, addrs).contains_key(port) ==> exists|i: int|
            0 <= i < records.len() && addrs[i] is Some && (#[trigger] records[i]).m_port == port
                && live_map(records, addrs)[port] == proxy_data_of(records[i], addrs[i]->Some_0)
                && forall|j: int|
                i < j < records.len() && addrs[j] is Some ==> (#[trigger] records[j]).m_port != port,
    decreases records.len(),
{
    if records.len() > 0 {
        let r = records.drop_last();
        let a = addrs.drop_last();
        let n = records.len() - 1;
        lemma_live_map_sources(r, a, port);
        if addrs[n] is Some && records[n].m_port == port {
            assert(live_map(records, addrs)[port] == proxy_data_of(records[n], addrs[n]->Some_0));
            assert(0 <= n < records.len() && addrs[n] is Some && records[n].m_port == port);
        } else {
            assert(live_map(records, addrs).contains_key(port) == live_map(r, a).contains_key(port));
            if live_map(r, a).contains_key(port) {
                assert(live_map(records, addrs)[port] == live_map(r, a)[port]);
                let i = choose|i: int|
                    0 <= i < r.len() && a[i] is Some && (#[trigger] r[i]).m_port == port
                        && live_map(r, a)[port] == proxy_data_of(r[i], a[i]->Some_0) && forall|j: int|
                        i < j < r.len() && a[j] is Some ==> (#[trigger] r[j]).m_port != port;
                assert(records[i] == r[i]);
                assert forall|j: int| i < j < records.len() && addrs[j] is Some implies (
                #[trigger] records[j]).m_port != port by {
                    if j < n {
                        assert(records[j] == r[j]);
                    }
                }
            }
        }
        if exists|i: int| 0 <= i < records.len() && addrs[i] is Some && (#[trigger] records[i]).m_port == port {
            let i = choose|i: int| 0 <= i < records.len() && addrs[i] is Some && (#[trigger] records[i]).m_port == port;
            if i < n {
                assert(r[i] == records[i]);
            }
        }
    }
}

/// A live entry describes the record that supplies its port: the upstream
/// protocol-independent fields come from the record's upstream proxy (its
/// address as parsed, its username and password), the client-facing
/// credentials from the record's own, the protocol from the record, and
/// the counters take the record's outgoing bytes as sent and its incoming
/// bytes as received.
pub proof fn lemma_live_entry_fields(
    records: Seq<ClientData>,
    addrs: Seq<Option<SocketAddress>>,
    port: u16,
)
    requires
        records.len() == addrs.len(),
        live_map(records, addrs).contains_key(port),
    ensures
        exists|i: int|
            0 <= i < records.len() && addrs[i] is Some && (#[trigger] records[i]).m_port == port && {
                let e = live_map(records, addrs)[port];
                &&& e.info.proxy_addr == addrs[i]->Some_0
                &&& e.info.username == records[i].proxy.username
                &&& e.info.password == records[i].proxy.password
                &&& e.info.m_credentials == (records[i].m_username, records[i].m_password)
                &&& e.info.protocol == records[i].protocol
                &&& e.traffic.0 == records[i].data_out
                &&& e.traffic.1 == records[i].data_in
            },
{
    lemma_live_map_sources(records, addrs, port);
}

} // verus!
