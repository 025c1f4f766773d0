use backconnectsocks5::admin::{
    admin_data, admin_response, admin_step, on_thread_finished, run_admin_endpoint,
    AdminAction, AdminEvent,
};
use backconnectsocks5::backend::{BackendData, ClientData, Proxy, ProxyHashMap};
use backconnectsocks5::http::{auth_header_from_encoded, insert_auth_header, proxy_auth_header};
use backconnectsocks5::proxy::{
    buy_response, connection_allowed, get_credentials, AdminProxyBody, CancelProxyBody,
    IpAddress, Protocol, ProxyData, ProxyInfo, SocketAddress,
};
use backconnectsocks5::table::{register_proxy, stop_proxy, ProxyHandle};
use backconnectsocks5::traffic::Traffic;
use std::collections::HashMap;
use std::sync::atomic::{AtomicU64, AtomicUsize, Ordering};
use std::sync::Arc;
use tokio_util::sync::CancellationToken;

fn info(user: &str, pass: &str) -> ProxyInfo {
    ProxyInfo {
        protocol: Protocol::Socks5,
        proxy_addr: SocketAddress { ip: IpAddress::V4(87, 106, 127, 114), port: 47049 },
        username: user.to_string(),
        password: pass.to_string(),
        m_credentials: (String::new(), String::new()),
    }
}

#[test]
fn traffic_arithmetic() {
    let a = Traffic(1, 2);
    let b = Traffic(10, 20);
    assert_eq!(a.add(b), Traffic(11, 22));
    assert_eq!(a.add(b), b.add(a));
    assert_eq!(a.add(Traffic::default()), a);
    let mut c = a;
    c.add_assign(b);
    assert_eq!(c, a.add(b));
    assert_eq!(Traffic::default(), Traffic(0, 0));
    assert_eq!(a.add(b).add(c), a.add(b.add(c)));
}

#[test]
fn protocol_names() {
    assert_eq!(Protocol::Socks5.to_string(), "socks5");
    assert_eq!(Protocol::Http.to_string(), "http");
}

#[test]
fn credentials_when_no_address_is_allowed() {
    let (u, p) = get_credentials(&Vec::new());
    assert_eq!(u.chars().count(), 7);
    assert_eq!(p.chars().count(), 15);
    assert!(u.chars().chain(p.chars()).all(|c| c.is_ascii_alphanumeric()));
}

#[test]
fn no_credentials_when_addresses_are_allowed() {
    let (u, p) = get_credentials(&vec!["127.0.0.1".to_string()]);
    assert_eq!(u, "");
    assert_eq!(p, "");
}

#[test]
fn admission_by_address() {
    let list = vec!["10.0.0.1".to_string(), "192.168.100.200".to_string()];
    assert!(connection_allowed(&list, &IpAddress::V4(192, 168, 100, 200)));
    assert!(connection_allowed(&list, &IpAddress::V4(10, 0, 0, 1)));
    assert!(!connection_allowed(&list, &IpAddress::V4(10, 0, 0, 2)));
    assert!(!connection_allowed(&list, &IpAddress::V6([0, 0, 0, 0, 0, 0, 0, 1])));
    assert!(connection_allowed(&Vec::new(), &IpAddress::V6([0; 8])));
    assert!(connection_allowed(&Vec::new(), &IpAddress::V4(1, 2, 3, 4)));
}

#[test]
fn buy_answers() {
    let ok = buy_response(9999, "1.2.3.4".to_string(), Some(("u".to_string(), "p".to_string())));
    assert_eq!(ok.status, 200);
    let d = ok.body.unwrap();
    assert_eq!(d.protocol, "socks5");
    assert_eq!(d.host, "1.2.3.4");
    assert_eq!(d.port, 9999);
    assert_eq!((d.m_username.as_str(), d.m_password.as_str()), ("u", "p"));
    let err = buy_response(9999, "1.2.3.4".to_string(), None);
    assert_eq!(err.status, 400);
    assert_eq!(err.body.unwrap_err().message, "Failed to run server");
}

#[test]
fn register_and_stop() {
    let mut proxies: HashMap<u16, ProxyHandle> = HashMap::new();
    let first = CancellationToken::new();
    register_proxy(&mut proxies, 9000, first.clone());
    assert_eq!(proxies.len(), 1);
    assert_eq!(proxies[&9000].traffic, Traffic(0, 0));
    assert!(!first.is_cancelled());

    let second = CancellationToken::new();
    register_proxy(&mut proxies, 9000, second.clone());
    assert!(first.is_cancelled());
    assert!(!second.is_cancelled());
    assert_eq!(proxies.len(), 1);

    let res = stop_proxy(&mut proxies, &CancelProxyBody { m_port: 9000 }, "5.6.7.8".to_string());
    assert_eq!(res.status, 200);
    let d = res.body.unwrap();
    assert_eq!((d.protocol.as_str(), d.host.as_str(), d.port), ("socks5", "5.6.7.8", 9000));
    assert!(second.is_cancelled());
    assert!(proxies.is_empty());

    let res = stop_proxy(&mut proxies, &CancelProxyBody { m_port: 9000 }, "5.6.7.8".to_string());
    assert_eq!(res.status, 400);
    assert_eq!(res.body.unwrap_err().message, "No proxy server found on port 9000");
}

#[test]
fn admin_endpoint() {
    let mut proxies: HashMap<u16, ProxyHandle> = HashMap::new();
    register_proxy(&mut proxies, 7000, CancellationToken::new());
    let counter = AtomicUsize::new(3);
    let res = run_admin_endpoint(&proxies, &AdminProxyBody { m_port: 7000, delay: 25 }, &counter)
        .unwrap();
    assert_eq!((res.m_port, res.delay, res.bytes_sent, res.bytes_received), (7000, 25, 0, 0));
    assert_eq!(res.active_threads, 3);
    assert_eq!(proxies[&7000].delay.load(Ordering::Acquire), 25);

    let err = run_admin_endpoint(&proxies, &AdminProxyBody { m_port: 7001, delay: 1 }, &counter)
        .unwrap_err();
    assert_eq!(err, "Port 7001 is not in use");
    let answer = admin_response(Err(err));
    assert_eq!(answer.status, 500);
    assert_eq!(answer.body.unwrap_err().message, "Port 7001 is not in use");

    let answer = admin_response(run_admin_endpoint(
        &proxies,
        &AdminProxyBody { m_port: 7000, delay: 0 },
        &counter,
    ));
    assert_eq!(answer.status, 200);
}

#[test]
fn admin_report_detects_lost_update() {
    let err = admin_data(42, 10, 11, Traffic(1, 2), 0).unwrap_err();
    assert_eq!(err, "Error on updating delay for m_port: 42.");
    let ok = admin_data(42, 10, 10, Traffic(1, 2), 5).unwrap();
    assert_eq!((ok.bytes_sent, ok.bytes_received, ok.active_threads), (1, 2, 5));
}

#[test]
fn admin_task_bookkeeping() {
    let mut proxies: HashMap<u16, ProxyHandle> = HashMap::new();
    let mut live: HashMap<u16, ProxyData> = HashMap::new();
    register_proxy(&mut proxies, 8000, CancellationToken::new());

    let mut running: Vec<(u16, &str)> = Vec::new();
    let cell = Arc::new(AtomicU64::new(77));
    let action = admin_step(
        &mut proxies,
        &mut live,
        &mut running,
        AdminEvent::StartProxy(8000, cell.clone(), info("a", "b")),
    );
    assert_eq!(action, AdminAction::SaveLiveProxies);
    let action = admin_step(&mut proxies, &mut live, &mut running, AdminEvent::NewServeOne(8000, "c1"));
    assert_eq!(action, AdminAction::Nothing);
    assert_eq!(running, vec![(8000, "c1")]);
    assert!(Arc::ptr_eq(&proxies[&8000].delay, &cell));
    assert_eq!(live[&8000].traffic, Traffic(0, 0));
    assert_eq!(live[&8000].info.username, "a");

    on_thread_finished(&mut proxies, &mut live, 8000, Some((100, 200)));
    on_thread_finished(&mut proxies, &mut live, 8000, None);
    on_thread_finished(&mut proxies, &mut live, 8000, Some((1, 2)));
    assert_eq!(proxies[&8000].traffic, Traffic(101, 202));
    assert_eq!(live[&8000].traffic, Traffic(101, 202));

    on_thread_finished(&mut proxies, &mut live, 8001, Some((5, 5)));
    assert_eq!(proxies.len(), 1);
    assert!(!live.contains_key(&8001));

    let action = admin_step(&mut proxies, &mut live, &mut running, AdminEvent::StopProxy(8000));
    assert_eq!(action, AdminAction::SaveLiveProxies);
    assert!(live.is_empty());
    assert_eq!(proxies.len(), 1);
    assert_eq!(running.len(), 1);

    let action = admin_step(
        &mut proxies,
        &mut live,
        &mut running,
        AdminEvent::StartProxy(8002, Arc::new(AtomicU64::new(0)), info("x", "y")),
    );
    assert_eq!(action, AdminAction::SaveLiveProxies);
    assert!(!proxies.contains_key(&8002));
    assert_eq!(live[&8002].info.password, "y");
    assert_eq!(proxies[&8000].traffic, Traffic(101, 202));
}

fn record(m_port: u16, host: &str, port: u16, user: &str) -> ClientData {
    ClientData {
        user: user.to_string(),
        proxy: Proxy {
            protocol: Protocol::Http,
            host: host.to_string(),
            port,
            username: "pu".to_string(),
            password: "pp".to_string(),
            url: String::new(),
            is_deleted: false,
            id: String::new(),
        },
        protocol: Protocol::Socks5,
        m_username: "mu".to_string(),
        m_password: "mp".to_string(),
        allow_ip: vec!["127.0.0.1".to_string()],
        m_host: String::new(),
        m_port,
        data_in: 5,
        data_out: 6,
        created: String::new(),
        updated: String::new(),
        m_url: String::new(),
        is_deleted: false,
        id: String::new(),
    }
}

#[test]
fn live_map_from_backend() {
    let records = vec![
        record(9999, "87.106.127.114", 47049, "first"),
        record(9998, "not an address", 1, "bad"),
        record(9999, "10.0.0.1", 1080, "second"),
    ];
    assert_eq!(records[0].upstream_text(), "87.106.127.114:47049");
    assert_eq!(records[2].upstream_text(), "10.0.0.1:1080");
    let addrs = vec![
        Some(SocketAddress { ip: IpAddress::V4(87, 106, 127, 114), port: 47049 }),
        None,
        Some(SocketAddress { ip: IpAddress::V4(10, 0, 0, 1), port: 1080 }),
    ];
    let map = ProxyHashMap::from(BackendData { data: records }, addrs).hashmap;
    assert_eq!(map.len(), 1);
    let entry = &map[&9999];
    assert_eq!(entry.info.proxy_addr.port, 1080);
    assert_eq!(entry.info.protocol, Protocol::Socks5);
    assert_eq!(entry.info.username, "pu");
    assert_eq!(entry.info.m_credentials, ("mu".to_string(), "mp".to_string()));
    assert_eq!(entry.traffic, Traffic(6, 5));

    let empty = ProxyHashMap::from(BackendData { data: Vec::new() }, Vec::new());
    assert!(empty.hashmap.is_empty());
}

#[test]
fn proxy_authorization_header() {
    assert_eq!(
        proxy_auth_header(&info("user", "pass")),
        b"\r\nProxy-Authorization: Basic dXNlcjpwYXNz".to_vec()
    );
    assert_eq!(
        proxy_auth_header(&info("", "")),
        b"\r\nProxy-Authorization: Basic Og==".to_vec()
    );
    assert_eq!(
        auth_header_from_encoded("abc"),
        b"\r\nProxy-Authorization: Basic abc".to_vec()
    );
}

#[test]
fn header_inserted_after_request_line() {
    let header = b"\r\nProxy-Authorization: Basic abc";
    assert_eq!(
        insert_auth_header(b"GET http://a/ HTTP/1.1\r\nHost: a\r\n\r\n", header),
        b"GET http://a/ HTTP/1.1\r\nProxy-Authorization: Basic abc\r\nHost: a\r\n\r\n".to_vec()
    );
    assert_eq!(
        insert_auth_header(b"CONNECT a:443 HTTP/1.1", header),
        b"CONNECT a:443 HTTP/1.1\r\nProxy-Authorization: Basic abc".to_vec()
    );
    assert_eq!(insert_auth_header(b"", b"xy"), b"xy".to_vec());
    assert_eq!(insert_auth_header(b"\r", b"xy"), b"\rxy".to_vec());
    assert_eq!(insert_auth_header(b"\r\n", b"xy"), b"xy\r\n".to_vec());
}
