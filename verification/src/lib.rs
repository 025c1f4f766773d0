//! A verified core for a back-connect SOCKS5 proxy server: the SOCKS5
//! handshakes on both sides, the proxy table kept by the admin endpoints,
//! the traffic bookkeeping and the conversion of the backend's proxy list.
pub mod text;
pub mod socks5;
pub mod socks5_laws;
pub mod traffic;
pub mod proxy;
pub mod table;
pub mod admin;
pub mod backend;
pub mod http;
