# backconnectsocks5

A back-connect proxy server: customers buy a local port through an HTTP API,
and every connection to that port is relayed, over SOCKS5 or HTTP, to the
customer's upstream proxy, with per-proxy traffic counters and delays.

The decisions of the server live in a library verified with Verus (`src/`):

- `socks5`: the SOCKS5 handshake as two step functions — the accepting side
  (greeting, username/password, request) and the connecting side (toward the
  upstream proxy) — with the request encoding they share;
- `socks5_laws`: what the handshake guarantees: a request encoded by the
  connecting side is read back by the accepting side, an anonymous handshake
  between the two sides completes, and on the accepting side the credentials
  decide an authenticated handshake (which completes only when the configured
  credentials were sent). The connecting side's credentials message carries
  no sub-negotiation version byte, so the two sides do not complete an
  authenticated handshake with each other;
- `proxy`, `table`, `admin`: the API bodies and answers, the table of running
  proxies, the admin endpoint and the admin task's bookkeeping;
- `backend`: the live-proxy map built from the backend's list;
- `http`: the `Proxy-Authorization` header;
- `traffic`, `text`: counters and text rendering.

`app/` holds the executable: sockets, the warp routes, the tokio tasks, the
backend request and the live-proxies file.
