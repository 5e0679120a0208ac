# vetis

VeTiS, a very tiny HTTP server, as a library whose decisions carry contracts proved
by Verus, and a small program around it.

- `src/config`: builders of listener, server, virtual host, security, static, proxy,
  interface and basic-authentication configurations, with their validation.
- `src/server/virtual_host`: virtual hosts, routing of request paths to the path of
  the longest URI prefix (a radix trie), the registry of hosts by name and port, and
  the paths themselves: handlers, proxies, static files, application interfaces and
  basic authentication.
- `src/server/conn.rs`, `src/server/tls.rs`, `src/server/instance.rs`: which host a
  request is for and how it is answered (HTTP/1, HTTP/2 and HTTP/3), TLS detection
  and configuration, default headers, and the start/stop state of a server.
- `src/text.rs`, `src/utils`: verified text helpers and date formatting.
- `app/`: the executable: configuration file, sockets, TLS streams, files and the
  HTTP stack, all driven by the library's decisions.
