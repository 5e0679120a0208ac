//! Decisions of a connection: whether it opens with TLS, which host a request is for,
//! and which default headers a response gets.

use vstd::prelude::*;
use vstd::string::{StrSliceExecFns, StringSliceAdditionalSpecFns};

use crate::config::server::virtual_host::{header_pairs, VirtualHostConfig};
use crate::server::virtual_host::path::HostPath;
use crate::server::virtual_host::registry::VirtualHosts;
use crate::server::virtual_host::{is_longest_prefix, is_prefix, VirtualHost};
use crate::config::server::Protocol;
use crate::errors::{VetisError, VirtualHostError};
use crate::text::{
    ascii_chars, header_text, header_value_ok, is_header_value, split_once_char, split_once_spec,
    visible_ascii,
};

verus! {

/// Whether the `http` crate accepts the bytes as a header name.
pub uninterp spec fn header_name_valid(name: Seq<u8>) -> bool;

/// Checks that bytes can be a header name.
///
/// Calls `http::header::HeaderName::from_bytes`, whose source refuses an empty name.
#[verifier::external_body]
fn is_header_name(name: &[u8]) -> (res: bool)
    ensures
        res == header_name_valid(name@),
        name@.len() == 0 ==> !res,
{
    http::header::HeaderName::from_bytes(name).is_ok()
}

/// The first bytes of a TLS handshake: a handshake record of protocol version 3.
pub open spec fn opens_tls(prefix: Seq<u8>) -> bool {
    prefix.len() >= 2 && prefix[0] == 0x16u8 && prefix[1] == 0x03u8
}

/// Whether the first bytes read from a connection open a TLS handshake.
pub fn looks_like_tls(prefix: &[u8]) -> (res: bool)
    ensures
        res == opens_tls(prefix@),
{
    prefix.len() >= 2 && prefix[0] == 0x16u8 && prefix[1] == 0x03u8
}

/// How a listener receives connections.
#[derive(Clone, Copy, Debug, PartialEq, Eq, Structural)]
pub enum Transport {
    /// TCP, for HTTP/1 and HTTP/2
    Tcp,
    /// UDP, for HTTP/3 over QUIC
    Udp,
}

/// The transport of a listener of the given protocol.
pub fn transport_for(protocol: Protocol) -> (res: Transport)
    ensures
        res == (if protocol == Protocol::Http3 {
            Transport::Udp
        } else {
            Transport::Tcp
        }),
{
    match protocol {
        Protocol::Http3 => Transport::Udp,
        _ => Transport::Tcp,
    }
}

/// The host a request is for.
///
/// With a `Host` header: its text up to the first `:`, or "localhost" when the value is
/// not visible ASCII text. Without one: the host of the request target's authority, or
/// "localhost" when it has none.
pub open spec fn host_of(host_header: Option<Seq<u8>>, authority_host: Option<Seq<char>>) -> Seq<char> {
    match host_header {
        Some(value) => if visible_ascii(value) {
            match split_once_spec(ascii_chars(value), ':') {
                Some((host, _)) => host,
                None => ascii_chars(value),
            }
        } else {
            "localhost"@
        },
        None => match authority_host {
            Some(host) => host,
            None => "localhost"@,
        },
    }
}

/// Finds the host a request is for (see [`host_of`]).
pub fn request_host(host_header: Option<&[u8]>, authority_host: Option<&str>) -> (res: String)
    ensures
        res@ == host_of(
            match host_header {
                Some(v) => Some(v@),
                None => None,
            },
            match authority_host {
                Some(h) => Some(h@),
                None => None,
            },
        ),
{
    match host_header {
        Some(value) => match header_text(value) {
            Some(text) => match split_once_char(text.as_str(), ':') {
                Some((host, _)) => host,
                None => text,
            },
            None => "localhost".to_owned(),
        },
        None => match authority_host {
            Some(host) => host.to_owned(),
            None => "localhost".to_owned(),
        },
    }
}

/// A default header that can be set on a response: its name is a header name and its
/// value a header value.
pub open spec fn settable(pair: (Seq<char>, Seq<char>)) -> bool {
    &&& header_name_valid(vstd::utf8::encode_utf8(pair.0))
    &&& forall|i: int|
        0 <= i < vstd::utf8::encode_utf8(pair.1).len() ==> #[trigger] crate::text::is_header_value_byte(
            vstd::utf8::encode_utf8(pair.1)[i],
        )
}

/// The default headers of a virtual host that are set on its responses, in the order
/// they were added; those with an invalid name or value are skipped.
pub fn response_headers(config: &VirtualHostConfig) -> (res: Vec<(String, String)>)
    ensures
        header_pairs(res@) == match config@.default_headers {
            Some(h) => h.filter(|p: (Seq<char>, Seq<char>)| settable(p)),
            None => Seq::empty(),
        },
{
    let mut out: Vec<(String, String)> = Vec::new();
    match config.default_headers() {
        Some(headers) => {
            let ghost all = header_pairs(headers@);
            proof {
                reveal(Seq::filter);
                assert(all.take(0).filter(|p: (Seq<char>, Seq<char>)| settable(p)) =~= Seq::<
                    (Seq<char>, Seq<char>),
                >::empty());
                assert(header_pairs(out@) =~= Seq::<(Seq<char>, Seq<char>)>::empty());
            }
            let mut i: usize = 0;
            while i < headers.len()
                invariant
                    i <= headers@.len(),
                    all == header_pairs(headers@),
                    header_pairs(out@) == all.take(i as int).filter(
                        |p: (Seq<char>, Seq<char>)| settable(p),
                    ),
                decreases headers@.len() - i,
            {
                let name = headers[i].0.as_str();
                let value = headers[i].1.as_str();
                let name_bytes = name.as_bytes();
                let ok_name = is_header_name(name_bytes);
                let ok_value = is_header_value(value);
                proof {
                    assert(name.spec_bytes() == vstd::utf8::encode_utf8(name@));
                    assert(value.spec_bytes() == vstd::utf8::encode_utf8(value@));
                    assert(ok_name == header_name_valid(vstd::utf8::encode_utf8(name@)));
                    assert(ok_value == header_value_ok(value));
                    assert(header_value_ok(value) == (forall|k: int|
                        0 <= k < vstd::utf8::encode_utf8(value@).len()
                            ==> #[trigger] crate::text::is_header_value_byte(
                            vstd::utf8::encode_utf8(value@)[k],
                        )));
                    let pair = (name@, value@);
                    assert(pair.0 == name@ && pair.1 == value@);
                    assert(settable(pair) == (header_name_valid(vstd::utf8::encode_utf8(name@)) && (forall|k: int|
                        0 <= k < vstd::utf8::encode_utf8(value@).len()
                            ==> #[trigger] crate::text::is_header_value_byte(
                            vstd::utf8::encode_utf8(value@)[k],
                        ))));
                    assert((ok_name && ok_value) == settable((name@, value@)));
                    assert(all.take(i + 1).drop_last() =~= all.take(i as int));
                    assert(all.take(i + 1).last() == (name@, value@));
                    assert(all.take(i as int + 1).filter(|p: (Seq<char>, Seq<char>)| settable(p))
                        == {
                        let f = all.take(i as int).filter(|p: (Seq<char>, Seq<char>)| settable(p));
                        if settable((name@, value@)) {
                            f.push((name@, value@))
                        } else {
                            f
                        }
                    }) by {
                        reveal(Seq::filter);
                    }
                }
                if ok_name && ok_value {
                    let ghost before = out@;
                    out.push((headers[i].0.clone(), headers[i].1.clone()));
                    proof {
                        assert(header_pairs(out@) =~= header_pairs(before).push((name@, value@)));
                    }
                }
                i = i + 1;
            }
            proof {
                assert(all.take(i as int) =~= all);
            }
        },
        None => {
            proof {
                assert(header_pairs(out@) =~= Seq::<(Seq<char>, Seq<char>)>::empty());
            }
        },
    }
    out
}

/// The status whose page answers an error of a path: "not found" for a path that
/// cannot be served, and none for other errors, which are passed on.
pub fn error_status_page(error: &VetisError) -> (res: Option<u16>)
    ensures
        res == (if error matches VetisError::VirtualHost(VirtualHostError::InvalidPath(_)) {
            Some(404u16)
        } else {
            None::<u16>
        }),
{
    match error {
        VetisError::VirtualHost(VirtualHostError::InvalidPath(_)) => Some(404),
        _ => None,
    }
}


/// The handler that serves the requests of one HTTP/3 connection.
pub struct ServerHandler<S> {
    handler: S,
}

impl<S> ServerHandler<S> {
    /// Creates a connection handler around a request handler.
    pub fn new(handler: S) -> (res: Self)
        ensures
            res.handler_view() == handler,
    {
        ServerHandler { handler }
    }

    /// The request handler.
    pub closed spec fn handler_view(self) -> S {
        self.handler
    }

    /// Returns the request handler.
    pub fn handler(&self) -> (res: &S)
        ensures
            *res == self.handler_view(),
    {
        &self.handler
    }
}


/// The answer to an HTTP/3 request, decided before or after routing.
pub enum QuicAnswer {
    /// A response with this status code and text body
    Status(u16, String),
    /// The response of the routed path, with the default headers of its host
    Routed,
}

/// Decides the answer to an HTTP/3 request: without an authority in its target it is
/// 400 "Host not found in request"; for an unknown host 404 "Virtual host not found";
/// when routing fails 500 "Internal server error"; otherwise the routed response.
pub fn quic_answer(authority_host: Option<&str>, host_found: bool, route_ok: bool) -> (res: QuicAnswer)
    ensures
        authority_host is None ==> (res matches QuicAnswer::Status(code, m) && code == 400 && m@
            == "Host not found in request"@),
        authority_host is Some && !host_found ==> (res matches QuicAnswer::Status(code, m) && code
            == 404 && m@ == "Virtual host not found"@),
        authority_host is Some && host_found && !route_ok ==> (res matches QuicAnswer::Status(
            code,
            m,
        ) && code == 500 && m@ == "Internal server error"@),
        authority_host is Some && host_found && route_ok ==> res is Routed,
{
    match authority_host {
        None => QuicAnswer::Status(400, "Host not found in request".to_owned()),
        Some(_) => if !host_found {
            QuicAnswer::Status(404, "Virtual host not found".to_owned())
        } else if !route_ok {
            QuicAnswer::Status(500, "Internal server error".to_owned())
        } else {
            QuicAnswer::Routed
        },
    }
}

/// What to do with a request, decided from its host and path.
pub enum RequestPlan<'a, H> {
    /// No virtual host: status 404 "Virtual host not found"
    UnknownHost,
    /// No path of the host matches: status 404 "Not Found"
    NoRoute,
    /// Run `path` on what is left of the request path, then set `headers` on its
    /// response, each replacing a header of the same name
    Routed { host: &'a VirtualHost<H>, path: &'a HostPath<H>, rest: String, headers: Vec<(String, String)> },
}

impl<'a, H> RequestPlan<'a, H> {
    /// The status code and text of an answer made without running a path.
    pub fn direct_answer(&self) -> (res: Option<(u16, String)>)
        ensures
            self is UnknownHost ==> (res matches Some((code, m)) && code == 404 && m@
                == "Virtual host not found"@),
            self is NoRoute ==> (res matches Some((code, m)) && code == 404 && m@ == "Not Found"@),
            self is Routed ==> res is None,
    {
        match self {
            RequestPlan::UnknownHost => Some((404, "Virtual host not found".to_owned())),
            RequestPlan::NoRoute => Some((404, "Not Found".to_owned())),
            RequestPlan::Routed { .. } => None,
        }
    }
}

/// Plans a request that came in on `port`: its virtual host is the one registered
/// under the request's host (see [`host_of`]) and `port`; its path is the one of that
/// host with the longest URI prefix of the request path; and the default headers of
/// that host that can be set are set on the response.
pub fn plan_request<'a, H>(
    hosts: &'a VirtualHosts<H>,
    host_header: Option<&[u8]>,
    authority_host: Option<&str>,
    port: u16,
    request_path: &str,
) -> (res: RequestPlan<'a, H>)
    ensures
        ({
            let key = (
                host_of(
                    match host_header {
                        Some(v) => Some(v@),
                        None => None,
                    },
                    match authority_host {
                        Some(h) => Some(h@),
                        None => None,
                    },
                ),
                port,
            );
            match res {
                RequestPlan::UnknownHost => !hosts.hosts_by_key().contains_key(key),
                RequestPlan::NoRoute => hosts.hosts_by_key().contains_key(key) && forall|k: Seq<char>|
                    #[trigger] hosts.hosts_by_key()[key].routes().contains_key(k) ==> !is_prefix(
                        k,
                        request_path@,
                    ),
                RequestPlan::Routed { host, path, rest, headers } => {
                    &&& hosts.hosts_by_key().contains_key(key)
                    &&& *host == hosts.hosts_by_key()[key]
                    &&& exists|k: Seq<char>|
                        is_longest_prefix(host.routes().dom(), k, request_path@)
                            && #[trigger] host.routes()[k] == *path && rest@ == request_path@.skip(
                            k.len() as int,
                        )
                    &&& header_pairs(headers@) == match host.settings().default_headers {
                        Some(h) => h.filter(|p: (Seq<char>, Seq<char>)| settable(p)),
                        None => Seq::empty(),
                    }
                },
            }
        }),
{
    let host_name = request_host(host_header, authority_host);
    match hosts.get(host_name.as_str(), port) {
        None => RequestPlan::UnknownHost,
        Some(host) => match host.route(request_path) {
            None => RequestPlan::NoRoute,
            Some((path, rest)) => {
                let headers = response_headers(host.config());
                RequestPlan::Routed { host, path, rest, headers }
            },
        },
    }
}


/// A default header can be set exactly when the `http` crate accepts its name and
/// every UTF-8 byte of its value is a tab, or at least 32 and not 127: spaces and
/// bytes of non-ASCII text are allowed in values.
pub proof fn law_settable_header(name: Seq<char>, value: Seq<char>)
    ensures
        settable((name, value)) <==> (header_name_valid(vstd::utf8::encode_utf8(name))
            && forall|i: int|
            0 <= i < vstd::utf8::encode_utf8(value).len() ==> (#[trigger] vstd::utf8::encode_utf8(
                value,
            )[i] == 9 || (vstd::utf8::encode_utf8(value)[i] >= 32 && vstd::utf8::encode_utf8(
                value,
            )[i] != 127))),
{
    let bytes = vstd::utf8::encode_utf8(value);
    let pair = (name, value);
    assert(pair.0 == name && pair.1 == value);
    assert(settable(pair) == (header_name_valid(vstd::utf8::encode_utf8(name)) && (forall|i: int|
        0 <= i < bytes.len() ==> #[trigger] crate::text::is_header_value_byte(bytes[i]))));
    assert((forall|i: int|
        0 <= i < bytes.len() ==> #[trigger] crate::text::is_header_value_byte(bytes[i])) <==> (
    forall|i: int| 0 <= i < bytes.len() ==> (#[trigger] bytes[i] == 9 || (bytes[i] >= 32
        && bytes[i] != 127)))) by {
        if forall|i: int|
            0 <= i < bytes.len() ==> #[trigger] crate::text::is_header_value_byte(bytes[i]) {
            assert forall|i: int| 0 <= i < bytes.len() implies (#[trigger] bytes[i] == 9 || (
            bytes[i] >= 32 && bytes[i] != 127)) by {
                assert(crate::text::is_header_value_byte(bytes[i]));
            }
        }
        if forall|i: int| 0 <= i < bytes.len() ==> (#[trigger] bytes[i] == 9 || (bytes[i] >= 32
            && bytes[i] != 127)) {
            assert forall|i: int| 0 <= i < bytes.len() implies #[trigger] crate::text::is_header_value_byte(
                bytes[i],
            ) by {
                assert(bytes[i] == 9 || (bytes[i] >= 32 && bytes[i] != 127));
            }
        }
    }
}

} // verus!
