//! The paths a virtual host serves: handlers, reverse proxies, static files and
//! application interfaces, each under a URI prefix.

use vstd::prelude::*;

use crate::config::server::virtual_host::path::interface::InterfaceSettings;
use crate::config::server::virtual_host::path::proxy::ProxySettings;
use crate::config::server::virtual_host::path::static_files::StaticPathSettings;
use crate::errors::{HandlerError, VetisError, VirtualHostError};
use crate::server::virtual_host::path::interface::InterfacePath;
use crate::server::virtual_host::path::proxy::ProxyPath;
use crate::server::virtual_host::path::static_files::StaticPath;

pub mod auth;
pub mod interface;
pub mod proxy;
pub mod static_files;

verus! {

/// A path served by a handler of type `H`.
pub struct HandlerPath<H> {
    uri: String,
    handler: H,
}

/// Builder for handler paths.
pub struct HandlerPathBuilder<H> {
    uri: String,
    handler: Option<H>,
}

impl<H> HandlerPathBuilder<H> {
    /// The URI set so far.
    pub closed spec fn uri_view(self) -> Seq<char> {
        self.uri@
    }

    /// The handler set so far.
    pub closed spec fn handler_view(self) -> Option<H> {
        self.handler
    }

    /// Sets the URI prefix of the path.
    pub fn uri(self, uri: &str) -> (res: Self)
        ensures
            res.uri_view() == uri@,
            res.handler_view() == self.handler_view(),
    {
        HandlerPathBuilder { uri: uri.to_owned(), handler: self.handler }
    }

    /// Sets the handler of the path.
    pub fn handler(self, handler: H) -> (res: Self)
        ensures
            res.uri_view() == self.uri_view(),
            res.handler_view() == Some(handler),
    {
        HandlerPathBuilder { uri: self.uri, handler: Some(handler) }
    }

    /// Creates the handler path; the URI must not be empty and a handler must be set.
    pub fn build(self) -> (res: Result<HostPath<H>, VetisError>)
        ensures
            self.uri_view().len() == 0 ==> (res matches Err(
                VetisError::VirtualHost(VirtualHostError::Handler(HandlerError::Uri(m))),
            ) && m@ == "URI cannot be empty"@),
            self.uri_view().len() != 0 && self.handler_view() is None ==> (res matches Err(
                VetisError::VirtualHost(VirtualHostError::Handler(HandlerError::Handler(m))),
            ) && m@ == "Handler must be set"@),
            self.uri_view().len() != 0 && self.handler_view() is Some ==> (res matches Ok(
                HostPath::Handler(p),
            ) && p.uri_view() == self.uri_view() && p.handler_view() == self.handler_view()->Some_0),
    {
        if self.uri.as_str().is_empty() {
            return Err(
                VetisError::VirtualHost(
                    VirtualHostError::Handler(HandlerError::Uri("URI cannot be empty".to_owned())),
                ),
            );
        }
        match self.handler {
            Some(handler) => Ok(HostPath::Handler(HandlerPath { uri: self.uri, handler })),
            None => Err(
                VetisError::VirtualHost(
                    VirtualHostError::Handler(
                        HandlerError::Handler("Handler must be set".to_owned()),
                    ),
                ),
            ),
        }
    }
}

impl<H> HandlerPath<H> {
    /// Creates a builder with URI "/" and no handler.
    pub fn builder() -> (res: HandlerPathBuilder<H>)
        ensures
            res.uri_view() == "/"@,
            res.handler_view() is None,
    {
        HandlerPathBuilder { uri: "/".to_owned(), handler: None }
    }

    /// The URI prefix of the path.
    pub closed spec fn uri_view(self) -> Seq<char> {
        self.uri@
    }

    /// The handler of the path.
    pub closed spec fn handler_view(self) -> H {
        self.handler
    }

    /// Returns the URI prefix this path is served under.
    pub fn uri(&self) -> (res: &str)
        ensures
            res@ == self.uri_view(),
    {
        self.uri.as_str()
    }

    /// Returns the handler.
    pub fn handler(&self) -> (res: &H)
        ensures
            *res == self.handler_view(),
    {
        &self.handler
    }
}

/// A path of a virtual host.
pub enum HostPath<H> {
    /// Served by a handler
    Handler(HandlerPath<H>),
    /// Forwarded to another server
    Proxy(ProxyPath),
    /// Served from files
    Static(StaticPath),
    /// Handed to an application worker
    Interface(InterfacePath),
}

/// What a path is, without its handler.
pub enum PathView {
    /// A handler path under a URI
    Handler(Seq<char>),
    /// A proxy path
    Proxy(ProxySettings),
    /// A static path
    Static(StaticPathSettings),
    /// An interface path
    Interface(InterfaceSettings),
}

impl PathView {
    /// The URI prefix of the path.
    pub open spec fn uri(self) -> Seq<char> {
        match self {
            PathView::Handler(uri) => uri,
            PathView::Proxy(s) => s.uri,
            PathView::Static(s) => s.uri,
            PathView::Interface(s) => s.uri,
        }
    }
}

impl<H> View for HostPath<H> {
    type V = PathView;

    open spec fn view(&self) -> PathView {
        match self {
            HostPath::Handler(p) => PathView::Handler(p.uri_view()),
            HostPath::Proxy(p) => PathView::Proxy(p.settings()),
            HostPath::Static(p) => PathView::Static(p.settings()),
            HostPath::Interface(p) => PathView::Interface(p.settings()),
        }
    }
}

impl<H> HostPath<H> {
    /// Returns the URI prefix this path is served under.
    pub fn uri(&self) -> (res: &str)
        ensures
            res@ == self@.uri(),
    {
        match self {
            HostPath::Handler(p) => p.uri(),
            HostPath::Proxy(p) => p.uri(),
            HostPath::Static(p) => p.uri(),
            HostPath::Interface(p) => p.uri(),
        }
    }
}

} // verus!
