//! The routing declaration under judgment: a virtual service claiming
//! gateways, advertising hostnames, and carrying three independent route
//! collections, plus the destinations derived from them.

use vstd::prelude::*;

verus! {

/// The protocol a requested destination speaks, fixed by which route
/// collection it came from.
#[derive(Debug, Clone, Copy, PartialEq, Eq, Structural, Hash)]
pub enum Protocol {
    Http,
    Tcp,
    Tls,
}

/// The tag under which a protocol appears in rejection reasons, and against
/// which a rule's `protocol` field is compared case-insensitively.
pub open spec fn protocol_name(p: Protocol) -> Seq<char> {
    match p {
        Protocol::Http => "HTTP"@,
        Protocol::Tcp => "TCP"@,
        Protocol::Tls => "TLS"@,
    }
}

impl Protocol {
    /// The protocol tag as text.
    pub fn name(&self) -> (r: &'static str)
        ensures
            r@ == protocol_name(*self),
    {
        match self {
            Protocol::Http => "HTTP",
            Protocol::Tcp => "TCP",
            Protocol::Tls => "TLS",
        }
    }
}

/// One forwarding target of a route: a destination service and, optionally,
/// a port.
#[derive(Debug)]
pub struct ForwardTarget {
    pub host: String,
    pub port: Option<i32>,
}

/// Mathematical model of a forwarding target.
pub ghost struct ForwardTargetV {
    pub host: Seq<char>,
    pub port: Option<int>,
}

impl View for ForwardTarget {
    type V = ForwardTargetV;

    open spec fn view(&self) -> ForwardTargetV {
        ForwardTargetV {
            host: self.host@,
            port: match self.port {
                Some(p) => Some(p as int),
                None => None,
            },
        }
    }
}

impl DeepView for ForwardTarget {
    type V = ForwardTargetV;

    open spec fn deep_view(&self) -> ForwardTargetV {
        self.view()
    }
}

/// One route of a collection, optionally carrying its forwarding targets.
/// A route without targets contributes no destination.
#[derive(Debug)]
pub struct Route {
    pub targets: Option<Vec<ForwardTarget>>,
}

/// Mathematical model of a route.
pub ghost struct RouteV {
    pub targets: Option<Seq<ForwardTargetV>>,
}

impl View for Route {
    type V = RouteV;

    open spec fn view(&self) -> RouteV {
        RouteV { targets: self.targets.deep_view() }
    }
}

impl DeepView for Route {
    type V = RouteV;

    open spec fn deep_view(&self) -> RouteV {
        self.view()
    }
}

/// The routing declaration: a namespaced object with a kind discriminator,
/// claimed gateways, advertised hostnames, and three route collections
/// (request-routed, raw-transport, and TLS-passthrough).
#[derive(Debug)]
pub struct VirtualService {
    pub kind: String,
    pub namespace: Option<String>,
    pub gateways: Option<Vec<String>>,
    pub hosts: Option<Vec<String>>,
    pub http: Option<Vec<Route>>,
    pub tcp: Option<Vec<Route>>,
    pub tls: Option<Vec<Route>>,
}

/// Mathematical model of a routing declaration.
pub ghost struct VirtualServiceV {
    pub kind: Seq<char>,
    pub namespace: Option<Seq<char>>,
    pub gateways: Option<Seq<Seq<char>>>,
    pub hosts: Option<Seq<Seq<char>>>,
    pub http: Option<Seq<RouteV>>,
    pub tcp: Option<Seq<RouteV>>,
    pub tls: Option<Seq<RouteV>>,
}

impl View for VirtualService {
    type V = VirtualServiceV;

    open spec fn view(&self) -> VirtualServiceV {
        VirtualServiceV {
            kind: self.kind@,
            namespace: self.namespace.deep_view(),
            gateways: self.gateways.deep_view(),
            hosts: self.hosts.deep_view(),
            http: self.http.deep_view(),
            tcp: self.tcp.deep_view(),
            tls: self.tls.deep_view(),
        }
    }
}

/// A destination a declaration asks to route to: service host, port (zero
/// when the target named none), and the protocol of the route collection the
/// target stood in.
#[derive(Debug)]
pub struct RequestedDestination {
    pub host: String,
    pub port: i32,
    pub protocol: Protocol,
}

/// Mathematical model of a requested destination.
pub ghost struct RequestedDestinationV {
    pub host: Seq<char>,
    pub port: int,
    pub protocol: Protocol,
}

impl View for RequestedDestination {
    type V = RequestedDestinationV;

    open spec fn view(&self) -> RequestedDestinationV {
        RequestedDestinationV {
            host: self.host@,
            port: self.port as int,
            protocol: self.protocol,
        }
    }
}

impl DeepView for RequestedDestination {
    type V = RequestedDestinationV;

    open spec fn deep_view(&self) -> RequestedDestinationV {
        self.view()
    }
}

} // verus!
