//! Admission decision engine for gateway routing declarations.
//!
//! A routing declaration (a virtual service binding hostnames and routes to
//! shared ingress gateways) is checked against an operator policy of
//! per-gateway, per-namespace restrictions. The engine answers one question:
//! may this namespace bind these gateways, advertise these hostnames, and
//! route to these destinations?

use vstd::prelude::*;

pub mod errors;
pub mod extract;
pub mod laws;
pub mod matching;
pub mod scan;
pub mod settings;
pub mod virtual_service;

pub use errors::ValidateError;
pub use matching::validate_request;
pub use settings::{Gateway, GatewayRestriction, NamespaceRules, Namespaces, Restriction, Settings};
pub use virtual_service::{ForwardTarget, Protocol, RequestedDestination, Route, VirtualService};

verus! {

/// The wildcard token: matches anything wherever it appears in hostname or
/// destination-host patterns.
pub open spec fn wildcard() -> Seq<char> {
    "*"@
}

} // verus!
