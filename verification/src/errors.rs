//! The closed taxonomy of rejection reasons. Each evaluation either accepts
//! or rejects with exactly one of these, and every error is terminal for the
//! evaluation that raised it.

use vstd::prelude::*;

verus! {

/// Why an evaluation rejected. `ParseError` is raised by the caller that
/// deserializes the declaration; `NoHostError` is unreachable under the
/// wildcard defaulting of advertised hostnames and is kept only to close the
/// taxonomy.
#[derive(Debug)]
pub enum ValidateError {
    /// The declaration object could not be deserialized into the expected
    /// shape.
    ParseError { error: String },
    /// The declaration has no gateway field at all.
    NoGatewayError,
    /// The declaration advertises no hostname at all.
    NoHostError,
    /// The declaration has no namespace.
    NoNamespaceError,
    /// The gateway is restricted and the namespace has no rules under it.
    NamespaceNotAllowedError { namespace: String, gateway: String },
    /// An advertised hostname is not covered by any rule's hostname set.
    HostNotAllowedError { host: String, namespace: String, gateway: String },
    /// A requested destination matches no rule.
    ServiceNotAllowedError {
        service: String,
        port: i32,
        protocol: String,
        namespace: String,
        gateway: String,
    },
}

/// Mathematical model of a rejection reason.
pub ghost enum ValidateErrorV {
    Parse { error: Seq<char> },
    NoGateway,
    NoHost,
    NoNamespace,
    NamespaceNotAllowed { namespace: Seq<char>, gateway: Seq<char> },
    HostNotAllowed { host: Seq<char>, namespace: Seq<char>, gateway: Seq<char> },
    ServiceNotAllowed {
        service: Seq<char>,
        port: int,
        protocol: Seq<char>,
        namespace: Seq<char>,
        gateway: Seq<char>,
    },
}

impl View for ValidateError {
    type V = ValidateErrorV;

    open spec fn view(&self) -> ValidateErrorV {
        match self {
            ValidateError::ParseError { error } => ValidateErrorV::Parse { error: error@ },
            ValidateError::NoGatewayError => ValidateErrorV::NoGateway,
            ValidateError::NoHostError => ValidateErrorV::NoHost,
            ValidateError::NoNamespaceError => ValidateErrorV::NoNamespace,
            ValidateError::NamespaceNotAllowedError { namespace, gateway } => {
                ValidateErrorV::NamespaceNotAllowed { namespace: namespace@, gateway: gateway@ }
            },
            ValidateError::HostNotAllowedError { host, namespace, gateway } => {
                ValidateErrorV::HostNotAllowed {
                    host: host@,
                    namespace: namespace@,
                    gateway: gateway@,
                }
            },
            ValidateError::ServiceNotAllowedError { service, port, protocol, namespace, gateway } => {
                ValidateErrorV::ServiceNotAllowed {
                    service: service@,
                    port: *port as int,
                    protocol: protocol@,
                    namespace: namespace@,
                    gateway: gateway@,
                }
            },
        }
    }
}

} // verus!
