//! The restriction matcher: for every gateway a declaration claims, look up
//! the applicable rules and judge the advertised hostnames and the requested
//! destinations against them, stopping at the first rejecting gateway.

use vstd::prelude::*;

use crate::errors::{ValidateError, ValidateErrorV};
use crate::extract::{extract_destinations, requested_hosts, spec_destinations, spec_hosts};
use crate::scan::{first_failing, lemma_first_failing_at, lemma_first_failing_none};
use crate::settings::{
    GatewayRestriction, GatewayRestrictionV, NamespaceRules, NamespaceRulesV, Namespaces,
    Restriction, RestrictionV, Settings, SettingsV,
};
use crate::virtual_service::{
    protocol_name, Protocol, RequestedDestination, RequestedDestinationV, VirtualService,
    VirtualServiceV,
};
use crate::wildcard;

verus! {

/// The one object kind the engine judges; declarations of any other kind
/// pass through unjudged.
pub open spec fn subject_kind() -> Seq<char> {
    "VirtualService"@
}

/// The character with ASCII uppercase letters folded to lowercase, as a code
/// point.
pub open spec fn lower_code(c: char) -> int {
    if 65 <= c as u32 && c as u32 <= 90 {
        c as u32 + 32
    } else {
        c as u32 as int
    }
}

/// Case-insensitive equality on ASCII letters: equal lengths and equal
/// characters once uppercase letters are folded.
pub open spec fn ci_eq(a: Seq<char>, b: Seq<char>) -> bool {
    a.len() == b.len() && forall|i: int| 0 <= i < a.len() ==> lower_code(a[i]) == lower_code(b[i])
}

/// Whether a rule's protocol field accepts a destination protocol: an empty
/// field means any protocol, otherwise the comparison ignores ASCII case.
pub open spec fn protocol_matches(rule_protocol: Seq<char>, p: Protocol) -> bool {
    rule_protocol.len() == 0 || ci_eq(rule_protocol, protocol_name(p))
}

/// A rule matches a destination when its destination-host set covers the
/// host (wildcard or verbatim), its port is zero or equal, and its protocol
/// is empty or case-insensitively equal.
pub open spec fn rule_allows_dest(r: RestrictionV, d: RequestedDestinationV) -> bool {
    &&& (r.destination_hosts.contains(wildcard()) || r.destination_hosts.contains(d.host))
    &&& (r.port == 0 || r.port == d.port)
    &&& protocol_matches(r.protocol, d.protocol)
}

/// A destination is allowed when at least one rule matches it.
pub open spec fn dest_allowed(rules: Seq<RestrictionV>, d: RequestedDestinationV) -> bool {
    exists|i: int| 0 <= i < rules.len() && rule_allows_dest(#[trigger] rules[i], d)
}

/// A hostname is allowed when it appears in the union of the rules'
/// hostname sets.
pub open spec fn hostname_allowed(rules: Seq<RestrictionV>, h: Seq<char>) -> bool {
    exists|i: int| 0 <= i < rules.len() && (#[trigger] rules[i]).hostnames.contains(h)
}

/// Whether a gateway entry's key differs from the sought gateway.
pub open spec fn gateway_key_misses(g: Seq<char>) -> spec_fn(GatewayRestrictionV) -> bool {
    |e: GatewayRestrictionV| e.gateway != g
}

/// The namespace table of the first policy entry for a gateway, if any.
pub open spec fn lookup_gateway(entries: Seq<GatewayRestrictionV>, g: Seq<char>) -> Option<
    Seq<NamespaceRulesV>,
> {
    match first_failing(gateway_key_misses(g), entries) {
        Some(e) => Some(e.namespaces),
        None => None,
    }
}

/// Whether a namespace entry's key differs from the sought namespace.
pub open spec fn namespace_key_misses(ns: Seq<char>) -> spec_fn(NamespaceRulesV) -> bool {
    |e: NamespaceRulesV| e.namespace != ns
}

/// The rules of the first entry for a namespace, if any.
pub open spec fn lookup_namespace(entries: Seq<NamespaceRulesV>, ns: Seq<char>) -> Option<
    Seq<RestrictionV>,
> {
    match first_failing(namespace_key_misses(ns), entries) {
        Some(e) => Some(e.rules),
        None => None,
    }
}

/// Whether a hostname passes the rules of one gateway/namespace pair.
pub open spec fn host_ok(rules: Seq<RestrictionV>) -> spec_fn(Seq<char>) -> bool {
    |h: Seq<char>| hostname_allowed(rules, h)
}

/// Whether a destination passes the rules of one gateway/namespace pair.
pub open spec fn dest_ok(rules: Seq<RestrictionV>) -> spec_fn(RequestedDestinationV) -> bool {
    |d: RequestedDestinationV| dest_allowed(rules, d)
}

/// Judge one gateway/namespace pair's rules: unless the hostname union holds
/// the wildcard, every advertised hostname must appear in it, and every
/// requested destination must match at least one rule. The first failure, in
/// order, names the rejection.
pub open spec fn eval_rules(
    rules: Seq<RestrictionV>,
    ns: Seq<char>,
    g: Seq<char>,
    hosts: Seq<Seq<char>>,
    dests: Seq<RequestedDestinationV>,
) -> Result<(), ValidateErrorV> {
    if !hostname_allowed(rules, wildcard()) && first_failing(host_ok(rules), hosts) is Some {
        Err(
            ValidateErrorV::HostNotAllowed {
                host: first_failing(host_ok(rules), hosts)->Some_0,
                namespace: ns,
                gateway: g,
            },
        )
    } else {
        match first_failing(dest_ok(rules), dests) {
            Some(d) => Err(
                ValidateErrorV::ServiceNotAllowed {
                    service: d.host,
                    port: d.port,
                    protocol: protocol_name(d.protocol),
                    namespace: ns,
                    gateway: g,
                },
            ),
            None => Ok(()),
        }
    }
}

/// Judge one claimed gateway: absent from the policy it constrains nothing;
/// present, it must list the namespace, whose rules then judge hostnames and
/// destinations.
pub open spec fn eval_gateway(
    s: SettingsV,
    ns: Seq<char>,
    hosts: Seq<Seq<char>>,
    dests: Seq<RequestedDestinationV>,
    g: Seq<char>,
) -> Result<(), ValidateErrorV> {
    match lookup_gateway(s.gateway_restrictions, g) {
        None => Ok(()),
        Some(namespaces) => match lookup_namespace(namespaces, ns) {
            None => Err(ValidateErrorV::NamespaceNotAllowed { namespace: ns, gateway: g }),
            Some(rules) => eval_rules(rules, ns, g, hosts, dests),
        },
    }
}

/// Whether one claimed gateway passes.
pub open spec fn gateway_ok(
    s: SettingsV,
    ns: Seq<char>,
    hosts: Seq<Seq<char>>,
    dests: Seq<RequestedDestinationV>,
) -> spec_fn(Seq<char>) -> bool {
    |g: Seq<char>| eval_gateway(s, ns, hosts, dests, g) is Ok
}

/// Judge the claimed gateways in declaration order, stopping at the first
/// rejection; a declaration claiming no gateway passes vacuously.
pub open spec fn eval_gateways(
    s: SettingsV,
    ns: Seq<char>,
    hosts: Seq<Seq<char>>,
    dests: Seq<RequestedDestinationV>,
    gws: Seq<Seq<char>>,
) -> Result<(), ValidateErrorV> {
    match first_failing(gateway_ok(s, ns, hosts, dests), gws) {
        Some(g) => eval_gateway(s, ns, hosts, dests, g),
        None => Ok(()),
    }
}

/// The whole decision for one declaration against one policy: any other kind
/// passes; a declaration without a gateway field or without a namespace is
/// rejected outright; otherwise the claimed gateways are judged in order.
pub open spec fn spec_validate_request(vs: VirtualServiceV, s: SettingsV) -> Result<
    (),
    ValidateErrorV,
> {
    if vs.kind != subject_kind() {
        Ok(())
    } else {
        match vs.gateways {
            None => Err(ValidateErrorV::NoGateway),
            Some(gws) => match vs.namespace {
                None => Err(ValidateErrorV::NoNamespace),
                Some(ns) => eval_gateways(s, ns, spec_hosts(vs), spec_destinations(vs), gws),
            },
        }
    }
}

/// Equality of string slices by their character sequences.
fn str_eq(a: &str, b: &str) -> (r: bool)
    ensures
        r == (a@ == b@),
{
    let sa: String = a.to_owned();
    let sb: String = b.to_owned();
    sa == sb
}

/// Whether the vector holds the given string.
fn string_in(v: &Vec<String>, s: &str) -> (r: bool)
    ensures
        r == v.deep_view().contains(s@),
{
    let n = v.len();
    let mut i: usize = 0;
    while i < n
        invariant
            n == v.len(),
            0 <= i <= n,
            forall|k: int| 0 <= k < i ==> v.deep_view()[k] != s@,
        decreases n - i,
    {
        if str_eq(v[i].as_str(), s) {
            proof {
                assert(v.deep_view()[i as int] == s@);
            }
            return true;
        }
        i += 1;
    }
    proof {
        assert(!v.deep_view().contains(s@));
    }
    false
}

/// Case-insensitive comparison of two strings, folding ASCII letters only.
fn eq_ignore_case(a: &str, b: &str) -> (r: bool)
    ensures
        r == ci_eq(a@, b@),
{
    let la = a.unicode_len();
    let lb = b.unicode_len();
    if la != lb {
        return false;
    }
    let mut i: usize = 0;
    while i < la
        invariant
            la == a@.len(),
            lb == b@.len(),
            la == lb,
            0 <= i <= la,
            forall|k: int| 0 <= k < i ==> lower_code(a@[k]) == lower_code(b@[k]),
        decreases la - i,
    {
        let ca = a.get_char(i) as u32;
        let cb = b.get_char(i) as u32;
        let fa = if 65 <= ca && ca <= 90 {
            ca + 32
        } else {
            ca
        };
        let fb = if 65 <= cb && cb <= 90 {
            cb + 32
        } else {
            cb
        };
        if fa != fb {
            proof {
                assert(lower_code(a@[i as int]) != lower_code(b@[i as int]));
            }
            return false;
        }
        i += 1;
    }
    true
}

/// Whether one rule matches one requested destination.
fn rule_allows(rule: &Restriction, d: &RequestedDestination) -> (r: bool)
    ensures
        r == rule_allows_dest(rule@, d@),
{
    let host_matches = string_in(&rule.destination_hosts, "*") || string_in(
        &rule.destination_hosts,
        d.host.as_str(),
    );
    if !host_matches {
        return false;
    }
    if !(rule.port == 0 || rule.port == d.port) {
        return false;
    }
    if rule.protocol.as_str().is_empty() {
        return true;
    }
    eq_ignore_case(rule.protocol.as_str(), d.protocol.name())
}

/// Whether at least one rule matches the destination.
fn rules_allow_dest(rules: &Vec<Restriction>, d: &RequestedDestination) -> (r: bool)
    ensures
        r == dest_allowed(rules.deep_view(), d@),
{
    let n = rules.len();
    let mut i: usize = 0;
    while i < n
        invariant
            n == rules.len(),
            0 <= i <= n,
            forall|k: int| 0 <= k < i ==> !rule_allows_dest(#[trigger] rules.deep_view()[k], d@),
        decreases n - i,
    {
        if rule_allows(&rules[i], d) {
            proof {
                assert(rule_allows_dest(rules.deep_view()[i as int], d@));
            }
            return true;
        }
        i += 1;
    }
    false
}

/// Whether the hostname appears in the union of the rules' hostname sets.
fn rules_allow_hostname(rules: &Vec<Restriction>, h: &str) -> (r: bool)
    ensures
        r == hostname_allowed(rules.deep_view(), h@),
{
    let n = rules.len();
    let mut i: usize = 0;
    while i < n
        invariant
            n == rules.len(),
            0 <= i <= n,
            forall|k: int| 0 <= k < i ==> !(#[trigger] rules.deep_view()[k]).hostnames.contains(h@),
        decreases n - i,
    {
        if string_in(&rules[i].hostnames, h) {
            proof {
                assert(rules.deep_view()[i as int].hostnames.contains(h@));
            }
            return true;
        }
        i += 1;
    }
    false
}

/// The policy's namespace table for a gateway, if the gateway is restricted.
fn find_gateway<'a>(entries: &'a Vec<GatewayRestriction>, g: &str) -> (r: Option<&'a Namespaces>)
    ensures
        match r {
            Some(ns) => lookup_gateway(entries.deep_view(), g@) == Some(ns.deep_view()),
            None => lookup_gateway(entries.deep_view(), g@) is None,
        },
{
    let n = entries.len();
    let mut i: usize = 0;
    while i < n
        invariant
            n == entries.len(),
            0 <= i <= n,
            forall|k: int| 0 <= k < i ==> (#[trigger] entries.deep_view()[k]).gateway != g@,
        decreases n - i,
    {
        if str_eq(entries[i].gateway.as_str(), g) {
            proof {
                lemma_first_failing_at(gateway_key_misses(g@), entries.deep_view(), i as int);
            }
            return Some(&entries[i].namespaces);
        }
        i += 1;
    }
    proof {
        lemma_first_failing_none(gateway_key_misses(g@), entries.deep_view());
    }
    None
}

/// The rules for a namespace under a restricted gateway, if the namespace is
/// listed.
fn find_namespace<'a>(entries: &'a Vec<NamespaceRules>, ns: &str) -> (r: Option<
    &'a Vec<Restriction>,
>)
    ensures
        match r {
            Some(rules) => lookup_namespace(entries.deep_view(), ns@) == Some(rules.deep_view()),
            None => lookup_namespace(entries.deep_view(), ns@) is None,
        },
{
    let n = entries.len();
    let mut i: usize = 0;
    while i < n
        invariant
            n == entries.len(),
            0 <= i <= n,
            forall|k: int| 0 <= k < i ==> (#[trigger] entries.deep_view()[k]).namespace != ns@,
        decreases n - i,
    {
        if str_eq(entries[i].namespace.as_str(), ns) {
            proof {
                lemma_first_failing_at(namespace_key_misses(ns@), entries.deep_view(), i as int);
            }
            return Some(&entries[i].rules);
        }
        i += 1;
    }
    proof {
        lemma_first_failing_none(namespace_key_misses(ns@), entries.deep_view());
    }
    None
}

/// Judge the hostname and destination checks of one gateway/namespace pair.
fn check_rules(
    rules: &Vec<Restriction>,
    ns: &String,
    g: &String,
    hosts: &Vec<String>,
    dests: &Vec<RequestedDestination>,
) -> (r: Result<(), ValidateError>)
    ensures
        match r {
            Ok(()) => eval_rules(rules.deep_view(), ns@, g@, hosts.deep_view(), dests.deep_view())
                is Ok,
            Err(e) => eval_rules(rules.deep_view(), ns@, g@, hosts.deep_view(), dests.deep_view())
                == Err::<(), ValidateErrorV>(e@),
        },
{
    let wild = rules_allow_hostname(rules, "*");
    if !wild {
        let n = hosts.len();
        let mut i: usize = 0;
        while i < n
            invariant
                n == hosts.len(),
                0 <= i <= n,
                !hostname_allowed(rules.deep_view(), wildcard()),
                forall|k: int| 0 <= k < i ==> host_ok(rules.deep_view())(
                    #[trigger] hosts.deep_view()[k],
                ),
            decreases n - i,
        {
            if !rules_allow_hostname(rules, hosts[i].as_str()) {
                proof {
                    assert(hosts.deep_view()[i as int] == hosts[i as int]@);
                    assert(!host_ok(rules.deep_view())(hosts.deep_view()[i as int]));
                    lemma_first_failing_at(host_ok(rules.deep_view()), hosts.deep_view(), i as int);
                }
                return Err(
                    ValidateError::HostNotAllowedError {
                        host: hosts[i].clone(),
                        namespace: ns.clone(),
                        gateway: g.clone(),
                    },
                );
            }
            i += 1;
        }
        proof {
            lemma_first_failing_none(host_ok(rules.deep_view()), hosts.deep_view());
        }
    }
    proof {
        assert(hostname_allowed(rules.deep_view(), wildcard()) || first_failing(
            host_ok(rules.deep_view()),
            hosts.deep_view(),
        ) is None);
    }
    let n = dests.len();
    let mut i: usize = 0;
    while i < n
        invariant
            n == dests.len(),
            0 <= i <= n,
            hostname_allowed(rules.deep_view(), wildcard()) || first_failing(
                host_ok(rules.deep_view()),
                hosts.deep_view(),
            ) is None,
            forall|k: int| 0 <= k < i ==> dest_ok(rules.deep_view())(
                #[trigger] dests.deep_view()[k],
            ),
        decreases n - i,
    {
        if !rules_allow_dest(rules, &dests[i]) {
            proof {
                assert(dests.deep_view()[i as int] == dests[i as int]@);
                assert(!dest_ok(rules.deep_view())(dests.deep_view()[i as int]));
                lemma_first_failing_at(dest_ok(rules.deep_view()), dests.deep_view(), i as int);
            }
            let d = &dests[i];
            return Err(
                ValidateError::ServiceNotAllowedError {
                    service: d.host.clone(),
                    port: d.port,
                    protocol: String::from_str(d.protocol.name()),
                    namespace: ns.clone(),
                    gateway: g.clone(),
                },
            );
        }
        i += 1;
    }
    proof {
        lemma_first_failing_none(dest_ok(rules.deep_view()), dests.deep_view());
    }
    Ok(())
}

/// Judge one claimed gateway against the policy.
fn check_gateway(
    settings: &Settings,
    ns: &String,
    g: &String,
    hosts: &Vec<String>,
    dests: &Vec<RequestedDestination>,
) -> (r: Result<(), ValidateError>)
    ensures
        match r {
            Ok(()) => eval_gateway(settings@, ns@, hosts.deep_view(), dests.deep_view(), g@) is Ok,
            Err(e) => eval_gateway(settings@, ns@, hosts.deep_view(), dests.deep_view(), g@)
                == Err::<(), ValidateErrorV>(e@),
        },
{
    match find_gateway(&settings.gateway_restrictions, g.as_str()) {
        None => Ok(()),
        Some(namespaces) => match find_namespace(namespaces, ns.as_str()) {
            None => Err(
                ValidateError::NamespaceNotAllowedError {
                    namespace: ns.clone(),
                    gateway: g.clone(),
                },
            ),
            Some(rules) => check_rules(rules, ns, g, hosts, dests),
        },
    }
}

/// Evaluate one routing declaration against the policy. Declarations of any
/// other kind pass; a missing gateway field or namespace rejects outright;
/// otherwise each claimed gateway is judged in order and the first rejection,
/// if any, is the result.
pub fn validate_request(vs: &VirtualService, settings: &Settings) -> (res: Result<
    (),
    ValidateError,
>)
    ensures
        match res {
            Ok(()) => spec_validate_request(vs@, settings@) is Ok,
            Err(e) => spec_validate_request(vs@, settings@) == Err::<(), ValidateErrorV>(e@),
        },
{
    if !str_eq(vs.kind.as_str(), "VirtualService") {
        return Ok(());
    }
    let gateways = match &vs.gateways {
        Some(g) => g,
        None => {
            return Err(ValidateError::NoGatewayError);
        },
    };
    let ns = match &vs.namespace {
        Some(n) => n,
        None => {
            return Err(ValidateError::NoNamespaceError);
        },
    };
    let hosts = requested_hosts(vs);
    let dests = extract_destinations(vs);
    let ghost ok_fn = gateway_ok(settings@, ns@, spec_hosts(vs@), spec_destinations(vs@));
    let n = gateways.len();
    let mut i: usize = 0;
    while i < n
        invariant
            n == gateways.len(),
            0 <= i <= n,
            hosts.deep_view() == spec_hosts(vs@),
            dests.deep_view() == spec_destinations(vs@),
            ok_fn == gateway_ok(settings@, ns@, spec_hosts(vs@), spec_destinations(vs@)),
            vs@.gateways == Some(gateways.deep_view()),
            vs@.namespace == Some(ns@),
            vs@.kind == subject_kind(),
            forall|k: int| 0 <= k < i ==> ok_fn(#[trigger] gateways.deep_view()[k]),
        decreases n - i,
    {
        let g = &gateways[i];
        match check_gateway(settings, ns, g, &hosts, &dests) {
            Ok(()) => {},
            Err(e) => {
                proof {
                    lemma_first_failing_at(ok_fn, gateways.deep_view(), i as int);
                }
                return Err(e);
            },
        }
        i += 1;
    }
    proof {
        lemma_first_failing_none(ok_fn, gateways.deep_view());
    }
    Ok(())
}

} // verus!
