//! Properties of the decision engine, stated over the same spec functions the
//! executable contracts use.

use vstd::prelude::*;

use crate::extract::{spec_destinations, spec_hosts};
use crate::matching::{
    dest_allowed, dest_ok, eval_gateway, eval_rules, gateway_ok, host_ok, hostname_allowed,
    lookup_gateway, spec_validate_request, subject_kind,
};
use crate::scan::{first_failing, lemma_first_failing_fails, lemma_first_failing_none};
use crate::settings::{RestrictionV, SettingsV};
use crate::virtual_service::{RequestedDestinationV, VirtualServiceV};
use crate::wildcard;

verus! {

/// A declaration whose kind is not the subject kind is always allowed,
/// whatever the policy holds.
pub proof fn lemma_other_kinds_pass(vs: VirtualServiceV, s: SettingsV)
    requires
        vs.kind != subject_kind(),
    ensures
        spec_validate_request(vs, s) is Ok,
{
}

/// A gateway absent from the policy is unrestricted: its evaluation never
/// rejects, whatever the declaration advertises or routes to.
pub proof fn lemma_unrestricted_gateway_passes(
    s: SettingsV,
    ns: Seq<char>,
    hosts: Seq<Seq<char>>,
    dests: Seq<RequestedDestinationV>,
    g: Seq<char>,
)
    requires
        lookup_gateway(s.gateway_restrictions, g) is None,
    ensures
        eval_gateway(s, ns, hosts, dests, g) is Ok,
{
}

/// Wildcard absorption: when some rule of the pair advertises the wildcard
/// hostname, the hostname check never rejects, for any advertised hostname
/// set.
pub proof fn lemma_wildcard_absorbs_hostnames(
    rules: Seq<RestrictionV>,
    ns: Seq<char>,
    g: Seq<char>,
    hosts: Seq<Seq<char>>,
    dests: Seq<RequestedDestinationV>,
)
    requires
        hostname_allowed(rules, wildcard()),
    ensures
        !(eval_rules(rules, ns, g, hosts, dests) matches Err(e) && e is HostNotAllowed),
{
}

/// Matching is monotonic in rule coverage: one more rule bound to the pair
/// can only turn a hostname or destination rejection into an acceptance,
/// never the reverse.
pub proof fn lemma_rule_addition_monotone(
    rules: Seq<RestrictionV>,
    extra: RestrictionV,
    hosts: Seq<Seq<char>>,
    dests: Seq<RequestedDestinationV>,
)
    ensures
        forall|h: Seq<char>| hostname_allowed(rules, h) ==> #[trigger] hostname_allowed(
            rules.push(extra),
            h,
        ),
        forall|d: RequestedDestinationV| dest_allowed(rules, d) ==> #[trigger] dest_allowed(
            rules.push(extra),
            d,
        ),
        (first_failing(host_ok(rules), hosts) is None) ==> (first_failing(
            host_ok(rules.push(extra)),
            hosts,
        ) is None),
        (first_failing(dest_ok(rules), dests) is None) ==> (first_failing(
            dest_ok(rules.push(extra)),
            dests,
        ) is None),
{
    assert forall|h: Seq<char>| hostname_allowed(rules, h) implies #[trigger] hostname_allowed(
        rules.push(extra),
        h,
    ) by {
        let i = choose|i: int| 0 <= i < rules.len() && (#[trigger] rules[i]).hostnames.contains(h);
        assert(rules.push(extra)[i] == rules[i]);
        assert(rules.push(extra)[i].hostnames.contains(h));
    }
    assert forall|d: RequestedDestinationV| dest_allowed(rules, d) implies #[trigger] dest_allowed(
        rules.push(extra),
        d,
    ) by {
        let i = choose|i: int|
            0 <= i < rules.len() && crate::matching::rule_allows_dest(#[trigger] rules[i], d);
        assert(rules.push(extra)[i] == rules[i]);
        assert(crate::matching::rule_allows_dest(rules.push(extra)[i], d));
    }
    lemma_first_failing_none(host_ok(rules), hosts);
    lemma_first_failing_none(host_ok(rules.push(extra)), hosts);
    lemma_first_failing_none(dest_ok(rules), dests);
    lemma_first_failing_none(dest_ok(rules.push(extra)), dests);
}

/// One gateway/namespace pair accepts exactly when its hostname union holds
/// the wildcard or covers every advertised hostname, and every requested
/// destination matches at least one rule. In particular the verdict does not
/// depend on the order of the destinations, nor on how often one repeats.
pub proof fn lemma_rules_accept_iff(
    rules: Seq<RestrictionV>,
    ns: Seq<char>,
    g: Seq<char>,
    hosts: Seq<Seq<char>>,
    dests: Seq<RequestedDestinationV>,
)
    ensures
        (eval_rules(rules, ns, g, hosts, dests) is Ok) <==> ((hostname_allowed(rules, wildcard())
            || (forall|i: int| 0 <= i < hosts.len() ==> hostname_allowed(rules, #[trigger] hosts[i])))
            && (forall|j: int| 0 <= j < dests.len() ==> dest_allowed(rules, #[trigger] dests[j]))),
{
    lemma_first_failing_none(host_ok(rules), hosts);
    lemma_first_failing_none(dest_ok(rules), dests);
    assert forall|i: int| 0 <= i < hosts.len() implies (host_ok(rules)(#[trigger] hosts[i])
        == hostname_allowed(rules, hosts[i])) by {}
    assert forall|j: int| 0 <= j < dests.len() implies (dest_ok(rules)(#[trigger] dests[j])
        == dest_allowed(rules, dests[j])) by {}
}

/// A declaration of the subject kind that names a gateway list and a
/// namespace is accepted exactly when every claimed gateway passes; when one
/// fails, the decision is the rejection of the first failing gateway, in
/// claimed order.
pub proof fn lemma_accept_iff_every_gateway_passes(vs: VirtualServiceV, s: SettingsV)
    requires
        vs.kind == subject_kind(),
        vs.gateways is Some,
        vs.namespace is Some,
    ensures
        (spec_validate_request(vs, s) is Ok) <==> (forall|k: int|
            0 <= k < vs.gateways->Some_0.len() ==> eval_gateway(
                s,
                vs.namespace->Some_0,
                spec_hosts(vs),
                spec_destinations(vs),
                #[trigger] vs.gateways->Some_0[k],
            ) is Ok),
{
    let gws = vs.gateways->Some_0;
    let ns = vs.namespace->Some_0;
    let ok = gateway_ok(s, ns, spec_hosts(vs), spec_destinations(vs));
    lemma_first_failing_none(ok, gws);
    lemma_first_failing_fails(ok, gws);
    assert forall|k: int| 0 <= k < gws.len() implies (ok(#[trigger] gws[k]) == (eval_gateway(
        s,
        ns,
        spec_hosts(vs),
        spec_destinations(vs),
        gws[k],
    ) is Ok)) by {}
}

} // verus!
