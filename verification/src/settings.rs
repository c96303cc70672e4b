//! The policy model: per-gateway, per-namespace restriction rules, their
//! structural invariants, and the defaulting rule for the wire form.

use vstd::prelude::*;

use crate::scan::{
    first_failing, lemma_first_failing_at, lemma_first_failing_fails, lemma_first_failing_none,
};

verus! {

/// A gateway identifier.
pub type Gateway = String;

/// One restriction rule: which hostnames a namespace may advertise and which
/// destinations it may route to, for one gateway/namespace pair. An empty
/// `protocol`, a zero `port`, and the `"*"` pattern each mean "any".
#[derive(Debug)]
pub struct Restriction {
    pub hostnames: Vec<String>,
    pub destination_hosts: Vec<String>,
    pub port: i32,
    pub protocol: String,
}

/// Mathematical model of a restriction rule.
pub ghost struct RestrictionV {
    pub hostnames: Seq<Seq<char>>,
    pub destination_hosts: Seq<Seq<char>>,
    pub port: int,
    pub protocol: Seq<char>,
}

impl View for Restriction {
    type V = RestrictionV;

    open spec fn view(&self) -> RestrictionV {
        RestrictionV {
            hostnames: self.hostnames.deep_view(),
            destination_hosts: self.destination_hosts.deep_view(),
            port: self.port as int,
            protocol: self.protocol@,
        }
    }
}

impl DeepView for Restriction {
    type V = RestrictionV;

    open spec fn deep_view(&self) -> RestrictionV {
        self.view()
    }
}

/// The rules one namespace must satisfy under one gateway.
#[derive(Debug)]
pub struct NamespaceRules {
    pub namespace: String,
    pub rules: Vec<Restriction>,
}

/// Mathematical model of a namespace entry.
pub ghost struct NamespaceRulesV {
    pub namespace: Seq<char>,
    pub rules: Seq<RestrictionV>,
}

impl View for NamespaceRules {
    type V = NamespaceRulesV;

    open spec fn view(&self) -> NamespaceRulesV {
        NamespaceRulesV { namespace: self.namespace@, rules: self.rules.deep_view() }
    }
}

impl DeepView for NamespaceRules {
    type V = NamespaceRulesV;

    open spec fn deep_view(&self) -> NamespaceRulesV {
        self.view()
    }
}

/// The namespace table of one gateway, keyed by namespace name.
pub type Namespaces = Vec<NamespaceRules>;

/// The restrictions declared for one gateway.
#[derive(Debug)]
pub struct GatewayRestriction {
    pub gateway: Gateway,
    pub namespaces: Namespaces,
}

/// Mathematical model of one gateway's restrictions.
pub ghost struct GatewayRestrictionV {
    pub gateway: Seq<char>,
    pub namespaces: Seq<NamespaceRulesV>,
}

impl View for GatewayRestriction {
    type V = GatewayRestrictionV;

    open spec fn view(&self) -> GatewayRestrictionV {
        GatewayRestrictionV { gateway: self.gateway@, namespaces: self.namespaces.deep_view() }
    }
}

impl DeepView for GatewayRestriction {
    type V = GatewayRestrictionV;

    open spec fn deep_view(&self) -> GatewayRestrictionV {
        self.view()
    }
}

/// The policy document: for each restricted gateway, the namespaces allowed
/// to use it and the rules each namespace must satisfy.
///
/// The wire form is a JSON mapping and cannot carry one gateway or namespace
/// key twice. A hand-built value that repeats a key resolves to its first
/// entry, as the matcher's lookups state.
#[derive(Debug)]
pub struct Settings {
    pub gateway_restrictions: Vec<GatewayRestriction>,
}

/// Mathematical model of the policy document.
pub ghost struct SettingsV {
    pub gateway_restrictions: Seq<GatewayRestrictionV>,
}

impl View for Settings {
    type V = SettingsV;

    open spec fn view(&self) -> SettingsV {
        SettingsV { gateway_restrictions: self.gateway_restrictions.deep_view() }
    }
}

impl Default for Settings {
    /// An empty policy; it fails `validate`, as an absent document must.
    fn default() -> (s: Settings)
        ensures
            s@.gateway_restrictions.len() == 0,
    {
        Settings { gateway_restrictions: Vec::new() }
    }
}

/// The defaulting rule for one rule's wire form: every absent field means
/// "any" (empty lists, port zero, empty protocol).
pub open spec fn spec_from_wire(
    hostnames: Option<Seq<Seq<char>>>,
    destination_hosts: Option<Seq<Seq<char>>>,
    port: Option<int>,
    protocol: Option<Seq<char>>,
) -> RestrictionV {
    RestrictionV {
        hostnames: match hostnames {
            Some(h) => h,
            None => Seq::empty(),
        },
        destination_hosts: match destination_hosts {
            Some(d) => d,
            None => Seq::empty(),
        },
        port: match port {
            Some(p) => p,
            None => 0,
        },
        protocol: match protocol {
            Some(p) => p,
            None => Seq::empty(),
        },
    }
}

impl Restriction {
    /// Materialize a rule from its wire form, applying the defaults: all four
    /// fields are optional on the wire and an absent field means "any".
    pub fn from_wire(
        hostnames: Option<Vec<String>>,
        destination_hosts: Option<Vec<String>>,
        port: Option<i32>,
        protocol: Option<String>,
    ) -> (r: Restriction)
        ensures
            r@ == spec_from_wire(
                hostnames.deep_view(),
                destination_hosts.deep_view(),
                match port {
                    Some(p) => Some(p as int),
                    None => None,
                },
                protocol.deep_view(),
            ),
    {
        let r = Restriction {
            hostnames: match hostnames {
                Some(h) => h,
                None => Vec::new(),
            },
            destination_hosts: match destination_hosts {
                Some(d) => d,
                None => Vec::new(),
            },
            port: match port {
                Some(p) => p,
                None => 0,
            },
            protocol: match protocol {
                Some(p) => p,
                None => String::new(),
            },
        };
        proof {
            let w = spec_from_wire(
                hostnames.deep_view(),
                destination_hosts.deep_view(),
                match port {
                    Some(p) => Some(p as int),
                    None => None,
                },
                protocol.deep_view(),
            );
            assert(r.hostnames.deep_view() =~= w.hostnames);
            assert(r.destination_hosts.deep_view() =~= w.destination_hosts);
        }
        r
    }
}

/// Re-loading the materialized fields of a rule reproduces the rule exactly:
/// defaults materialize identically on repeated load, so deserializing and
/// re-serializing a policy document preserves every rule's semantics.
pub proof fn lemma_wire_round_trip(r: RestrictionV)
    ensures
        spec_from_wire(Some(r.hostnames), Some(r.destination_hosts), Some(r.port), Some(r.protocol))
            == r,
{
}

/// The message rejecting an empty policy document.
pub open spec fn msg_empty_map() -> Seq<char> {
    "The 'gatewayRestrictions' map cannot be empty."@
}

/// The message rejecting an empty gateway name.
pub open spec fn msg_empty_gateway_name() -> Seq<char> {
    "Gateway names inside 'gatewayRestrictions' cannot be empty."@
}

/// The message rejecting a gateway whose namespace table is empty.
pub open spec fn msg_empty_namespaces(gateway: Seq<char>) -> Seq<char> {
    "The namespace list for gateway '"@ + gateway + "' cannot be empty."@
}

/// The message rejecting a namespace whose rule list is empty. No
/// operator-facing wording is prescribed for this fault; this one follows
/// the shape of the other messages.
pub open spec fn msg_empty_rules(gateway: Seq<char>, namespace: Seq<char>) -> Seq<char> {
    "The restriction list for namespace '"@ + namespace + "' of gateway '"@ + gateway
        + "' cannot be empty."@
}

/// Whether one namespace entry carries at least one rule.
pub open spec fn namespace_ok() -> spec_fn(NamespaceRulesV) -> bool {
    |n: NamespaceRulesV| n.rules.len() > 0
}

/// The structural fault of one gateway entry, if it has one: an empty
/// gateway name, an empty namespace table, or a namespace without rules.
pub open spec fn entry_error(e: GatewayRestrictionV) -> Option<Seq<char>> {
    if e.gateway.len() == 0 {
        Some(msg_empty_gateway_name())
    } else if e.namespaces.len() == 0 {
        Some(msg_empty_namespaces(e.gateway))
    } else {
        match first_failing(namespace_ok(), e.namespaces) {
            Some(n) => Some(msg_empty_rules(e.gateway, n.namespace)),
            None => None,
        }
    }
}

/// Whether one gateway entry is structurally sound.
pub open spec fn entry_ok() -> spec_fn(GatewayRestrictionV) -> bool {
    |e: GatewayRestrictionV| entry_error(e) is None
}

/// The exact validation outcome of a policy document: `None` when it is
/// accepted, otherwise the message of the first fault in declaration order.
pub open spec fn settings_error(s: SettingsV) -> Option<Seq<char>> {
    if s.gateway_restrictions.len() == 0 {
        Some(msg_empty_map())
    } else {
        match first_failing(entry_ok(), s.gateway_restrictions) {
            Some(e) => entry_error(e),
            None => None,
        }
    }
}

/// The structural invariants of an accepted policy: a non-empty document,
/// no empty gateway name, a non-empty namespace table for every gateway,
/// and a non-empty rule list for every namespace.
pub open spec fn settings_wf(s: SettingsV) -> bool {
    &&& s.gateway_restrictions.len() > 0
    &&& forall|i: int|
        0 <= i < s.gateway_restrictions.len() ==> (#[trigger] s.gateway_restrictions[i]).gateway.len()
            > 0
    &&& forall|i: int|
        0 <= i < s.gateway_restrictions.len()
            ==> (#[trigger] s.gateway_restrictions[i]).namespaces.len() > 0
    &&& forall|i: int, j: int|
        0 <= i < s.gateway_restrictions.len() && 0 <= j
            < s.gateway_restrictions[i].namespaces.len() ==> (#[trigger] s.gateway_restrictions[i].namespaces[j]).rules.len() > 0
}

/// A policy passes validation exactly when it meets the structural
/// invariants; otherwise validation carries the first fault's message.
pub proof fn lemma_settings_error_iff_wf(s: SettingsV)
    ensures
        (settings_error(s) is None) <==> settings_wf(s),
{
    if s.gateway_restrictions.len() > 0 {
        lemma_first_failing_none(entry_ok(), s.gateway_restrictions);
        lemma_first_failing_fails(entry_ok(), s.gateway_restrictions);
        assert forall|i: int| 0 <= i < s.gateway_restrictions.len() implies (entry_ok()(
            #[trigger] s.gateway_restrictions[i],
        ) <==> (s.gateway_restrictions[i].gateway.len() > 0
            && s.gateway_restrictions[i].namespaces.len() > 0 && forall|j: int|
            0 <= j < s.gateway_restrictions[i].namespaces.len()
                ==> (#[trigger] s.gateway_restrictions[i].namespaces[j]).rules.len() > 0)) by {
            let e = s.gateway_restrictions[i];
            lemma_first_failing_none(namespace_ok(), e.namespaces);
            lemma_first_failing_fails(namespace_ok(), e.namespaces);
            assert forall|j: int| 0 <= j < e.namespaces.len() implies (namespace_ok()(
                #[trigger] e.namespaces[j],
            ) == (e.namespaces[j].rules.len() > 0)) by {}
            assert(entry_ok()(e) == (entry_error(e) is None));
        }
    }
}

impl Settings {
    /// Validate the structural invariants of the policy document, returning
    /// the exact message of the first fault in declaration order.
    pub fn validate(&self) -> (res: Result<(), String>)
        ensures
            match res {
                Ok(()) => settings_error(self@) is None && settings_wf(self@),
                Err(m) => settings_error(self@) == Some(m@),
            },
    {
        if self.gateway_restrictions.len() == 0 {
            return Err(String::from_str("The 'gatewayRestrictions' map cannot be empty."));
        }
        let n = self.gateway_restrictions.len();
        let mut i: usize = 0;
        while i < n
            invariant
                n == self.gateway_restrictions.len(),
                0 <= i <= n,
                forall|k: int| 0 <= k < i ==> entry_ok()(#[trigger] self@.gateway_restrictions[k]),
            decreases n - i,
        {
            let entry = &self.gateway_restrictions[i];
            assert(entry@ == self@.gateway_restrictions[i as int]);
            if entry.gateway.as_str().is_empty() {
                proof {
                    lemma_first_failing_at(entry_ok(), self@.gateway_restrictions, i as int);
                }
                return Err(
                    String::from_str("Gateway names inside 'gatewayRestrictions' cannot be empty."),
                );
            }
            if entry.namespaces.len() == 0 {
                proof {
                    lemma_first_failing_at(entry_ok(), self@.gateway_restrictions, i as int);
                }
                let mut m = String::from_str("The namespace list for gateway '");
                m.append(entry.gateway.as_str());
                m.append("' cannot be empty.");
                return Err(m);
            }
            let w = entry.namespaces.len();
            let mut j: usize = 0;
            while j < w
                invariant
                    w == entry.namespaces.len(),
                    0 <= j <= w,
                    n == self.gateway_restrictions.len(),
                    0 <= i < n,
                    entry@ == self@.gateway_restrictions[i as int],
                    entry@.gateway.len() > 0,
                    entry@.namespaces.len() > 0,
                    forall|k: int|
                        0 <= k < i ==> entry_ok()(#[trigger] self@.gateway_restrictions[k]),
                    forall|k: int| 0 <= k < j ==> namespace_ok()(#[trigger] entry@.namespaces[k]),
                decreases w - j,
            {
                let ns_entry = &entry.namespaces[j];
                assert(ns_entry@ == entry@.namespaces[j as int]);
                if ns_entry.rules.len() == 0 {
                    proof {
                        lemma_first_failing_at(namespace_ok(), entry@.namespaces, j as int);
                        lemma_first_failing_at(entry_ok(), self@.gateway_restrictions, i as int);
                    }
                    let mut m = String::from_str("The restriction list for namespace '");
                    m.append(ns_entry.namespace.as_str());
                    m.append("' of gateway '");
                    m.append(entry.gateway.as_str());
                    m.append("' cannot be empty.");
                    return Err(m);
                }
                j += 1;
            }
            proof {
                lemma_first_failing_none(namespace_ok(), entry@.namespaces);
            }
            i += 1;
        }
        proof {
            lemma_first_failing_none(entry_ok(), self@.gateway_restrictions);
            lemma_settings_error_iff_wf(self@);
        }
        Ok(())
    }
}

} // verus!
