//! Deriving the requested destinations and the advertised hostnames from a
//! routing declaration.
//!
//! Each of the three route collections is walked independently; every
//! forwarding target yields one destination tagged with the collection's
//! protocol, with port zero when the target names none. An absent or
//! malformed collection contributes nothing. Hostnames default to the
//! wildcard singleton when the declaration advertises none.

use vstd::prelude::*;

use crate::virtual_service::{
    ForwardTarget, ForwardTargetV, Protocol, RequestedDestination, RequestedDestinationV, Route,
    RouteV, VirtualService, VirtualServiceV,
};
use crate::wildcard;

verus! {

/// The destination one forwarding target requests, under a collection's
/// protocol tag.
pub open spec fn dest_of_target(t: ForwardTargetV, p: Protocol) -> RequestedDestinationV {
    RequestedDestinationV {
        host: t.host,
        port: match t.port {
            Some(n) => n,
            None => 0,
        },
        protocol: p,
    }
}

/// The destinations of one route's forwarding targets, in order.
pub open spec fn dests_of_targets(ts: Seq<ForwardTargetV>, p: Protocol) -> Seq<
    RequestedDestinationV,
> {
    ts.map_values(|t: ForwardTargetV| dest_of_target(t, p))
}

/// The destinations of one route: nothing when it carries no targets.
pub open spec fn dests_of_route(r: RouteV, p: Protocol) -> Seq<RequestedDestinationV> {
    match r.targets {
        Some(ts) => dests_of_targets(ts, p),
        None => Seq::empty(),
    }
}

/// The destinations of a whole route collection, route by route.
pub open spec fn dests_of_routes(rs: Seq<RouteV>, p: Protocol) -> Seq<RequestedDestinationV>
    decreases rs.len(),
{
    if rs.len() == 0 {
        Seq::empty()
    } else {
        dests_of_routes(rs.drop_last(), p) + dests_of_route(rs.last(), p)
    }
}

/// The destinations of an optional route collection.
pub open spec fn dests_of_collection(c: Option<Seq<RouteV>>, p: Protocol) -> Seq<
    RequestedDestinationV,
> {
    match c {
        Some(rs) => dests_of_routes(rs, p),
        None => Seq::empty(),
    }
}

/// Every destination a declaration requests: the request-routed collection
/// under HTTP, then the raw-transport collection under TCP, then the
/// TLS-passthrough collection under TLS. A destination may appear more than
/// once; the matcher treats the sequence as a set.
pub open spec fn spec_destinations(vs: VirtualServiceV) -> Seq<RequestedDestinationV> {
    dests_of_collection(vs.http, Protocol::Http) + dests_of_collection(vs.tcp, Protocol::Tcp)
        + dests_of_collection(vs.tls, Protocol::Tls)
}

/// The hostnames a declaration advertises, defaulted to the wildcard
/// singleton when it advertises none.
pub open spec fn spec_hosts(vs: VirtualServiceV) -> Seq<Seq<char>> {
    match vs.hosts {
        Some(h) => if h.len() > 0 {
            h
        } else {
            seq![wildcard()]
        },
        None => seq![wildcard()],
    }
}

/// Append the destinations of one route's targets.
fn push_targets(acc: &mut Vec<RequestedDestination>, ts: &Vec<ForwardTarget>, p: Protocol)
    ensures
        final(acc).deep_view() == old(acc).deep_view() + dests_of_targets(ts.deep_view(), p),
{
    let ghost orig = acc.deep_view();
    let ghost tsv = ts.deep_view();
    let n = ts.len();
    let mut j: usize = 0;
    while j < n
        invariant
            n == ts.len(),
            tsv == ts.deep_view(),
            0 <= j <= n,
            acc.deep_view() =~= orig + dests_of_targets(tsv.take(j as int), p),
        decreases n - j,
    {
        let t = &ts[j];
        let port: i32 = match &t.port {
            Some(q) => *q,
            None => 0,
        };
        let ghost prev = acc.deep_view();
        let d = RequestedDestination { host: t.host.clone(), port, protocol: p };
        proof {
            assert(d@ == dest_of_target(tsv[j as int], p));
        }
        acc.push(d);
        proof {
            assert(acc.deep_view() =~= prev.push(dest_of_target(tsv[j as int], p)));
            assert(dests_of_targets(tsv.take(j as int + 1), p) =~= dests_of_targets(
                tsv.take(j as int),
                p,
            ).push(dest_of_target(tsv[j as int], p)));
        }
        j += 1;
    }
    proof {
        assert(tsv.take(n as int) =~= tsv);
    }
}

/// Append the destinations of a whole route collection.
fn push_routes(acc: &mut Vec<RequestedDestination>, routes: &Vec<Route>, p: Protocol)
    ensures
        final(acc).deep_view() == old(acc).deep_view() + dests_of_routes(routes.deep_view(), p),
{
    let ghost orig = acc.deep_view();
    let ghost rsv = routes.deep_view();
    let n = routes.len();
    let mut i: usize = 0;
    while i < n
        invariant
            n == routes.len(),
            rsv == routes.deep_view(),
            0 <= i <= n,
            acc.deep_view() =~= orig + dests_of_routes(rsv.take(i as int), p),
        decreases n - i,
    {
        match &routes[i].targets {
            Some(ts) => {
                push_targets(acc, ts, p);
            },
            None => {},
        }
        proof {
            assert(rsv.take(i as int + 1).drop_last() =~= rsv.take(i as int));
            assert(rsv.take(i as int + 1).last() == rsv[i as int]);
        }
        i += 1;
    }
    proof {
        assert(rsv.take(n as int) =~= rsv);
    }
}

/// Walk the three route collections of a declaration and collect every
/// requested destination, each tagged with its collection's protocol.
pub fn extract_destinations(vs: &VirtualService) -> (r: Vec<RequestedDestination>)
    ensures
        r.deep_view() == spec_destinations(vs@),
{
    let mut acc: Vec<RequestedDestination> = Vec::new();
    if let Some(routes) = &vs.http {
        push_routes(&mut acc, routes, Protocol::Http);
    }
    if let Some(routes) = &vs.tcp {
        push_routes(&mut acc, routes, Protocol::Tcp);
    }
    if let Some(routes) = &vs.tls {
        push_routes(&mut acc, routes, Protocol::Tls);
    }
    proof {
        assert(acc.deep_view() =~= spec_destinations(vs@));
    }
    acc
}

/// The advertised hostnames of a declaration, wildcard-defaulted.
pub fn requested_hosts(vs: &VirtualService) -> (r: Vec<String>)
    ensures
        r.deep_view() == spec_hosts(vs@),
{
    match &vs.hosts {
        Some(h) => {
            if h.len() > 0 {
                let r = h.clone();
                proof {
                    assert(r.deep_view() =~= spec_hosts(vs@));
                }
                r
            } else {
                let mut r: Vec<String> = Vec::new();
                r.push(String::from_str("*"));
                proof {
                    assert(r.deep_view() =~= spec_hosts(vs@));
                }
                r
            }
        },
        None => {
            let mut r: Vec<String> = Vec::new();
            r.push(String::from_str("*"));
            proof {
                assert(r.deep_view() =~= spec_hosts(vs@));
            }
            r
        },
    }
}

} // verus!
