//! The resolution engine: given a hierarchical address and the registry,
//! answer with a local node, with a list of authority nodes, with the raw
//! reply of exactly one forwarded hop, or with a typed failure.

use vstd::prelude::*;
use vstd::string::*;

use crate::chain::Chain;
use crate::config::{kv_lookup, Config};
use crate::message::{CmdType, ContentUri, Message, MessageContent};
use crate::netspace::{
    distinct_geosubs, find_node, gtn_roots, role_matches, NetspaceIo, NetspaceView,
};
use crate::node::{quad_of_node, Node, NodeQuadFmt, NodeQuadView, NodeRole, NodeView};
use crate::text::{string_eq, vec_contains_str};
use crate::uri::{parse_uri_spec, query_lookup, Uri, UriView};

verus! {

/// Why a resolution failed.
#[derive(Clone, Copy, PartialEq, Eq, Structural, Debug)]
pub enum ResolutionFailure {
    InvalidUri,
    InvalidRoute,
    NoHubs,
    UnresponsiveChain,
    UnsupportedAction,
}

/// Mathematical image of a [`ResolutionResult`].
pub ghost enum ResolutionResultView {
    Fail(ResolutionFailure),
    Network(Seq<NodeQuadView>),
    Node(NodeView),
    Chain(Seq<u8>),
}

/// What a resolution came to.
pub enum ResolutionResult {
    Fail(ResolutionFailure),
    Network(Vec<NodeQuadFmt>),
    Node(Node),
    Chain(Vec<u8>),
}

impl View for ResolutionResult {
    type V = ResolutionResultView;

    open spec fn view(&self) -> ResolutionResultView {
        match self {
            ResolutionResult::Fail(f) => ResolutionResultView::Fail(*f),
            ResolutionResult::Network(v) => ResolutionResultView::Network(
                v@.map_values(|q: NodeQuadFmt| q@),
            ),
            ResolutionResult::Node(n) => ResolutionResultView::Node(n@),
            ResolutionResult::Chain(b) => ResolutionResultView::Chain(b@),
        }
    }
}

/// The outcome resolution is bound to, except that a chained request's
/// reply bytes depend on the remote side: `Chained` names the geosub whose
/// authorities are tried in priority order.
pub ghost enum ResolveOutcome {
    Fail(ResolutionFailure),
    Node(NodeView),
    Network(Seq<NodeQuadView>),
    Chained(Seq<char>),
}

/// The route after suffix removal: a recognized top-level suffix is
/// dropped, unless a recognized meta query makes the request unsupported.
pub open spec fn normalized_route(u: UriView) -> Option<Seq<Seq<char>>> {
    if u.gtn.len() > 0 {
        if query_lookup(u.query, "__meta"@) is Some {
            None
        } else {
            Some(u.route.drop_last())
        }
    } else {
        Some(u.route)
    }
}

/// The route after self-reference elision: a final label naming this
/// node's own geosub is dropped from a longer route.
pub open spec fn elided_route(r1: Seq<Seq<char>>, geosub: Seq<char>) -> Seq<Seq<char>> {
    if r1.len() > 1 && r1.last() == geosub {
        r1.drop_last()
    } else {
        r1
    }
}

/// What resolving an address against the registry must come to.
pub open spec fn resolve_spec(s: Seq<char>, ns: NetspaceView, geosub: Seq<char>) -> ResolveOutcome {
    match parse_uri_spec(s) {
        None => ResolveOutcome::Fail(ResolutionFailure::InvalidUri),
        Some(u) => {
            if u.route.len() == 0 {
                ResolveOutcome::Fail(ResolutionFailure::InvalidUri)
            } else {
                match normalized_route(u) {
                    None => ResolveOutcome::Fail(ResolutionFailure::UnsupportedAction),
                    Some(r1) => {
                        let r2 = elided_route(r1, geosub);
                        if r2.len() == 1 {
                            let label = r2[0];
                            match find_node(ns.gsn, label) {
                                Some(n) => ResolveOutcome::Node(n),
                                None => {
                                    if label == geosub {
                                        let hubs = crate::netspace::nodes_by_role(
                                            ns.gsn,
                                            NodeRole::Hub,
                                        );
                                        if hubs.len() == 0 {
                                            ResolveOutcome::Fail(ResolutionFailure::NoHubs)
                                        } else {
                                            ResolveOutcome::Network(
                                                hubs.map_values(|n: NodeView| quad_of_node(n)),
                                            )
                                        }
                                    } else if distinct_geosubs(ns.gtn).contains(label) {
                                        let roots = gtn_roots(ns.gtn, label);
                                        if roots.len() == 0 {
                                            ResolveOutcome::Fail(ResolutionFailure::NoHubs)
                                        } else {
                                            ResolveOutcome::Network(
                                                roots.map_values(|n: NodeView| quad_of_node(n)),
                                            )
                                        }
                                    } else {
                                        ResolveOutcome::Fail(ResolutionFailure::InvalidRoute)
                                    }
                                },
                            }
                        } else if r2.len() > 1 {
                            let roots = gtn_roots(ns.gtn, r2.last());
                            if roots.len() == 0 {
                                ResolveOutcome::Fail(ResolutionFailure::NoHubs)
                            } else {
                                ResolveOutcome::Chained(r2.last())
                            }
                        } else {
                            ResolveOutcome::Fail(ResolutionFailure::InvalidRoute)
                        }
                    },
                }
            }
        },
    }
}

/// Resolving a route reduced to this node's own geosub name, where no
/// local record claims that name as a springname, answers with exactly the
/// hub-eligible local records, as quads; with no eligible record it fails
/// with `NoHubs`.
pub proof fn lemma_own_geosub_resolution(s: Seq<char>, ns: NetspaceView, geosub: Seq<char>)
    requires
        parse_uri_spec(s) matches Some(u) && u.route.len() > 0 && (normalized_route(u) matches Some(
            r1,
        ) && elided_route(r1, geosub).len() == 1 && elided_route(r1, geosub)[0] == geosub),
        find_node(ns.gsn, geosub) is None,
    ensures
        crate::netspace::nodes_by_role(ns.gsn, NodeRole::Hub).len() == 0 ==> resolve_spec(
            s,
            ns,
            geosub,
        ) == ResolveOutcome::Fail(ResolutionFailure::NoHubs),
        crate::netspace::nodes_by_role(ns.gsn, NodeRole::Hub).len() > 0 ==> resolve_spec(
            s,
            ns,
            geosub,
        ) == ResolveOutcome::Network(
            crate::netspace::nodes_by_role(ns.gsn, NodeRole::Hub).map_values(
                |n: NodeView| quad_of_node(n),
            ),
        ),
{
}

/// Resolves an address: a local springname answers with its node; this
/// node's own geosub answers with the eligible hub nodes; a known
/// delegated geosub answers with its authority nodes; a longer route is
/// forwarded to the named geosub's authorities in priority order, the
/// first reply passing through verbatim.
pub fn resolve_uri<C: Chain>(suri: &str, nio: &NetspaceIo, config: &Config, chain: &C) -> (r:
    ResolutionResult)
    requires
        nio.wf(),
    ensures
        match resolve_spec(suri@, nio@, kv_lookup(config@.node, "geosub"@)) {
            ResolveOutcome::Fail(f) => r@ == ResolutionResultView::Fail(f),
            ResolveOutcome::Node(n) => r@ == ResolutionResultView::Node(n),
            ResolveOutcome::Network(q) => r@ == ResolutionResultView::Network(q),
            ResolveOutcome::Chained(_) => r@ matches ResolutionResultView::Chain(_) || r@
                == ResolutionResultView::Fail(ResolutionFailure::UnresponsiveChain),
        },
{
    let ghost g = kv_lookup(config@.node, "geosub"@);
    let ghost outcome = resolve_spec(suri@, nio@, g);
    let mut uri: Uri = match Uri::new(suri) {
        Err(_) => {
            return ResolutionResult::Fail(ResolutionFailure::InvalidUri);
        },
        Ok(u) => u,
    };
    let ghost u0 = uri@;
    if uri.route().len() == 0 {
        return ResolutionResult::Fail(ResolutionFailure::InvalidUri);
    }
    if uri.gtn().unicode_len() > 0 {
        match uri.query_param("__meta") {
            Some(_) => {
                return ResolutionResult::Fail(ResolutionFailure::UnsupportedAction);
            },
            None => {
                uri.route_pop();
            },
        }
    }
    let ghost r1 = normalized_route(u0)->Some_0;
    proof {
        assert(uri@.route =~= r1);
    }
    let gsub = config.get_key("geosub");
    if uri.route().len() > 1 {
        let route = uri.route();
        let do_pop = string_eq(&route[route.len() - 1], gsub.as_str());
        proof {
            assert(route@.map_values(|t: String| t@).last() == r1.last());
        }
        if do_pop {
            uri.route_pop();
        }
    }
    let ghost r2 = elided_route(r1, g);
    proof {
        assert(uri@.route =~= r2);
    }
    if uri.route().len() == 1 {
        let route = uri.route();
        let label = &route[0];
        proof {
            assert(label@ == r2[0]);
        }
        match nio.gsn_node_by_springname(label.as_str()) {
            Ok(n) => {
                return ResolutionResult::Node(n);
            },
            Err(_) => {},
        }
        if string_eq(label, gsub.as_str()) {
            let nodes = nio.gsn_nodes_by_type(NodeRole::Hub);
            if nodes.len() == 0 {
                proof {
                    assert(crate::netspace::nodes_by_role(nio@.gsn, NodeRole::Hub)
                        =~= nodes@.map_values(|n: Node| n@));
                }
                return ResolutionResult::Fail(ResolutionFailure::NoHubs);
            }
            let quads = crate::node::nodevec_quadvec(&nodes);
            proof {
                assert(quads@.map_values(|q: NodeQuadFmt| q@) =~= crate::netspace::nodes_by_role(
                    nio@.gsn,
                    NodeRole::Hub,
                ).map_values(|n: NodeView| quad_of_node(n)));
            }
            return ResolutionResult::Network(quads);
        }
        let geosubs = nio.gtn_geosubs();
        if vec_contains_str(&geosubs, label.as_str()) {
            let roots = nio.gtn_geosub_root_nodes(label.as_str());
            if roots.len() == 0 {
                proof {
                    assert(gtn_roots(nio@.gtn, label@) =~= roots@.map_values(|n: Node| n@));
                }
                return ResolutionResult::Fail(ResolutionFailure::NoHubs);
            }
            let quads = crate::node::nodevec_quadvec(&roots);
            proof {
                assert(quads@.map_values(|q: NodeQuadFmt| q@) =~= gtn_roots(
                    nio@.gtn,
                    label@,
                ).map_values(|n: NodeView| quad_of_node(n)));
            }
            return ResolutionResult::Network(quads);
        }
        return ResolutionResult::Fail(ResolutionFailure::InvalidRoute);
    } else if uri.route().len() > 1 {
        let route = uri.route();
        let last = route[route.len() - 1].clone();
        proof {
            assert(last@ == r2.last());
        }
        let roots = nio.gtn_geosub_root_nodes(last.as_str());
        uri.route_pop();
        if roots.len() == 0 {
            proof {
                assert(gtn_roots(nio@.gtn, last@) =~= roots@.map_values(|n: Node| n@));
            }
            return ResolutionResult::Fail(ResolutionFailure::NoHubs);
        }
        let m = Message::new(CmdType::Resolve, MessageContent::Resolve(ContentUri { uri }));
        let out_bytes = m.to_bytes();
        let mut i: usize = 0;
        while i < roots.len()
            invariant
                0 <= i <= roots@.len(),
                g == kv_lookup(config@.node, "geosub"@),
                outcome == resolve_spec(suri@, nio@, g),
                outcome matches ResolveOutcome::Chained(_),
            decreases roots@.len() - i,
        {
            match chain.request(&out_bytes, &roots[i]) {
                Ok(b) => {
                    return ResolutionResult::Chain(b);
                },
                _ => {},
            }
            i = i + 1;
        }
        return ResolutionResult::Fail(ResolutionFailure::UnresponsiveChain);
    } else {
        return ResolutionResult::Fail(ResolutionFailure::InvalidRoute);
    }
}

} // verus!
