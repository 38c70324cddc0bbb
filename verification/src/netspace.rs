//! The netspace registry: this node's record of its direct children (the
//! local space), of other sub-hierarchies' authority nodes (the delegated
//! space, ordered by priority), and of registration tokens. Held in memory;
//! persistence is the caller's business.

use vstd::prelude::*;
use vstd::string::*;

use crate::node::{Node, NodeRole, NodeService, NodeState, NodeView};
use crate::text::{lemma_filter_take_step, lemma_remove_is_filter, str_eq, string_eq};

verus! {

/// Success marker of a registry mutation.
#[derive(Clone, Copy, PartialEq, Eq, Structural, Debug)]
pub enum Success {
    Done,
}

/// Failure of a registry operation.
#[derive(Clone, Copy, PartialEq, Eq, Structural, Debug)]
pub enum NetspaceFailure {
    NodeNotFound,
    DuplicateNode,
    DatabaseError,
}

/// Mathematical image of one delegated-space record.
pub ghost struct GtnView {
    pub node: NodeView,
    pub geosub: Seq<char>,
    pub priority: int,
}

/// Mathematical image of the whole registry.
pub ghost struct NetspaceView {
    pub gsn: Seq<NodeView>,
    pub gtn: Seq<GtnView>,
    pub tokens: Seq<(Seq<char>, Seq<char>)>,
}

struct GtnEntry {
    node: Node,
    geosub: String,
    priority: u64,
}

/// The registry itself.
pub struct NetspaceIo {
    gsn: Vec<Node>,
    gtn: Vec<GtnEntry>,
    tokens: Vec<(String, String)>,
}

impl View for NetspaceIo {
    type V = NetspaceView;

    closed spec fn view(&self) -> NetspaceView {
        NetspaceView {
            gsn: self.gsn@.map_values(|n: Node| n@),
            gtn: self.gtn@.map_values(
                |e: GtnEntry| GtnView { node: e.node@, geosub: e.geosub@, priority: e.priority as int },
            ),
            tokens: self.tokens@.map_values(|t: (String, String)| (t.0@, t.1@)),
        }
    }
}

/// First local record carrying the springname.
pub open spec fn find_node(gsn: Seq<NodeView>, name: Seq<char>) -> Option<NodeView>
    decreases gsn.len(),
{
    if gsn.len() == 0 {
        None
    } else if gsn[0].spring == name {
        Some(gsn[0])
    } else {
        find_node(gsn.drop_first(), name)
    }
}

/// First local record carrying the hostname.
pub open spec fn find_host(gsn: Seq<NodeView>, host: Seq<char>) -> Option<NodeView>
    decreases gsn.len(),
{
    if gsn.len() == 0 {
        None
    } else if gsn[0].host == host {
        Some(gsn[0])
    } else {
        find_host(gsn.drop_first(), host)
    }
}

/// Whether a node of the given role answers a role filter. The filter acts
/// as a mask: `Hybrid` nodes answer both the `Org` and the `Hub` filter.
pub open spec fn role_matches(role: NodeRole, filter: NodeRole) -> bool {
    match filter {
        NodeRole::Undefined => false,
        NodeRole::Org => role == NodeRole::Org || role == NodeRole::Hybrid,
        NodeRole::Hub => role == NodeRole::Hub || role == NodeRole::Hybrid,
        NodeRole::Hybrid => role != NodeRole::Undefined,
    }
}

/// First delegated record of the springname within the geosub.
pub open spec fn gtn_find(gtn: Seq<GtnView>, name: Seq<char>, gsub: Seq<char>) -> Option<GtnView>
    decreases gtn.len(),
{
    if gtn.len() == 0 {
        None
    } else if gtn[0].node.spring == name && gtn[0].geosub == gsub {
        Some(gtn[0])
    } else {
        gtn_find(gtn.drop_first(), name, gsub)
    }
}

/// The geosub's authority nodes, in stored (priority) order.
pub open spec fn gtn_roots(gtn: Seq<GtnView>, gsub: Seq<char>) -> Seq<NodeView> {
    gtn.filter(|e: GtnView| e.geosub == gsub).map_values(|e: GtnView| e.node)
}

/// The local records whose address is the given one.
pub open spec fn nodes_by_address(gsn: Seq<NodeView>, address: Seq<char>) -> Seq<NodeView> {
    gsn.filter(|n: NodeView| n.address == address)
}

/// The local records whose role answers the filter mask.
pub open spec fn nodes_by_role(gsn: Seq<NodeView>, filter: NodeRole) -> Seq<NodeView> {
    gsn.filter(|n: NodeView| role_matches(n.role, filter))
}

/// The local records in the given state.
pub open spec fn nodes_by_state(gsn: Seq<NodeView>, state: NodeState) -> Seq<NodeView> {
    gsn.filter(|n: NodeView| n.state == state)
}

/// The local records left once the springname's record is gone.
pub open spec fn nodes_without(gsn: Seq<NodeView>, name: Seq<char>) -> Seq<NodeView> {
    gsn.filter(|n: NodeView| n.spring != name)
}

/// The delegated records left once the pair's record is gone.
pub open spec fn gtn_without(gtn: Seq<GtnView>, name: Seq<char>, gsub: Seq<char>) -> Seq<GtnView> {
    gtn.filter(|e: GtnView| !(e.node.spring == name && e.geosub == gsub))
}

/// The tokens issued for the springname.
pub open spec fn tokens_for(
    tokens: Seq<(Seq<char>, Seq<char>)>,
    spring: Seq<char>,
) -> Seq<(Seq<char>, Seq<char>)> {
    tokens.filter(|t: (Seq<char>, Seq<char>)| t.1 == spring)
}

/// The tokens left once every record of the token is gone.
pub open spec fn tokens_without(
    tokens: Seq<(Seq<char>, Seq<char>)>,
    token: Seq<char>,
) -> Seq<(Seq<char>, Seq<char>)> {
    tokens.filter(|t: (Seq<char>, Seq<char>)| t.0 != token)
}

/// The tokens left once every token of the springname is gone.
pub open spec fn tokens_not_for(
    tokens: Seq<(Seq<char>, Seq<char>)>,
    spring: Seq<char>,
) -> Seq<(Seq<char>, Seq<char>)> {
    tokens.filter(|t: (Seq<char>, Seq<char>)| t.1 != spring)
}

/// The distinct geosub names of the delegated space, in first-occurrence
/// order.
pub open spec fn distinct_geosubs(gtn: Seq<GtnView>) -> Seq<Seq<char>>
    decreases gtn.len(),
{
    if gtn.len() == 0 {
        Seq::empty()
    } else {
        let rest = distinct_geosubs(gtn.drop_last());
        if rest.contains(gtn.last().geosub) {
            rest
        } else {
            rest.push(gtn.last().geosub)
        }
    }
}

/// Whether the token store holds the token.
pub open spec fn token_present(tokens: Seq<(Seq<char>, Seq<char>)>, token: Seq<char>) -> bool {
    exists|j: int| 0 <= j < tokens.len() && tokens[j].0 == token
}

/// Local records are keyed by springname.
pub open spec fn gsn_wf(gsn: Seq<NodeView>) -> bool {
    forall|i: int, j: int| 0 <= i < j < gsn.len() ==> gsn[i].spring != gsn[j].spring
}

/// Delegated records are keyed by springname and geosub together, and kept
/// in ascending priority order.
pub open spec fn gtn_wf(gtn: Seq<GtnView>) -> bool {
    &&& forall|i: int, j: int|
        0 <= i < j < gtn.len() ==> !(gtn[i].node.spring == gtn[j].node.spring && gtn[i].geosub
            == gtn[j].geosub)
    &&& forall|i: int, j: int| 0 <= i <= j < gtn.len() ==> gtn[i].priority <= gtn[j].priority
}

pub proof fn lemma_find_node(gsn: Seq<NodeView>, name: Seq<char>)
    ensures
        match find_node(gsn, name) {
            Some(nv) => nv.spring == name && exists|i: int| 0 <= i < gsn.len() && gsn[i] == nv,
            None => forall|i: int| 0 <= i < gsn.len() ==> gsn[i].spring != name,
        },
    decreases gsn.len(),
{
    if gsn.len() > 0 && gsn[0].spring != name {
        lemma_find_node(gsn.drop_first(), name);
        match find_node(gsn.drop_first(), name) {
            Some(nv) => {
                let i = choose|i: int| 0 <= i < gsn.drop_first().len() && gsn.drop_first()[i] == nv;
                assert(gsn[i + 1] == nv);
            },
            None => {
                assert forall|i: int| 0 <= i < gsn.len() implies gsn[i].spring != name by {
                    if i > 0 {
                        assert(gsn.drop_first()[i - 1] == gsn[i]);
                    }
                }
            },
        }
    }
}

pub proof fn lemma_gtn_find(gtn: Seq<GtnView>, name: Seq<char>, gsub: Seq<char>)
    ensures
        match gtn_find(gtn, name, gsub) {
            Some(e) => e.node.spring == name && e.geosub == gsub && exists|i: int|
                0 <= i < gtn.len() && gtn[i] == e,
            None => forall|i: int|
                0 <= i < gtn.len() ==> !(gtn[i].node.spring == name && gtn[i].geosub == gsub),
        },
    decreases gtn.len(),
{
    if gtn.len() > 0 && !(gtn[0].node.spring == name && gtn[0].geosub == gsub) {
        lemma_gtn_find(gtn.drop_first(), name, gsub);
        match gtn_find(gtn.drop_first(), name, gsub) {
            Some(e) => {
                let i = choose|i: int|
                    0 <= i < gtn.drop_first().len() && gtn.drop_first()[i] == e;
                assert(gtn[i + 1] == e);
            },
            None => {
                assert forall|i: int| 0 <= i < gtn.len() implies !(gtn[i].node.spring == name
                    && gtn[i].geosub == gsub) by {
                    if i > 0 {
                        assert(gtn.drop_first()[i - 1] == gtn[i]);
                    }
                }
            },
        }
    }
}

/// A name looked up after its record was filtered away is not found: the
/// law behind unregister-then-lookup.
pub proof fn lemma_unregistered_not_found(gsn: Seq<NodeView>, name: Seq<char>)
    ensures
        find_node(nodes_without(gsn, name), name) is None,
{
    let filtered = gsn.filter(|n: NodeView| n.spring != name);
    lemma_find_node(filtered, name);
    if find_node(filtered, name) is Some {
        let nv = find_node(filtered, name)->Some_0;
        let i = choose|i: int| 0 <= i < filtered.len() && filtered[i] == nv;
        assert(filtered[i].spring != name) by {
            gsn.lemma_filter_pred(|n: NodeView| n.spring != name, i);
        }
    }
}

/// A springname just registered is found again: with the registration
/// forced to the `Disabled` state, the record of a second registration
/// attempt is already present, so the attempt is refused.
pub proof fn lemma_register_then_duplicate(gsn: Seq<NodeView>, nv: NodeView)
    requires
        find_node(gsn, nv.spring) is None,
    ensures
        find_node(gsn.push(NodeView { state: NodeState::Disabled, ..nv }), nv.spring) is Some,
    decreases gsn.len(),
{
    let added = NodeView { state: NodeState::Disabled, ..nv };
    if gsn.len() == 0 {
        assert(gsn.push(added)[0] == added);
    } else {
        lemma_register_then_duplicate(gsn.drop_first(), nv);
        assert(gsn.push(added).drop_first() =~= gsn.drop_first().push(added));
    }
}

impl NetspaceIo {
    /// Every registry starts out well formed and stays so through its
    /// methods: local records keyed by springname, delegated records keyed
    /// by name and geosub and sorted by priority.
    pub open spec fn wf(&self) -> bool {
        gsn_wf(self@.gsn) && gtn_wf(self@.gtn)
    }

    /// An empty registry.
    pub fn new() -> (r: NetspaceIo)
        ensures
            r.wf(),
            r@.gsn == Seq::<NodeView>::empty(),
            r@.gtn == Seq::<GtnView>::empty(),
            r@.tokens == Seq::<(Seq<char>, Seq<char>)>::empty(),
    {
        let r = NetspaceIo { gsn: Vec::new(), gtn: Vec::new(), tokens: Vec::new() };
        proof {
            assert(r@.gsn =~= Seq::<NodeView>::empty());
            assert(r@.gtn =~= Seq::<GtnView>::empty());
            assert(r@.tokens =~= Seq::<(Seq<char>, Seq<char>)>::empty());
        }
        r
    }

    /// All local records, in insertion order.
    pub fn gsn_nodes(&self) -> (r: Vec<Node>)
        ensures
            r@.map_values(|n: Node| n@) == self@.gsn,
    {
        let mut r: Vec<Node> = Vec::new();
        let mut i: usize = 0;
        while i < self.gsn.len()
            invariant
                0 <= i <= self.gsn@.len(),
                r@.len() == i,
                forall|j: int| 0 <= j < i ==> r@[j]@ == self.gsn@[j]@,
            decreases self.gsn@.len() - i,
        {
            r.push(self.gsn[i].clone());
            i = i + 1;
        }
        proof {
            assert(r@.map_values(|n: Node| n@) =~= self@.gsn);
        }
        r
    }

    /// The local records whose address is the given one.
    pub fn gsn_nodes_by_address(&self, address: &str) -> (r: Vec<Node>)
        ensures
            r@.map_values(|n: Node| n@) == nodes_by_address(self@.gsn, address@),
    {
        let ghost pred = |n: NodeView| n.address == address@;
        let mut r: Vec<Node> = Vec::new();
        let mut i: usize = 0;
        proof {
            assert(self@.gsn.take(0) =~= Seq::<NodeView>::empty());
            reveal(Seq::filter);
        }
        while i < self.gsn.len()
            invariant
                0 <= i <= self.gsn@.len(),
                self@.gsn.len() == self.gsn@.len(),
                forall|j: int| 0 <= j < self.gsn@.len() ==> self@.gsn[j] == self.gsn@[j]@,
                pred == (|n: NodeView| n.address == address@),
                r@.map_values(|n: Node| n@) == self@.gsn.take(i as int).filter(pred),
            decreases self.gsn@.len() - i,
        {
            let ghost prev = r@.map_values(|n: Node| n@);
            if str_eq(self.gsn[i].address(), address) {
                r.push(self.gsn[i].clone());
                proof {
                    assert(r@.map_values(|n: Node| n@) =~= prev.push(self@.gsn[i as int]));
                }
            }
            i = i + 1;
            proof {
                lemma_filter_take_step(self@.gsn, pred, i - 1);
            }
        }
        proof {
            assert(self@.gsn.take(self@.gsn.len() as int) =~= self@.gsn);
        }
        r
    }

    /// The local records whose role answers the filter mask.
    pub fn gsn_nodes_by_type(&self, types: NodeRole) -> (r: Vec<Node>)
        ensures
            r@.map_values(|n: Node| n@) == nodes_by_role(self@.gsn, types),
    {
        let ghost pred = |n: NodeView| role_matches(n.role, types);
        let mut r: Vec<Node> = Vec::new();
        let mut i: usize = 0;
        proof {
            assert(self@.gsn.take(0) =~= Seq::<NodeView>::empty());
            reveal(Seq::filter);
        }
        while i < self.gsn.len()
            invariant
                0 <= i <= self.gsn@.len(),
                self@.gsn.len() == self.gsn@.len(),
                forall|j: int| 0 <= j < self.gsn@.len() ==> self@.gsn[j] == self.gsn@[j]@,
                pred == (|n: NodeView| role_matches(n.role, types)),
                r@.map_values(|n: Node| n@) == self@.gsn.take(i as int).filter(pred),
            decreases self.gsn@.len() - i,
        {
            let ghost prev = r@.map_values(|n: Node| n@);
            let role = self.gsn[i].role();
            let matches = match types {
                NodeRole::Undefined => false,
                NodeRole::Org => role == NodeRole::Org || role == NodeRole::Hybrid,
                NodeRole::Hub => role == NodeRole::Hub || role == NodeRole::Hybrid,
                NodeRole::Hybrid => role != NodeRole::Undefined,
            };
            if matches {
                r.push(self.gsn[i].clone());
                proof {
                    assert(r@.map_values(|n: Node| n@) =~= prev.push(self@.gsn[i as int]));
                }
            }
            i = i + 1;
            proof {
                lemma_filter_take_step(self@.gsn, pred, i - 1);
            }
        }
        proof {
            assert(self@.gsn.take(self@.gsn.len() as int) =~= self@.gsn);
        }
        r
    }

    /// The local records in the given state.
    pub fn gsn_nodes_by_state(&self, state: NodeState) -> (r: Vec<Node>)
        ensures
            r@.map_values(|n: Node| n@) == nodes_by_state(self@.gsn, state),
    {
        let ghost pred = |n: NodeView| n.state == state;
        let mut r: Vec<Node> = Vec::new();
        let mut i: usize = 0;
        proof {
            assert(self@.gsn.take(0) =~= Seq::<NodeView>::empty());
            reveal(Seq::filter);
        }
        while i < self.gsn.len()
            invariant
                0 <= i <= self.gsn@.len(),
                self@.gsn.len() == self.gsn@.len(),
                forall|j: int| 0 <= j < self.gsn@.len() ==> self@.gsn[j] == self.gsn@[j]@,
                pred == (|n: NodeView| n.state == state),
                r@.map_values(|n: Node| n@) == self@.gsn.take(i as int).filter(pred),
            decreases self.gsn@.len() - i,
        {
            let ghost prev = r@.map_values(|n: Node| n@);
            if self.gsn[i].state() == state {
                r.push(self.gsn[i].clone());
                proof {
                    assert(r@.map_values(|n: Node| n@) =~= prev.push(self@.gsn[i as int]));
                }
            }
            i = i + 1;
            proof {
                lemma_filter_take_step(self@.gsn, pred, i - 1);
            }
        }
        proof {
            assert(self@.gsn.take(self@.gsn.len() as int) =~= self@.gsn);
        }
        r
    }

    /// The local record of the springname, or `NodeNotFound`.
    pub fn gsn_node_by_springname(&self, name: &str) -> (r: Result<Node, NetspaceFailure>)
        ensures
            match find_node(self@.gsn, name@) {
                Some(nv) => r matches Ok(n) && n@ == nv,
                None => r matches Err(e) && e == NetspaceFailure::NodeNotFound,
            },
    {
        let mut i: usize = 0;
        proof {
            assert(self@.gsn.skip(0) =~= self@.gsn);
        }
        while i < self.gsn.len()
            invariant
                0 <= i <= self.gsn@.len(),
                self@.gsn.len() == self.gsn@.len(),
                forall|j: int| 0 <= j < self.gsn@.len() ==> self@.gsn[j] == self.gsn@[j]@,
                find_node(self@.gsn, name@) == find_node(self@.gsn.skip(i as int), name@),
            decreases self.gsn@.len() - i,
        {
            let ghost tail = self@.gsn.skip(i as int);
            proof {
                assert(tail[0] == self@.gsn[i as int]);
                assert(tail.drop_first() =~= self@.gsn.skip(i + 1));
            }
            if str_eq(self.gsn[i].springname(), name) {
                return Ok(self.gsn[i].clone());
            }
            i = i + 1;
        }
        proof {
            assert(self@.gsn.skip(self@.gsn.len() as int) =~= Seq::<NodeView>::empty());
        }
        Err(NetspaceFailure::NodeNotFound)
    }

    /// The first local record of the hostname, or `NodeNotFound`.
    pub fn gsn_node_by_hostname(&self, name: &str) -> (r: Result<Node, NetspaceFailure>)
        ensures
            match find_host(self@.gsn, name@) {
                Some(nv) => r matches Ok(n) && n@ == nv,
                None => r matches Err(e) && e == NetspaceFailure::NodeNotFound,
            },
    {
        let mut i: usize = 0;
        proof {
            assert(self@.gsn.skip(0) =~= self@.gsn);
        }
        while i < self.gsn.len()
            invariant
                0 <= i <= self.gsn@.len(),
                self@.gsn.len() == self.gsn@.len(),
                forall|j: int| 0 <= j < self.gsn@.len() ==> self@.gsn[j] == self.gsn@[j]@,
                find_host(self@.gsn, name@) == find_host(self@.gsn.skip(i as int), name@),
            decreases self.gsn@.len() - i,
        {
            let ghost tail = self@.gsn.skip(i as int);
            proof {
                assert(tail[0] == self@.gsn[i as int]);
                assert(tail.drop_first() =~= self@.gsn.skip(i + 1));
            }
            if str_eq(self.gsn[i].hostname(), name) {
                return Ok(self.gsn[i].clone());
            }
            i = i + 1;
        }
        proof {
            assert(self@.gsn.skip(self@.gsn.len() as int) =~= Seq::<NodeView>::empty());
        }
        Err(NetspaceFailure::NodeNotFound)
    }

    /// Inserts a local record. A registered node always starts `Disabled`,
    /// whatever state the record claims; a springname already present is
    /// refused and nothing changes.
    pub fn gsn_node_register(&mut self, node: &Node) -> (r: Result<Success, NetspaceFailure>)
        requires
            old(self).wf(),
        ensures
            final(self).wf(),
            final(self)@.gtn == old(self)@.gtn,
            final(self)@.tokens == old(self)@.tokens,
            match find_node(old(self)@.gsn, node@.spring) {
                Some(_) => r matches Err(e) && e == NetspaceFailure::DuplicateNode && final(self)@
                    == old(self)@,
                None => r matches Ok(_) && final(self)@.gsn == old(self)@.gsn.push(
                    (NodeView { state: NodeState::Disabled, ..node@ }),
                ),
            },
    {
        if self.gsn_node_by_springname(node.springname()).is_ok() {
            return Err(NetspaceFailure::DuplicateNode);
        }
        let fresh = Node::new(
            node.springname(),
            node.hostname(),
            node.address(),
            node.service(),
            NodeState::Disabled,
            node.role(),
        );
        proof {
            lemma_find_node(self@.gsn, node@.spring);
        }
        self.gsn.push(fresh);
        proof {
            let added = NodeView { state: NodeState::Disabled, ..node@ };
            assert(self@.gsn =~= old(self)@.gsn.push(added));
            assert forall|i: int, j: int| 0 <= i < j < self@.gsn.len() implies self@.gsn[i].spring
                != self@.gsn[j].spring by {
                if j < old(self)@.gsn.len() {
                    assert(old(self)@.gsn[i].spring != old(self)@.gsn[j].spring);
                }
            }
        }
        Ok(Success::Done)
    }

    /// Removes the local record of the springname; an absent name is
    /// refused and nothing changes.
    pub fn gsn_node_unregister(&mut self, node: &Node) -> (r: Result<Success, NetspaceFailure>)
        requires
            old(self).wf(),
        ensures
            final(self).wf(),
            final(self)@.gtn == old(self)@.gtn,
            final(self)@.tokens == old(self)@.tokens,
            match find_node(old(self)@.gsn, node@.spring) {
                None => r matches Err(e) && e == NetspaceFailure::NodeNotFound && final(self)@
                    == old(self)@,
                Some(_) => r matches Ok(_) && final(self)@.gsn == nodes_without(
                    old(self)@.gsn,
                    node@.spring,
                ),
            },
    {
        let ghost name = node@.spring;
        let idx = match self.gsn_index_of(node.springname()) {
            None => {
                proof {
                    lemma_find_node(self@.gsn, name);
                    if find_node(self@.gsn, name) is Some {
                        assert(false);
                    }
                }
                return Err(NetspaceFailure::NodeNotFound);
            },
            Some(i) => i,
        };
        proof {
            lemma_find_node(self@.gsn, name);
            if find_node(self@.gsn, name) is None {
                assert(false);
            }
        }
        self.gsn.remove(idx);
        proof {
            let pred = |n: NodeView| n.spring != name;
            let before = old(self)@.gsn;
            assert forall|j: int| 0 <= j < before.len() && j != idx implies pred(before[j]) by {
                if j < idx {
                    assert(before[j].spring != before[idx as int].spring);
                } else {
                    assert(before[idx as int].spring != before[j].spring);
                }
            }
            assert(self@.gsn =~= before.remove(idx as int));
            lemma_remove_is_filter(before, pred, idx as int);
            assert forall|i: int, j: int| 0 <= i < j < self@.gsn.len() implies self@.gsn[i].spring
                != self@.gsn[j].spring by {
                let a = if i < idx { i } else { i + 1 };
                let b = if j < idx { j } else { j + 1 };
                assert(self@.gsn[i] == before[a]);
                assert(self@.gsn[j] == before[b]);
            }
        }
        Ok(Success::Done)
    }

    /// Index of the local record carrying the springname.
    fn gsn_index_of(&self, name: &str) -> (r: Option<usize>)
        ensures
            match r {
                Some(i) => i < self@.gsn.len() && self@.gsn[i as int].spring == name@,
                None => forall|j: int| 0 <= j < self@.gsn.len() ==> self@.gsn[j].spring != name@,
            },
    {
        let mut i: usize = 0;
        while i < self.gsn.len()
            invariant
                0 <= i <= self.gsn@.len(),
                self@.gsn.len() == self.gsn@.len(),
                forall|j: int| 0 <= j < self.gsn@.len() ==> self@.gsn[j] == self.gsn@[j]@,
                forall|j: int| 0 <= j < i ==> self@.gsn[j].spring != name@,
            decreases self.gsn@.len() - i,
        {
            if str_eq(self.gsn[i].springname(), name) {
                return Some(i);
            }
            i = i + 1;
        }
        None
    }

    /// Replaces the record at `idx` with `fresh`, which must keep its
    /// springname.
    fn gsn_replace_at(&mut self, idx: usize, fresh: Node)
        requires
            old(self).wf(),
            idx < old(self)@.gsn.len(),
            fresh@.spring == old(self)@.gsn[idx as int].spring,
        ensures
            final(self).wf(),
            final(self)@.gtn == old(self)@.gtn,
            final(self)@.tokens == old(self)@.tokens,
            final(self)@.gsn == old(self)@.gsn.update(idx as int, fresh@),
    {
        self.gsn.remove(idx);
        self.gsn.insert(idx, fresh);
        proof {
            assert(self@.gsn =~= old(self)@.gsn.update(idx as int, fresh@));
            assert forall|i: int, j: int| 0 <= i < j < self@.gsn.len() implies self@.gsn[i].spring
                != self@.gsn[j].spring by {
                assert(old(self)@.gsn[i].spring != old(self)@.gsn[j].spring);
            }
        }
    }

    /// Sets the state of the springname's local record to the state the
    /// given record carries; an absent name is refused and nothing changes.
    pub fn gsn_node_update_state(&mut self, node: &Node) -> (r: Result<Success, NetspaceFailure>)
        requires
            old(self).wf(),
        ensures
            final(self).wf(),
            final(self)@.gtn == old(self)@.gtn,
            final(self)@.tokens == old(self)@.tokens,
            match find_node(old(self)@.gsn, node@.spring) {
                None => r matches Err(e) && e == NetspaceFailure::NodeNotFound && final(self)@
                    == old(self)@,
                Some(_) => r matches Ok(_) && final(self)@.gsn == old(self)@.gsn.map_values(
                    (|n: NodeView| if n.spring == node@.spring {
                        NodeView { state: node@.state, ..n }
                    } else {
                        n
                    }),
                ),
            },
    {
        let ghost name = node@.spring;
        proof {
            lemma_find_node(self@.gsn, name);
        }
        let idx = match self.gsn_index_of(node.springname()) {
            None => {
                return Err(NetspaceFailure::NodeNotFound);
            },
            Some(i) => i,
        };
        let mut fresh = self.gsn[idx].clone();
        fresh.update_state(node.state());
        self.gsn_replace_at(idx, fresh);
        proof {
            self.lemma_update_matches_map(
                old(self)@.gsn,
                idx as int,
                name,
                |n: NodeView| NodeView { state: node@.state, ..n },
            );
        }
        Ok(Success::Done)
    }

    /// Sets the role of the springname's local record; an absent name is
    /// refused and nothing changes.
    pub fn gsn_node_update_role(&mut self, node: &Node) -> (r: Result<Success, NetspaceFailure>)
        requires
            old(self).wf(),
        ensures
            final(self).wf(),
            final(self)@.gtn == old(self)@.gtn,
            final(self)@.tokens == old(self)@.tokens,
            match find_node(old(self)@.gsn, node@.spring) {
                None => r matches Err(e) && e == NetspaceFailure::NodeNotFound && final(self)@
                    == old(self)@,
                Some(_) => r matches Ok(_) && final(self)@.gsn == old(self)@.gsn.map_values(
                    (|n: NodeView| if n.spring == node@.spring {
                        NodeView { role: node@.role, ..n }
                    } else {
                        n
                    }),
                ),
            },
    {
        let ghost name = node@.spring;
        proof {
            lemma_find_node(self@.gsn, name);
        }
        let idx = match self.gsn_index_of(node.springname()) {
            None => {
                return Err(NetspaceFailure::NodeNotFound);
            },
            Some(i) => i,
        };
        let mut fresh = self.gsn[idx].clone();
        fresh.update_role(node.role());
        self.gsn_replace_at(idx, fresh);
        proof {
            self.lemma_update_matches_map(
                old(self)@.gsn,
                idx as int,
                name,
                |n: NodeView| NodeView { role: node@.role, ..n },
            );
        }
        Ok(Success::Done)
    }

    /// Sets the service of the springname's local record; an absent name is
    /// refused and nothing changes.
    pub fn gsn_node_update_service(&mut self, node: &Node) -> (r: Result<Success, NetspaceFailure>)
        requires
            old(self).wf(),
        ensures
            final(self).wf(),
            final(self)@.gtn == old(self)@.gtn,
            final(self)@.tokens == old(self)@.tokens,
            match find_node(old(self)@.gsn, node@.spring) {
                None => r matches Err(e) && e == NetspaceFailure::NodeNotFound && final(self)@
                    == old(self)@,
                Some(_) => r matches Ok(_) && final(self)@.gsn == old(self)@.gsn.map_values(
                    (|n: NodeView| if n.spring == node@.spring {
                        NodeView { service: node@.service, ..n }
                    } else {
                        n
                    }),
                ),
            },
    {
        let ghost name = node@.spring;
        proof {
            lemma_find_node(self@.gsn, name);
        }
        let idx = match self.gsn_index_of(node.springname()) {
            None => {
                return Err(NetspaceFailure::NodeNotFound);
            },
            Some(i) => i,
        };
        let mut fresh = self.gsn[idx].clone();
        fresh.update_service(node.service());
        self.gsn_replace_at(idx, fresh);
        proof {
            self.lemma_update_matches_map(
                old(self)@.gsn,
                idx as int,
                name,
                |n: NodeView| NodeView { service: node@.service, ..n },
            );
        }
        Ok(Success::Done)
    }

    /// Sets the hostname of the springname's local record; an absent name
    /// is refused and nothing changes.
    pub fn gsn_node_update_hostname(&mut self, node: &Node) -> (r: Result<Success, NetspaceFailure>)
        requires
            old(self).wf(),
        ensures
            final(self).wf(),
            final(self)@.gtn == old(self)@.gtn,
            final(self)@.tokens == old(self)@.tokens,
            match find_node(old(self)@.gsn, node@.spring) {
                None => r matches Err(e) && e == NetspaceFailure::NodeNotFound && final(self)@
                    == old(self)@,
                Some(_) => r matches Ok(_) && final(self)@.gsn == old(self)@.gsn.map_values(
                    (|n: NodeView| if n.spring == node@.spring {
                        NodeView { host: node@.host, ..n }
                    } else {
                        n
                    }),
                ),
            },
    {
        let ghost name = node@.spring;
        proof {
            lemma_find_node(self@.gsn, name);
        }
        let idx = match self.gsn_index_of(node.springname()) {
            None => {
                return Err(NetspaceFailure::NodeNotFound);
            },
            Some(i) => i,
        };
        let mut fresh = self.gsn[idx].clone();
        fresh.update_hostname(node.hostname());
        self.gsn_replace_at(idx, fresh);
        proof {
            self.lemma_update_matches_map(
                old(self)@.gsn,
                idx as int,
                name,
                |n: NodeView| NodeView { host: node@.host, ..n },
            );
        }
        Ok(Success::Done)
    }

    /// Sets the address of the springname's local record; an absent name is
    /// refused and nothing changes.
    pub fn gsn_node_update_address(&mut self, node: &Node) -> (r: Result<Success, NetspaceFailure>)
        requires
            old(self).wf(),
        ensures
            final(self).wf(),
            final(self)@.gtn == old(self)@.gtn,
            final(self)@.tokens == old(self)@.tokens,
            match find_node(old(self)@.gsn, node@.spring) {
                None => r matches Err(e) && e == NetspaceFailure::NodeNotFound && final(self)@
                    == old(self)@,
                Some(_) => r matches Ok(_) && final(self)@.gsn == old(self)@.gsn.map_values(
                    (|n: NodeView| if n.spring == node@.spring {
                        NodeView { address: node@.address, ..n }
                    } else {
                        n
                    }),
                ),
            },
    {
        let ghost name = node@.spring;
        proof {
            lemma_find_node(self@.gsn, name);
        }
        let idx = match self.gsn_index_of(node.springname()) {
            None => {
                return Err(NetspaceFailure::NodeNotFound);
            },
            Some(i) => i,
        };
        let mut fresh = self.gsn[idx].clone();
        fresh.update_address(node.address());
        self.gsn_replace_at(idx, fresh);
        proof {
            self.lemma_update_matches_map(
                old(self)@.gsn,
                idx as int,
                name,
                |n: NodeView| NodeView { address: node@.address, ..n },
            );
        }
        Ok(Success::Done)
    }

    /// An update at the unique index of a springname is the map that
    /// updates that springname's record and keeps the rest.
    proof fn lemma_update_matches_map(
        &self,
        before: Seq<NodeView>,
        idx: int,
        name: Seq<char>,
        f: spec_fn(NodeView) -> NodeView,
    )
        requires
            gsn_wf(before),
            0 <= idx < before.len(),
            before[idx].spring == name,
            self@.gsn.len() == before.len(),
            self@.gsn[idx] == f(before[idx]),
            forall|k: int| 0 <= k < before.len() && k != idx ==> self@.gsn[k] == before[k],
        ensures
            self@.gsn == before.map_values(
                (|n: NodeView| if n.spring == name {
                    f(n)
                } else {
                    n
                }),
            ),
    {
        let target = before.map_values(
            |n: NodeView| if n.spring == name {
                f(n)
            } else {
                n
            },
        );
        assert forall|k: int| 0 <= k < before.len() implies self@.gsn[k] == target[k] by {
            if k != idx {
                if k < idx {
                    assert(before[k].spring != before[idx].spring);
                } else {
                    assert(before[idx].spring != before[k].spring);
                }
            }
        }
        assert(self@.gsn =~= target);
    }
}


/// Index at which a record of the given priority is inserted: after every
/// record of the same or lower priority.
pub open spec fn insertion_point(gtn: Seq<GtnView>, p: int) -> int
    decreases gtn.len(),
{
    if gtn.len() == 0 {
        0
    } else if gtn[0].priority > p {
        0
    } else {
        1 + insertion_point(gtn.drop_first(), p)
    }
}

pub proof fn lemma_insertion_point(gtn: Seq<GtnView>, p: int)
    ensures
        0 <= insertion_point(gtn, p) <= gtn.len(),
        forall|j: int| 0 <= j < insertion_point(gtn, p) ==> gtn[j].priority <= p,
        insertion_point(gtn, p) < gtn.len() ==> gtn[insertion_point(gtn, p)].priority > p,
    decreases gtn.len(),
{
    if gtn.len() > 0 && gtn[0].priority <= p {
        lemma_insertion_point(gtn.drop_first(), p);
        assert forall|j: int| 0 <= j < insertion_point(gtn, p) implies gtn[j].priority <= p by {
            if j > 0 {
                assert(gtn.drop_first()[j - 1] == gtn[j]);
            }
        }
        if insertion_point(gtn, p) < gtn.len() {
            assert(gtn.drop_first()[insertion_point(gtn, p) - 1] == gtn[insertion_point(gtn, p)]);
        }
    }
}

impl NetspaceIo {
    /// The delegated record of the springname within the geosub, or
    /// `NodeNotFound`.
    pub fn gtn_geosub_node_by_springname(&self, name: &str, gsn: &str) -> (r: Result<
        Node,
        NetspaceFailure,
    >)
        ensures
            match gtn_find(self@.gtn, name@, gsn@) {
                Some(e) => r matches Ok(n) && n@ == e.node,
                None => r matches Err(e) && e == NetspaceFailure::NodeNotFound,
            },
    {
        let mut i: usize = 0;
        proof {
            assert(self@.gtn.skip(0) =~= self@.gtn);
        }
        while i < self.gtn.len()
            invariant
                0 <= i <= self.gtn@.len(),
                self@.gtn.len() == self.gtn@.len(),
                forall|j: int|
                    0 <= j < self.gtn@.len() ==> self@.gtn[j] == (GtnView {
                        node: self.gtn@[j].node@,
                        geosub: self.gtn@[j].geosub@,
                        priority: self.gtn@[j].priority as int,
                    }),
                gtn_find(self@.gtn, name@, gsn@) == gtn_find(self@.gtn.skip(i as int), name@, gsn@),
            decreases self.gtn@.len() - i,
        {
            let ghost tail = self@.gtn.skip(i as int);
            proof {
                assert(tail[0] == self@.gtn[i as int]);
                assert(tail.drop_first() =~= self@.gtn.skip(i + 1));
            }
            if str_eq(self.gtn[i].node.springname(), name) && string_eq(&self.gtn[i].geosub, gsn) {
                return Ok(self.gtn[i].node.clone());
            }
            i = i + 1;
        }
        proof {
            assert(self@.gtn.skip(self@.gtn.len() as int) =~= Seq::<GtnView>::empty());
        }
        Err(NetspaceFailure::NodeNotFound)
    }

    /// The geosub's authority nodes, in ascending priority order.
    pub fn gtn_geosub_root_nodes(&self, gsn: &str) -> (r: Vec<Node>)
        ensures
            r@.map_values(|n: Node| n@) == gtn_roots(self@.gtn, gsn@),
    {
        let ghost pred = |e: GtnView| e.geosub == gsn@;
        let mut r: Vec<Node> = Vec::new();
        let mut i: usize = 0;
        proof {
            assert(self@.gtn.take(0) =~= Seq::<GtnView>::empty());
            reveal(Seq::filter);
            assert(r@.map_values(|n: Node| n@) =~= self@.gtn.take(0).filter(pred).map_values(
                |e: GtnView| e.node,
            ));
        }
        while i < self.gtn.len()
            invariant
                0 <= i <= self.gtn@.len(),
                self@.gtn.len() == self.gtn@.len(),
                forall|j: int|
                    0 <= j < self.gtn@.len() ==> self@.gtn[j] == (GtnView {
                        node: self.gtn@[j].node@,
                        geosub: self.gtn@[j].geosub@,
                        priority: self.gtn@[j].priority as int,
                    }),
                pred == (|e: GtnView| e.geosub == gsn@),
                r@.map_values(|n: Node| n@) == self@.gtn.take(i as int).filter(pred).map_values(
                    |e: GtnView| e.node,
                ),
            decreases self.gtn@.len() - i,
        {
            let ghost prev = r@.map_values(|n: Node| n@);
            if string_eq(&self.gtn[i].geosub, gsn) {
                r.push(self.gtn[i].node.clone());
                proof {
                    assert(r@.map_values(|n: Node| n@) =~= prev.push(self@.gtn[i as int].node));
                }
            }
            i = i + 1;
            proof {
                lemma_filter_take_step(self@.gtn, pred, i - 1);
                if pred(self@.gtn[i - 1]) {
                    assert(self@.gtn.take(i as int).filter(pred).map_values(|e: GtnView| e.node)
                        =~= self@.gtn.take(i - 1).filter(pred).map_values(|e: GtnView| e.node).push(
                        self@.gtn[i - 1].node,
                    ));
                }
            }
        }
        proof {
            assert(self@.gtn.take(self@.gtn.len() as int) =~= self@.gtn);
        }
        r
    }

    /// The distinct geosub names of the delegated space, in first-occurrence
    /// order.
    pub fn gtn_geosubs(&self) -> (r: Vec<String>)
        ensures
            r@.map_values(|t: String| t@) == distinct_geosubs(self@.gtn),
    {
        let mut r: Vec<String> = Vec::new();
        let mut i: usize = 0;
        proof {
            assert(self@.gtn.take(0) =~= Seq::<GtnView>::empty());
            assert(r@.map_values(|t: String| t@) =~= distinct_geosubs(self@.gtn.take(0)));
        }
        while i < self.gtn.len()
            invariant
                0 <= i <= self.gtn@.len(),
                self@.gtn.len() == self.gtn@.len(),
                forall|j: int|
                    0 <= j < self.gtn@.len() ==> self@.gtn[j] == (GtnView {
                        node: self.gtn@[j].node@,
                        geosub: self.gtn@[j].geosub@,
                        priority: self.gtn@[j].priority as int,
                    }),
                r@.map_values(|t: String| t@) == distinct_geosubs(self@.gtn.take(i as int)),
            decreases self.gtn@.len() - i,
        {
            let ghost prev = r@.map_values(|t: String| t@);
            let present = crate::text::vec_contains_str(&r, self.gtn[i].geosub.as_str());
            if !present {
                r.push(self.gtn[i].geosub.clone());
                proof {
                    assert(r@.map_values(|t: String| t@) =~= prev.push(self@.gtn[i as int].geosub));
                }
            }
            i = i + 1;
            proof {
                assert(self@.gtn.take(i as int).drop_last() =~= self@.gtn.take(i - 1));
                assert(self@.gtn.take(i as int).last() == self@.gtn[i - 1]);
            }
        }
        proof {
            assert(self@.gtn.take(self@.gtn.len() as int) =~= self@.gtn);
        }
        r
    }

    /// Inserts a delegated record with an explicit priority, placed after
    /// every record of the same or lower priority; a name already delegated
    /// for the geosub is refused and nothing changes.
    pub fn gtn_geosub_register_node_at(&mut self, node: &Node, gsn: &str, priority: u64) -> (r:
        Result<Success, NetspaceFailure>)
        requires
            old(self).wf(),
        ensures
            final(self).wf(),
            final(self)@.gsn == old(self)@.gsn,
            final(self)@.tokens == old(self)@.tokens,
            match gtn_find(old(self)@.gtn, node@.spring, gsn@) {
                Some(_) => r matches Err(e) && e == NetspaceFailure::DuplicateNode && final(self)@
                    == old(self)@,
                None => r matches Ok(_) && final(self)@.gtn == old(self)@.gtn.insert(
                    insertion_point(old(self)@.gtn, priority as int),
                    (GtnView { node: node@, geosub: gsn@, priority: priority as int }),
                ),
            },
    {
        if self.gtn_geosub_node_by_springname(node.springname(), gsn).is_ok() {
            return Err(NetspaceFailure::DuplicateNode);
        }
        proof {
            lemma_gtn_find(self@.gtn, node@.spring, gsn@);
            lemma_insertion_point(self@.gtn, priority as int);
        }
        let ghost before = self@.gtn;
        let mut idx: usize = 0;
        while idx < self.gtn.len() && self.gtn[idx].priority <= priority
            invariant
                0 <= idx <= self.gtn@.len(),
                self@.gtn == before,
                self@.gtn.len() == self.gtn@.len(),
                forall|j: int|
                    0 <= j < self.gtn@.len() ==> self@.gtn[j] == (GtnView {
                        node: self.gtn@[j].node@,
                        geosub: self.gtn@[j].geosub@,
                        priority: self.gtn@[j].priority as int,
                    }),
                forall|j: int| 0 <= j < idx ==> self@.gtn[j].priority <= priority as int,
            decreases self.gtn@.len() - idx,
        {
            idx = idx + 1;
        }
        proof {
            lemma_insertion_point(before, priority as int);
            let ip = insertion_point(before, priority as int);
            if idx < ip {
                assert(self@.gtn[idx as int].priority <= priority as int);
                assert(false);
            }
            if ip < idx {
                assert(self@.gtn[ip].priority > priority as int);
                assert(false);
            }
        }
        let entry = GtnEntry { node: node.clone(), geosub: gsn.to_owned(), priority };
        self.gtn.insert(idx, entry);
        proof {
            let added = GtnView { node: node@, geosub: gsn@, priority: priority as int };
            assert(self@.gtn =~= before.insert(idx as int, added));
            lemma_insertion_point(before, priority as int);
            let newg = self@.gtn;
            assert forall|a: int, b: int| 0 <= a < b < newg.len() implies !(newg[a].node.spring
                == newg[b].node.spring && newg[a].geosub == newg[b].geosub) by {
                let a0 = if a < idx { a } else { a - 1 };
                let b0 = if b <= idx { b - 1 } else { b - 1 };
                if a != idx && b != idx {
                    let ai = if a < idx { a } else { a - 1 };
                    let bi = if b < idx { b } else { b - 1 };
                    assert(newg[a] == before[ai]);
                    assert(newg[b] == before[bi]);
                } else if a == idx {
                    assert(newg[b] == before[b - 1]);
                } else {
                    assert(newg[a] == before[a]);
                }
            }
            assert forall|a: int, b: int| 0 <= a <= b < newg.len() implies newg[a].priority
                <= newg[b].priority by {
                if a != idx && b != idx {
                    let ai = if a < idx { a } else { a - 1 };
                    let bi = if b < idx { b } else { b - 1 };
                    assert(newg[a] == before[ai]);
                    assert(newg[b] == before[bi]);
                    if a < idx && b >= idx {
                        assert(before[ai].priority <= priority as int);
                        assert(before[bi].priority >= priority as int);
                    }
                } else if a == idx && b != idx {
                    assert(newg[b] == before[b - 1]);
                    assert(before[b - 1].priority > priority as int);
                } else if b == idx && a != idx {
                    assert(newg[a] == before[a]);
                    assert(before[a].priority <= priority as int);
                }
            }
        }
        Ok(Success::Done)
    }

    /// Inserts a delegated record at the default priority.
    pub fn gtn_geosub_register_node(&mut self, node: &Node, gsn: &str) -> (r: Result<
        Success,
        NetspaceFailure,
    >)
        requires
            old(self).wf(),
        ensures
            final(self).wf(),
            final(self)@.gsn == old(self)@.gsn,
            final(self)@.tokens == old(self)@.tokens,
            match gtn_find(old(self)@.gtn, node@.spring, gsn@) {
                Some(_) => r matches Err(e) && e == NetspaceFailure::DuplicateNode && final(self)@
                    == old(self)@,
                None => r matches Ok(_) && final(self)@.gtn == old(self)@.gtn.insert(
                    insertion_point(old(self)@.gtn, 1),
                    (GtnView { node: node@, geosub: gsn@, priority: 1 }),
                ),
            },
    {
        self.gtn_geosub_register_node_at(node, gsn, 1)
    }

    /// Removes the delegated record of the springname within the geosub; an
    /// absent pair is refused and nothing changes.
    pub fn gtn_geosub_unregister_node(&mut self, node: &Node, gsn: &str) -> (r: Result<
        Success,
        NetspaceFailure,
    >)
        requires
            old(self).wf(),
        ensures
            final(self).wf(),
            final(self)@.gsn == old(self)@.gsn,
            final(self)@.tokens == old(self)@.tokens,
            match gtn_find(old(self)@.gtn, node@.spring, gsn@) {
                None => r matches Err(e) && e == NetspaceFailure::NodeNotFound && final(self)@
                    == old(self)@,
                Some(_) => r matches Ok(_) && final(self)@.gtn == gtn_without(
                    old(self)@.gtn,
                    node@.spring,
                    gsn@,
                ),
            },
    {
        let ghost name = node@.spring;
        let ghost gsub = gsn@;
        proof {
            lemma_gtn_find(self@.gtn, name, gsub);
        }
        let mut i: usize = 0;
        let ghost before = self@.gtn;
        while i < self.gtn.len()
            invariant
                0 <= i <= self.gtn@.len(),
                self@.gtn == before,
                before == old(self)@.gtn,
                old(self).wf(),
                gtn_wf(before),
                self@.gsn == old(self)@.gsn,
                self@.tokens == old(self)@.tokens,
                self@.gtn.len() == self.gtn@.len(),
                name == node@.spring,
                gsub == gsn@,
                forall|j: int|
                    0 <= j < self.gtn@.len() ==> self@.gtn[j] == (GtnView {
                        node: self.gtn@[j].node@,
                        geosub: self.gtn@[j].geosub@,
                        priority: self.gtn@[j].priority as int,
                    }),
                forall|j: int|
                    0 <= j < i ==> !(self@.gtn[j].node.spring == name && self@.gtn[j].geosub
                        == gsub),
            decreases self.gtn@.len() - i,
        {
            if str_eq(self.gtn[i].node.springname(), node.springname()) && string_eq(
                &self.gtn[i].geosub,
                gsn,
            ) {
                self.gtn.remove(i);
                proof {
                    let pred = |e: GtnView| !(e.node.spring == name && e.geosub == gsub);
                    assert forall|j: int| 0 <= j < before.len() && j != i implies pred(
                        before[j],
                    ) by {
                        if j > i {
                            assert(!(before[i as int].node.spring == before[j].node.spring
                                && before[i as int].geosub == before[j].geosub));
                        }
                    }
                    assert(self@.gtn =~= before.remove(i as int));
                    lemma_remove_is_filter(before, pred, i as int);
                    let newg = self@.gtn;
                    assert forall|a: int, b: int| 0 <= a < b < newg.len() implies !(
                    newg[a].node.spring == newg[b].node.spring && newg[a].geosub
                        == newg[b].geosub) by {
                        let ai = if a < i { a } else { a + 1 };
                        let bi = if b < i { b } else { b + 1 };
                        assert(newg[a] == before[ai]);
                        assert(newg[b] == before[bi]);
                    }
                    assert forall|a: int, b: int| 0 <= a <= b < newg.len() implies newg[a].priority
                        <= newg[b].priority by {
                        let ai = if a < i { a } else { a + 1 };
                        let bi = if b < i { b } else { b + 1 };
                        assert(newg[a] == before[ai]);
                        assert(newg[b] == before[bi]);
                    }
                    lemma_gtn_find(before, name, gsub);
                    if gtn_find(before, name, gsub) is None {
                        assert(false);
                    }
                }
                return Ok(Success::Done);
            }
            i = i + 1;
        }
        proof {
            lemma_gtn_find(before, name, gsub);
            if gtn_find(before, name, gsub) is Some {
                let e = gtn_find(before, name, gsub)->Some_0;
                let j = choose|j: int| 0 <= j < before.len() && before[j] == e;
                assert(false);
            }
        }
        Err(NetspaceFailure::NodeNotFound)
    }

    /// Whether the token store holds the token.
    pub fn gsn_check_token(&self, token: &str) -> (r: bool)
        ensures
            r == token_present(self@.tokens, token@),
    {
        let mut i: usize = 0;
        while i < self.tokens.len()
            invariant
                0 <= i <= self.tokens@.len(),
                self@.tokens.len() == self.tokens@.len(),
                forall|j: int|
                    0 <= j < self.tokens@.len() ==> self@.tokens[j] == (
                    self.tokens@[j].0@,
                    self.tokens@[j].1@,
                    ),
                forall|j: int| 0 <= j < i ==> self@.tokens[j].0 != token@,
            decreases self.tokens@.len() - i,
        {
            if string_eq(&self.tokens[i].0, token) {
                proof {
                    assert(self@.tokens[i as int].0 == token@);
                }
                return true;
            }
            i = i + 1;
        }
        false
    }

    /// All stored tokens with the springname each is for.
    pub fn gsn_tokens(&self) -> (r: Vec<(String, String)>)
        ensures
            r@.map_values(|t: (String, String)| (t.0@, t.1@)) == self@.tokens,
    {
        let mut r: Vec<(String, String)> = Vec::new();
        let mut i: usize = 0;
        while i < self.tokens.len()
            invariant
                0 <= i <= self.tokens@.len(),
                r@.len() == i,
                forall|j: int|
                    0 <= j < i ==> (r@[j].0@, r@[j].1@) == (self.tokens@[j].0@, self.tokens@[j].1@),
            decreases self.tokens@.len() - i,
        {
            r.push((self.tokens[i].0.clone(), self.tokens[i].1.clone()));
            i = i + 1;
        }
        proof {
            assert(r@.map_values(|t: (String, String)| (t.0@, t.1@)) =~= self@.tokens);
        }
        r
    }

    /// The stored tokens issued for the springname.
    pub fn gsn_token_by_springname(&self, spring: &str) -> (r: Vec<(String, String)>)
        ensures
            r@.map_values(|t: (String, String)| (t.0@, t.1@)) == tokens_for(
                self@.tokens,
                spring@,
            ),
    {
        let ghost pred = |t: (Seq<char>, Seq<char>)| t.1 == spring@;
        let mut r: Vec<(String, String)> = Vec::new();
        let mut i: usize = 0;
        proof {
            assert(self@.tokens.take(0) =~= Seq::<(Seq<char>, Seq<char>)>::empty());
            reveal(Seq::filter);
        }
        while i < self.tokens.len()
            invariant
                0 <= i <= self.tokens@.len(),
                self@.tokens.len() == self.tokens@.len(),
                forall|j: int|
                    0 <= j < self.tokens@.len() ==> self@.tokens[j] == (
                    self.tokens@[j].0@,
                    self.tokens@[j].1@,
                    ),
                pred == (|t: (Seq<char>, Seq<char>)| t.1 == spring@),
                r@.map_values(|t: (String, String)| (t.0@, t.1@)) == self@.tokens.take(
                    i as int,
                ).filter(pred),
            decreases self.tokens@.len() - i,
        {
            let ghost prev = r@.map_values(|t: (String, String)| (t.0@, t.1@));
            if string_eq(&self.tokens[i].1, spring) {
                r.push((self.tokens[i].0.clone(), self.tokens[i].1.clone()));
                proof {
                    assert(r@.map_values(|t: (String, String)| (t.0@, t.1@)) =~= prev.push(
                        self@.tokens[i as int],
                    ));
                }
            }
            i = i + 1;
            proof {
                lemma_filter_take_step(self@.tokens, pred, i - 1);
            }
        }
        proof {
            assert(self@.tokens.take(self@.tokens.len() as int) =~= self@.tokens);
        }
        r
    }

    /// Stores a token authorizing the springname to register.
    pub fn gsn_add_token(&mut self, token: &str, spring: &str)
        requires
            old(self).wf(),
        ensures
            final(self).wf(),
            final(self)@.gsn == old(self)@.gsn,
            final(self)@.gtn == old(self)@.gtn,
            final(self)@.tokens == old(self)@.tokens.push((token@, spring@)),
    {
        self.tokens.push((token.to_owned(), spring.to_owned()));
        proof {
            assert(self@.tokens =~= old(self)@.tokens.push((token@, spring@)));
        }
    }

    /// Drops every record of the given token.
    pub fn gsn_remove_token(&mut self, token: &str)
        requires
            old(self).wf(),
        ensures
            final(self).wf(),
            final(self)@.gsn == old(self)@.gsn,
            final(self)@.gtn == old(self)@.gtn,
            final(self)@.tokens == tokens_without(old(self)@.tokens, token@),
    {
        let ghost pred = |t: (Seq<char>, Seq<char>)| t.0 != token@;
        let ghost before = self@.tokens;
        let mut kept: Vec<(String, String)> = Vec::new();
        let mut i: usize = 0;
        proof {
            assert(before.take(0) =~= Seq::<(Seq<char>, Seq<char>)>::empty());
            reveal(Seq::filter);
        }
        while i < self.tokens.len()
            invariant
                0 <= i <= self.tokens@.len(),
                self@.tokens == before,
                self@.tokens.len() == self.tokens@.len(),
                forall|j: int|
                    0 <= j < self.tokens@.len() ==> self@.tokens[j] == (
                    self.tokens@[j].0@,
                    self.tokens@[j].1@,
                    ),
                pred == (|t: (Seq<char>, Seq<char>)| t.0 != token@),
                kept@.map_values(|t: (String, String)| (t.0@, t.1@)) == before.take(
                    i as int,
                ).filter(pred),
            decreases self.tokens@.len() - i,
        {
            let ghost prev = kept@.map_values(|t: (String, String)| (t.0@, t.1@));
            if !string_eq(&self.tokens[i].0, token) {
                kept.push((self.tokens[i].0.clone(), self.tokens[i].1.clone()));
                proof {
                    assert(kept@.map_values(|t: (String, String)| (t.0@, t.1@)) =~= prev.push(
                        before[i as int],
                    ));
                }
            }
            i = i + 1;
            proof {
                lemma_filter_take_step(before, pred, i - 1);
            }
        }
        self.tokens = kept;
        proof {
            assert(before.take(before.len() as int) =~= before);
        }
    }

    /// Drops every token issued for the springname.
    pub fn gsn_remove_token_by_springname(&mut self, spring: &str)
        requires
            old(self).wf(),
        ensures
            final(self).wf(),
            final(self)@.gsn == old(self)@.gsn,
            final(self)@.gtn == old(self)@.gtn,
            final(self)@.tokens == tokens_not_for(old(self)@.tokens, spring@),
    {
        let ghost pred = |t: (Seq<char>, Seq<char>)| t.1 != spring@;
        let ghost before = self@.tokens;
        let mut kept: Vec<(String, String)> = Vec::new();
        let mut i: usize = 0;
        proof {
            assert(before.take(0) =~= Seq::<(Seq<char>, Seq<char>)>::empty());
            reveal(Seq::filter);
        }
        while i < self.tokens.len()
            invariant
                0 <= i <= self.tokens@.len(),
                self@.tokens == before,
                self@.tokens.len() == self.tokens@.len(),
                forall|j: int|
                    0 <= j < self.tokens@.len() ==> self@.tokens[j] == (
                    self.tokens@[j].0@,
                    self.tokens@[j].1@,
                    ),
                pred == (|t: (Seq<char>, Seq<char>)| t.1 != spring@),
                kept@.map_values(|t: (String, String)| (t.0@, t.1@)) == before.take(
                    i as int,
                ).filter(pred),
            decreases self.tokens@.len() - i,
        {
            let ghost prev = kept@.map_values(|t: (String, String)| (t.0@, t.1@));
            if !string_eq(&self.tokens[i].1, spring) {
                kept.push((self.tokens[i].0.clone(), self.tokens[i].1.clone()));
                proof {
                    assert(kept@.map_values(|t: (String, String)| (t.0@, t.1@)) =~= prev.push(
                        before[i as int],
                    ));
                }
            }
            i = i + 1;
            proof {
                lemma_filter_take_step(before, pred, i - 1);
            }
        }
        self.tokens = kept;
        proof {
            assert(before.take(before.len() as int) =~= before);
        }
    }
}

/// Whether a record of the node is already present, by hostname or by
/// springname.
pub fn netspace_routine_is_registered(node: &Node, nio: &NetspaceIo) -> (r: bool)
    ensures
        r == (find_host(nio@.gsn, node@.host) is Some || find_node(nio@.gsn, node@.spring)
            is Some),
{
    match nio.gsn_node_by_hostname(node.hostname()) {
        Ok(_) => true,
        Err(_) => nio.gsn_node_by_springname(node.springname()).is_ok(),
    }
}

/// Whether the transport address belongs to one of the geosub's authority
/// nodes.
pub fn netspace_routine_is_address_gsn_root(address: &str, gsn: &str, nio: &NetspaceIo) -> (r:
    bool)
    ensures
        r == exists|j: int|
            0 <= j < gtn_roots(nio@.gtn, gsn@).len() && gtn_roots(nio@.gtn, gsn@)[j].address
                == address@,
{
    let nodes = nio.gtn_geosub_root_nodes(gsn);
    let ghost roots = gtn_roots(nio@.gtn, gsn@);
    let mut i: usize = 0;
    while i < nodes.len()
        invariant
            0 <= i <= nodes@.len(),
            roots == gtn_roots(nio@.gtn, gsn@),
            nodes@.map_values(|n: Node| n@) == roots,
            forall|j: int| 0 <= j < i ==> roots[j].address != address@,
        decreases nodes@.len() - i,
    {
        if str_eq(nodes[i].address(), address) {
            proof {
                assert(roots[i as int].address == address@);
            }
            return true;
        }
        i = i + 1;
    }
    false
}

/// Enters this node's own record, built from its configuration, into both
/// spaces: registered, enabled, and delegated for its own geosub.
pub fn netspace_add_self(ns: &mut NetspaceIo, cfg: &crate::config::Config)
    requires
        old(ns).wf(),
        find_node(old(ns)@.gsn, crate::config::kv_lookup(cfg@.node, "springname"@)) is None,
        gtn_find(
            old(ns)@.gtn,
            crate::config::kv_lookup(cfg@.node, "springname"@),
            crate::config::kv_lookup(cfg@.node, "geosub"@),
        ) is None,
    ensures
        final(ns).wf(),
        final(ns)@.tokens == old(ns)@.tokens,
        final(ns)@.gsn == old(ns)@.gsn.push(
            (NodeView {
                spring: crate::config::kv_lookup(cfg@.node, "springname"@),
                host: crate::config::kv_lookup(cfg@.node, "hostname"@),
                address: crate::config::kv_lookup(cfg@.node, "address"@),
                service: NodeService::Dvsp,
                state: NodeState::Enabled,
                role: NodeRole::Hub,
            }),
        ),
        final(ns)@.gtn == old(ns)@.gtn.insert(
            insertion_point(old(ns)@.gtn, 1),
            (GtnView {
                node: NodeView {
                    spring: crate::config::kv_lookup(cfg@.node, "springname"@),
                    host: crate::config::kv_lookup(cfg@.node, "hostname"@),
                    address: crate::config::kv_lookup(cfg@.node, "address"@),
                    service: NodeService::Dvsp,
                    state: NodeState::Enabled,
                    role: NodeRole::Hub,
                },
                geosub: crate::config::kv_lookup(cfg@.node, "geosub"@),
                priority: 1,
            }),
        ),
{
    let spring = cfg.get_key("springname");
    let host = cfg.get_key("hostname");
    let address = cfg.get_key("address");
    let geosub = cfg.get_key("geosub");
    let mut n = Node::new(
        spring.as_str(),
        host.as_str(),
        address.as_str(),
        NodeService::Dvsp,
        NodeState::Enabled,
        NodeRole::Hub,
    );
    let reg = ns.gsn_node_register(&n);
    proof {
        lemma_find_node(old(ns)@.gsn, n@.spring);
    }
    let upd = ns.gsn_node_update_state(&n);
    proof {
        let pushed = old(ns)@.gsn.push(NodeView { state: NodeState::Disabled, ..n@ });
        lemma_register_then_duplicate(old(ns)@.gsn, n@);
        assert(ns@.gsn =~= old(ns)@.gsn.push(NodeView { state: NodeState::Enabled, ..n@ }));
    }
    let del = ns.gtn_geosub_register_node(&n, geosub.as_str());
    proof {
        assert(ns@.gsn =~= old(ns)@.gsn.push(NodeView { state: NodeState::Enabled, ..n@ }));
    }
}

} // verus!
