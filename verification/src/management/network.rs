//! The console's network zone: viewing, updating and removing local
//! registry records.

use vstd::prelude::*;
use vstd::string::*;

use crate::netspace::{
    find_host, find_node, lemma_find_node, role_matches, NetspaceFailure, NetspaceIo,
};
use crate::node::{
    role_from_str_spec, role_str_spec, service_from_str_spec, service_str_spec,
    state_from_str_spec, state_str_spec, Node, NodeRole, NodeService, NodeState, NodeView,
};
use crate::text::{find_spec, join_spec, join_str, split_spec, split_str, str_eq, string_eq};

use super::{render_table, table_text};

verus! {

/// What a network command does.
#[derive(Clone, Copy, PartialEq, Eq, Structural, Debug)]
pub enum NetworkAction {
    View,
    Remove,
    Update,
}

/// Mathematical image of a [`NetworkOperand`].
pub ghost enum NetworkOperandView {
    Nil,
    All,
    Node(Seq<char>),
    Role(NodeRole),
    State(NodeState),
    Service(NodeService),
    Host(Seq<char>),
    Address(Seq<char>),
}

/// A target filter or value of a network command.
#[derive(Clone, PartialEq, Debug)]
pub enum NetworkOperand {
    Nil,
    All,
    Node(String),
    Role(NodeRole),
    State(NodeState),
    Service(NodeService),
    Host(String),
    Address(String),
}

impl View for NetworkOperand {
    type V = NetworkOperandView;

    open spec fn view(&self) -> NetworkOperandView {
        match self {
            NetworkOperand::Nil => NetworkOperandView::Nil,
            NetworkOperand::All => NetworkOperandView::All,
            NetworkOperand::Node(s) => NetworkOperandView::Node(s@),
            NetworkOperand::Role(r) => NetworkOperandView::Role(*r),
            NetworkOperand::State(s) => NetworkOperandView::State(*s),
            NetworkOperand::Service(s) => NetworkOperandView::Service(*s),
            NetworkOperand::Host(s) => NetworkOperandView::Host(s@),
            NetworkOperand::Address(s) => NetworkOperandView::Address(s@),
        }
    }
}

/// Mathematical image of a [`NetworkZone`].
pub ghost struct NetworkZoneView {
    pub action: NetworkAction,
    pub op1: NetworkOperandView,
    pub op2: NetworkOperandView,
}

/// One parsed network command.
#[derive(Clone, PartialEq, Debug)]
pub struct NetworkZone {
    pub action: NetworkAction,
    pub op1: NetworkOperand,
    pub op2: NetworkOperand,
}

impl View for NetworkZone {
    type V = NetworkZoneView;

    open spec fn view(&self) -> NetworkZoneView {
        NetworkZoneView { action: self.action, op1: self.op1@, op2: self.op2@ }
    }
}

/// One operand read from the words starting at `i`: the operand and the
/// position after it. An exhausted or unknown word reads as `Nil`.
pub open spec fn extract_op_spec(parts: Seq<Seq<char>>, i: int) -> Option<(
    NetworkOperandView,
    int,
)> {
    if i >= parts.len() {
        Some((NetworkOperandView::Nil, i))
    } else {
        let w = parts[i];
        if w == "all"@ {
            Some((NetworkOperandView::All, i + 1))
        } else if w == "node"@ || w == "springname"@ {
            if i + 1 < parts.len() {
                Some((NetworkOperandView::Node(parts[i + 1]), i + 2))
            } else {
                None
            }
        } else if w == "role"@ {
            if i + 1 < parts.len() {
                match role_from_str_spec(parts[i + 1]) {
                    Some(r) => Some((NetworkOperandView::Role(r), i + 2)),
                    None => None,
                }
            } else {
                None
            }
        } else if w == "state"@ {
            if i + 1 < parts.len() {
                match state_from_str_spec(parts[i + 1]) {
                    Some(s) => Some((NetworkOperandView::State(s), i + 2)),
                    None => None,
                }
            } else {
                None
            }
        } else if w == "service"@ {
            if i + 1 < parts.len() {
                match service_from_str_spec(parts[i + 1]) {
                    Some(s) => Some((NetworkOperandView::Service(s), i + 2)),
                    None => None,
                }
            } else {
                None
            }
        } else if w == "hostname"@ {
            if i + 1 < parts.len() {
                Some((NetworkOperandView::Host(parts[i + 1]), i + 2))
            } else {
                None
            }
        } else if w == "address"@ {
            if i + 1 < parts.len() {
                Some((NetworkOperandView::Address(parts[i + 1]), i + 2))
            } else {
                None
            }
        } else {
            Some((NetworkOperandView::Nil, i + 1))
        }
    }
}

/// What the network zone's part of a console command parses to.
pub open spec fn network_zone_spec(msg: Seq<char>) -> Option<NetworkZoneView> {
    if msg.len() == 0 {
        None
    } else {
        let parts = split_spec(msg, ' ');
        let action = if parts[0] == "view"@ {
            Some(NetworkAction::View)
        } else if parts[0] == "remove"@ {
            Some(NetworkAction::Remove)
        } else if parts[0] == "update"@ {
            Some(NetworkAction::Update)
        } else {
            None
        };
        match action {
            None => None,
            Some(action) => match extract_op_spec(parts, 1) {
                None => None,
                Some((op1, next)) => if op1 is Nil {
                    None
                } else {
                    match extract_op_spec(parts, next) {
                        None => None,
                        Some((op2, _)) => Some(NetworkZoneView { action, op1, op2 }),
                    }
                },
            },
        }
    }
}

impl NetworkZone {
    pub fn new(action: NetworkAction, op1: NetworkOperand, op2: NetworkOperand) -> (r: NetworkZone)
        ensures
            r@ == (NetworkZoneView { action, op1: op1@, op2: op2@ }),
    {
        NetworkZone { action, op1, op2 }
    }

    /// One operand read from the words starting at `i`.
    pub fn extract_operand(parts: &Vec<String>, i: usize) -> (r: Option<(NetworkOperand, usize)>)
        requires
            i <= parts@.len(),
        ensures
            match r {
                Some(p) => extract_op_spec(parts@.map_values(|t: String| t@), i as int) == Some(
                    (p.0@, p.1 as int),
                ) && p.1 <= parts@.len(),
                None => extract_op_spec(parts@.map_values(|t: String| t@), i as int) is None,
            },
    {
        if i >= parts.len() {
            return Some((NetworkOperand::Nil, i));
        }
        let w = parts[i].as_str();
        if str_eq(w, "all") {
            Some((NetworkOperand::All, i + 1))
        } else if str_eq(w, "node") || str_eq(w, "springname") {
            if i + 1 < parts.len() {
                Some((NetworkOperand::Node(parts[i + 1].clone()), i + 2))
            } else {
                None
            }
        } else if str_eq(w, "role") {
            if i + 1 < parts.len() {
                match NodeRole::from_str(parts[i + 1].as_str()) {
                    Some(r) => Some((NetworkOperand::Role(r), i + 2)),
                    None => None,
                }
            } else {
                None
            }
        } else if str_eq(w, "state") {
            if i + 1 < parts.len() {
                match NodeState::from_str(parts[i + 1].as_str()) {
                    Some(s) => Some((NetworkOperand::State(s), i + 2)),
                    None => None,
                }
            } else {
                None
            }
        } else if str_eq(w, "service") {
            if i + 1 < parts.len() {
                match NodeService::from_str(parts[i + 1].as_str()) {
                    Some(s) => Some((NetworkOperand::Service(s), i + 2)),
                    None => None,
                }
            } else {
                None
            }
        } else if str_eq(w, "hostname") {
            if i + 1 < parts.len() {
                Some((NetworkOperand::Host(parts[i + 1].clone()), i + 2))
            } else {
                None
            }
        } else if str_eq(w, "address") {
            if i + 1 < parts.len() {
                Some((NetworkOperand::Address(parts[i + 1].clone()), i + 2))
            } else {
                None
            }
        } else {
            Some((NetworkOperand::Nil, i + 1))
        }
    }

    pub fn from_str(msg: &str) -> (r: Option<NetworkZone>)
        ensures
            match r {
                Some(z) => network_zone_spec(msg@) == Some(z@),
                None => network_zone_spec(msg@) is None,
            },
    {
        if msg.unicode_len() == 0 {
            return None;
        }
        let parts = split_str(msg, ' ');
        let w0 = parts[0].as_str();
        let action = if str_eq(w0, "view") {
            NetworkAction::View
        } else if str_eq(w0, "remove") {
            NetworkAction::Remove
        } else if str_eq(w0, "update") {
            NetworkAction::Update
        } else {
            return None;
        };
        let (op1, next) = match Self::extract_operand(&parts, 1) {
            None => {
                return None;
            },
            Some(p) => p,
        };
        match op1 {
            NetworkOperand::Nil => {
                return None;
            },
            _ => {},
        }
        let (op2, _) = match Self::extract_operand(&parts, next) {
            None => {
                return None;
            },
            Some(p) => p,
        };
        Some(NetworkZone::new(action, op1, op2))
    }

    /// Runs one network command against the registry.
    pub fn process(nz: NetworkZone, nio: &mut NetspaceIo) -> (r: Option<String>)
        requires
            old(nio).wf(),
        ensures
            final(nio).wf(),
    {
        match nz.action {
            NetworkAction::View => NetworkZoneModel::view(nz.op1, nio),
            NetworkAction::Update => NetworkZoneModel::update(nz.op1, nz.op2, nio),
            NetworkAction::Remove => NetworkZoneModel::remove(nz.op1, nio),
        }
    }
}

/// The table headings of a network listing.
pub open spec fn node_table_header() -> Seq<Seq<char>> {
    seq!["_spring_"@, "_host_"@, "_address_"@, "_role_"@, "_state_"@, "_service_"@]
}

/// One node's table row.
pub open spec fn node_row(n: NodeView) -> Seq<Seq<char>> {
    seq![
        n.spring,
        n.host,
        n.address,
        role_str_spec(n.role),
        state_str_spec(n.state),
        service_str_spec(n.service),
    ]
}

/// The table drawn for a list of nodes.
pub open spec fn nodes_table(gsn: Seq<NodeView>) -> Seq<char> {
    table_text(seq![node_table_header()] + gsn.map_values(|n: NodeView| node_row(n)))
}

/// The console's text for a failed record lookup.
pub open spec fn node_error_text() -> Seq<char> {
    "Error requesting node NodeNotFound"@
}

/// The value applied to a record by an update.
pub open spec fn apply_value(n: NodeView, v: NetworkOperandView) -> NodeView {
    match v {
        NetworkOperandView::Role(r) => NodeView { role: r, ..n },
        NetworkOperandView::State(s) => NodeView { state: s, ..n },
        NetworkOperandView::Service(s) => NodeView { service: s, ..n },
        NetworkOperandView::Host(h) => NodeView { host: h, ..n },
        NetworkOperandView::Address(a) => NodeView { address: a, ..n },
        _ => n,
    }
}

/// The local space after one named record took the value.
pub open spec fn apply_one(
    gsn: Seq<NodeView>,
    name: Seq<char>,
    v: NetworkOperandView,
) -> Seq<NodeView> {
    gsn.map_values(
        |x: NodeView| if x.spring == name {
            apply_value(x, v)
        } else {
            x
        },
    )
}

/// The local space after each target, by springname, took the value.
pub open spec fn mass_update(
    gsn: Seq<NodeView>,
    targets: Seq<NodeView>,
    v: NetworkOperandView,
) -> Seq<NodeView>
    decreases targets.len(),
{
    if targets.len() == 0 {
        gsn
    } else {
        mass_update(apply_one(gsn, targets[0].spring, v), targets.drop_first(), v)
    }
}

/// The console's report line for one updated record, quoting the old value.
pub open spec fn update_msg(n: NodeView, v: NetworkOperandView) -> Seq<char> {
    match v {
        NetworkOperandView::Role(r) => "Updated "@ + n.spring + " role: "@ + role_str_spec(n.role)
            + " -> "@ + role_str_spec(r),
        NetworkOperandView::State(s) => "Updated "@ + n.spring + " state: "@ + state_str_spec(
            n.state,
        ) + " -> "@ + state_str_spec(s),
        NetworkOperandView::Service(s) => "Updated "@ + n.spring + " service: "@
            + service_str_spec(n.service) + " -> "@ + service_str_spec(s),
        NetworkOperandView::Host(h) => "Updated "@ + n.spring + " hostname: "@ + n.host + " -> "@
            + h,
        NetworkOperandView::Address(a) => "Updated "@ + n.spring + " address: "@ + n.address
            + " -> "@ + a,
        _ => "Error: Unknown or unsupported value for updating"@,
    }
}

/// The report of a whole update: one line per target and a final newline.
pub open spec fn update_out(msgs: Seq<Seq<char>>) -> Seq<char> {
    join_spec(msgs, "\n"@) + "\n"@
}

/// Every listed record's springname is present in the local space.
pub open spec fn targets_known(gsn: Seq<NodeView>, targets: Seq<NodeView>) -> bool {
    forall|j: int|
        #![trigger targets[j]]
        0 <= j < targets.len() ==> exists|k: int|
            #![trigger gsn[k]]
            0 <= k < gsn.len() && gsn[k].spring == targets[j].spring
}

/// The whole space is a known target list of itself.
pub proof fn lemma_all_targets_known(gsn: Seq<NodeView>)
    ensures
        targets_known(gsn, gsn),
{
    assert forall|j: int| #![trigger gsn[j]] 0 <= j < gsn.len() implies exists|k: int|
        #![trigger gsn[k]]
        0 <= k < gsn.len() && gsn[k].spring == gsn[j].spring by {
        assert(gsn[j].spring == gsn[j].spring);
    }
}

/// Whatever a filter selects is a known target list.
pub proof fn lemma_filter_targets_known(gsn: Seq<NodeView>, pred: spec_fn(NodeView) -> bool)
    ensures
        targets_known(gsn, gsn.filter(pred)),
{
    let sel = gsn.filter(pred);
    assert forall|j: int| #![trigger sel[j]] 0 <= j < sel.len() implies exists|k: int|
        #![trigger gsn[k]]
        0 <= k < gsn.len() && gsn[k].spring == sel[j].spring by {
        assert(sel.contains(sel[j]));
        gsn.lemma_filter_contains_rev(pred, sel[j]);
        let k = choose|k: int| 0 <= k < gsn.len() && gsn[k] == sel[j];
        assert(gsn[k].spring == sel[j].spring);
    }
}

/// The models behind the network zone's actions.
pub struct NetworkZoneModel;

impl NetworkZoneModel {
    /// Tabulates the records the target filter selects.
    pub fn view(op: NetworkOperand, nio: &NetspaceIo) -> (r: Option<String>)
        ensures
            match op@ {
                NetworkOperandView::All => r matches Some(s) && s@ == nodes_table(nio@.gsn),
                NetworkOperandView::Node(name) => r matches Some(s) && s@ == (match find_node(
                    nio@.gsn,
                    name,
                ) {
                    Some(n) => nodes_table(seq![n]),
                    None => node_error_text(),
                }),
                NetworkOperandView::Host(h) => r matches Some(s) && s@ == (match find_host(
                    nio@.gsn,
                    h,
                ) {
                    Some(n) => nodes_table(seq![n]),
                    None => node_error_text(),
                }),
                NetworkOperandView::Role(role) => r matches Some(s) && s@ == nodes_table(
                    crate::netspace::nodes_by_role(nio@.gsn, role),
                ),
                NetworkOperandView::State(st) => r matches Some(s) && s@ == nodes_table(
                    crate::netspace::nodes_by_state(nio@.gsn, st),
                ),
                NetworkOperandView::Address(a) => r matches Some(s) && s@ == nodes_table(
                    crate::netspace::nodes_by_address(nio@.gsn, a),
                ),
                _ => r is None,
            },
    {
        match op {
            NetworkOperand::All => Some(Self::tabulate_nodes(&nio.gsn_nodes())),
            NetworkOperand::Node(s) => Some(
                Self::tabulate_node(nio.gsn_node_by_springname(s.as_str())),
            ),
            NetworkOperand::Host(s) => Some(
                Self::tabulate_node(nio.gsn_node_by_hostname(s.as_str())),
            ),
            NetworkOperand::Role(role) => Some(Self::tabulate_nodes(&nio.gsn_nodes_by_type(role))),
            NetworkOperand::State(st) => Some(Self::tabulate_nodes(&nio.gsn_nodes_by_state(st))),
            NetworkOperand::Address(a) => Some(
                Self::tabulate_nodes(&nio.gsn_nodes_by_address(a.as_str())),
            ),
            _ => None,
        }
    }

    /// Applies the value to every record the target filter selects, as the
    /// registry stood beforehand, and reports one line per record.
    #[verifier::rlimit(60)]
    #[verifier::spinoff_prover]
    pub fn update(target: NetworkOperand, value: NetworkOperand, nio: &mut NetspaceIo) -> (r:
        Option<String>)
        requires
            old(nio).wf(),
        ensures
            final(nio).wf(),
            final(nio)@.gtn == old(nio)@.gtn,
            final(nio)@.tokens == old(nio)@.tokens,
            match target@ {
                NetworkOperandView::All => r matches Some(s) && s@ == update_out(
                    old(nio)@.gsn.map_values(|n: NodeView| update_msg(n, value@)),
                ) && final(nio)@.gsn == mass_update(old(nio)@.gsn, old(nio)@.gsn, value@),
                NetworkOperandView::Node(name) => match find_node(old(nio)@.gsn, name) {
                    None => r matches Some(s) && s@ == update_out(seq![node_error_text()])
                        && final(nio)@ == old(nio)@,
                    Some(n) => r matches Some(s) && s@ == update_out(seq![update_msg(n, value@)])
                        && final(nio)@.gsn == apply_one(old(nio)@.gsn, name, value@),
                },
                NetworkOperandView::Role(role) => ({
                    let sel = crate::netspace::nodes_by_role(old(nio)@.gsn, role);
                    r matches Some(s) && s@ == update_out(
                        sel.map_values(|n: NodeView| update_msg(n, value@)),
                    ) && final(nio)@.gsn == mass_update(old(nio)@.gsn, sel, value@)
                }),
                NetworkOperandView::State(st) => ({
                    let sel = crate::netspace::nodes_by_state(old(nio)@.gsn, st);
                    r matches Some(s) && s@ == update_out(
                        sel.map_values(|n: NodeView| update_msg(n, value@)),
                    ) && final(nio)@.gsn == mass_update(old(nio)@.gsn, sel, value@)
                }),
                NetworkOperandView::Address(a) => ({
                    let sel = crate::netspace::nodes_by_address(old(nio)@.gsn, a);
                    r matches Some(s) && s@ == update_out(
                        sel.map_values(|n: NodeView| update_msg(n, value@)),
                    ) && final(nio)@.gsn == mass_update(old(nio)@.gsn, sel, value@)
                }),
                _ => r is None && final(nio)@ == old(nio)@,
            },
    {
        let ghost start = nio@.gsn;
        let targets: Vec<Node> = match &target {
            NetworkOperand::All => {
                let v = nio.gsn_nodes();
                proof {
                    lemma_all_targets_known(start);
                    assert(v@.map_values(|n: Node| n@) == start);
                }
                v
            },
            NetworkOperand::Node(s) => {
                proof {
                    crate::netspace::lemma_find_node(nio@.gsn, s@);
                }
                let msg = match nio.gsn_node_by_springname(s.as_str()) {
                    Ok(n) => {
                        proof {
                            assert(n@.spring == s@);
                        }
                        Self::update_node(&n, &value, nio)
                    },
                    Err(_) => {
                        let mut m = String::from_str("Error requesting node NodeNotFound");
                        proof {
                            assert(m@ =~= node_error_text());
                        }
                        m
                    },
                };
                let mut out = msg;
                out.append("\n");
                proof {
                    match find_node(old(nio)@.gsn, target@->Node_0) {
                        Some(n) => {
                            assert(seq![update_msg(n, value@)].len() == 1);
                            assert(out@ =~= update_out(seq![update_msg(n, value@)]));
                        },
                        None => {
                            assert(out@ =~= update_out(seq![node_error_text()]));
                        },
                    }
                }
                return Some(out);
            },
            NetworkOperand::Role(role) => {
                let v = nio.gsn_nodes_by_type(*role);
                proof {
                    let c = |n: NodeView| role_matches(n.role, *role);
                    lemma_filter_targets_known(start, c);
                    assert(v@.map_values(|n: Node| n@) == start.filter(c));
                }
                v
            },
            NetworkOperand::State(st) => {
                let v = nio.gsn_nodes_by_state(*st);
                proof {
                    let c = |n: NodeView| n.state == *st;
                    lemma_filter_targets_known(start, c);
                    assert(v@.map_values(|n: Node| n@) == start.filter(c));
                }
                v
            },
            NetworkOperand::Address(a) => {
                let v = nio.gsn_nodes_by_address(a.as_str());
                proof {
                    let c = |n: NodeView| n.address == a@;
                    lemma_filter_targets_known(start, c);
                    assert(v@.map_values(|n: Node| n@) == start.filter(c));
                }
                v
            },
            _ => {
                return None;
            },
        };
        let out = Self::update_selected(&targets, &value, nio);
        Some(out)
    }

    /// Applies the value to each listed record, by springname, and reports
    /// one line per record.
    #[verifier::spinoff_prover]
    #[verifier::rlimit(60)]
    fn update_selected(targets: &Vec<Node>, value: &NetworkOperand, nio: &mut NetspaceIo) -> (r:
        String)
        requires
            old(nio).wf(),
            targets_known(old(nio)@.gsn, targets@.map_values(|n: Node| n@)),
        ensures
            final(nio).wf(),
            final(nio)@.gtn == old(nio)@.gtn,
            final(nio)@.tokens == old(nio)@.tokens,
            r@ == update_out(
                targets@.map_values(|n: Node| n@).map_values(
                    (|n: NodeView| update_msg(n, value@)),
                ),
            ),
            final(nio)@.gsn == mass_update(
                old(nio)@.gsn,
                targets@.map_values(|n: Node| n@),
                value@,
            ),
    {
        let ghost start = nio@.gsn;
        let ghost targetsv = targets@.map_values(|n: Node| n@);
        let mut msgs: Vec<String> = Vec::new();
        let mut i: usize = 0;
        proof {
            assert(targetsv.skip(0) =~= targetsv);
        }
        while i < targets.len()
            invariant
                0 <= i <= targets@.len(),
                targetsv == targets@.map_values(|n: Node| n@),
                nio.wf(),
                nio@.gtn == old(nio)@.gtn,
                nio@.tokens == old(nio)@.tokens,
                start == old(nio)@.gsn,
                mass_update(start, targetsv, value@) == mass_update(
                    nio@.gsn,
                    targetsv.skip(i as int),
                    value@,
                ),
                nio@.gsn.len() == start.len(),
                forall|k: int| 0 <= k < start.len() ==> nio@.gsn[k].spring == start[k].spring,
                targets_known(start, targetsv),
                msgs@.len() == i,
                forall|j: int| 0 <= j < i ==> msgs@[j]@ == update_msg(targetsv[j], value@),
            decreases targets@.len() - i,
        {
            let ghost tail = targetsv.skip(i as int);
            proof {
                assert(tail[0] == targetsv[i as int]);
                assert(tail.drop_first() =~= targetsv.skip(i + 1));
                let k = choose|k: int|
                    #![trigger start[k]]
                    0 <= k < start.len() && start[k].spring == targetsv[i as int].spring;
                assert(nio@.gsn[k].spring == targetsv[i as int].spring);
                lemma_find_node(nio@.gsn, targetsv[i as int].spring);
                if find_node(nio@.gsn, targetsv[i as int].spring) is None {
                    assert(false);
                }
            }
            let msg = Self::update_node(&targets[i], value, nio);
            msgs.push(msg);
            i = i + 1;
        }
        proof {
            assert(targetsv.skip(targetsv.len() as int) =~= Seq::<NodeView>::empty());
            assert(msgs@.map_values(|t: String| t@) =~= targetsv.map_values(
                |n: NodeView| update_msg(n, value@),
            ));
        }
        let mut out = join_str(&msgs, "\n");
        out.append("\n");
        out
    }

    /// Applies the value to the one record named by the given node, and
    /// reports the change, quoting the record's old value.
    pub fn update_node(node: &Node, value: &NetworkOperand, nio: &mut NetspaceIo) -> (r: String)
        requires
            old(nio).wf(),
            find_node(old(nio)@.gsn, node@.spring) is Some,
        ensures
            final(nio).wf(),
            final(nio)@.gtn == old(nio)@.gtn,
            final(nio)@.tokens == old(nio)@.tokens,
            r@ == update_msg(node@, value@),
            final(nio)@.gsn == apply_one(old(nio)@.gsn, node@.spring, value@),
    {
        let mut n = node.clone();
        let r: String;
        match value {
            NetworkOperand::Role(role) => {
                n.update_role(*role);
                let ok = nio.gsn_node_update_role(&n);
                proof {
                    if ok is Err {
                        assert(false);
                    }
                }
                let mut m = String::from_str("Updated ");
                m.append(node.springname());
                m.append(" role: ");
                m.append(node.role().as_str());
                m.append(" -> ");
                m.append(role.as_str());
                r = m;
            },
            NetworkOperand::State(st) => {
                n.update_state(*st);
                let ok = nio.gsn_node_update_state(&n);
                proof {
                    if ok is Err {
                        assert(false);
                    }
                }
                let mut m = String::from_str("Updated ");
                m.append(node.springname());
                m.append(" state: ");
                m.append(node.state().as_str());
                m.append(" -> ");
                m.append(st.as_str());
                r = m;
            },
            NetworkOperand::Service(sv) => {
                n.update_service(*sv);
                let ok = nio.gsn_node_update_service(&n);
                proof {
                    if ok is Err {
                        assert(false);
                    }
                }
                let mut m = String::from_str("Updated ");
                m.append(node.springname());
                m.append(" service: ");
                m.append(node.service().as_str());
                m.append(" -> ");
                m.append(sv.as_str());
                r = m;
            },
            NetworkOperand::Host(h) => {
                n.update_hostname(h.as_str());
                let ok = nio.gsn_node_update_hostname(&n);
                proof {
                    if ok is Err {
                        assert(false);
                    }
                }
                let mut m = String::from_str("Updated ");
                m.append(node.springname());
                m.append(" hostname: ");
                m.append(node.hostname());
                m.append(" -> ");
                m.append(h.as_str());
                r = m;
            },
            NetworkOperand::Address(a) => {
                n.update_address(a.as_str());
                let ok = nio.gsn_node_update_address(&n);
                proof {
                    if ok is Err {
                        assert(false);
                    }
                }
                let mut m = String::from_str("Updated ");
                m.append(node.springname());
                m.append(" address: ");
                m.append(node.address());
                m.append(" -> ");
                m.append(a.as_str());
                r = m;
            },
            _ => {
                proof {
                    assert(apply_one(nio@.gsn, node@.spring, value@) =~= nio@.gsn);
                }
                r = String::from_str("Error: Unknown or unsupported value for updating");
            },
        }
        proof {
            assert(nio@.gsn =~= apply_one(old(nio)@.gsn, node@.spring, value@));
        }
        r
    }

    /// Removes the one record the target filter names.
    pub fn remove(op: NetworkOperand, nio: &mut NetspaceIo) -> (r: Option<String>)
        requires
            old(nio).wf(),
        ensures
            final(nio).wf(),
            final(nio)@.gtn == old(nio)@.gtn,
            final(nio)@.tokens == old(nio)@.tokens,
            match op@ {
                NetworkOperandView::Node(name) => match find_node(old(nio)@.gsn, name) {
                    Some(n) => r matches Some(s) && s@ == "Removed node "@ + n.spring + "\n"@
                        && final(nio)@.gsn == crate::netspace::nodes_without(
                        old(nio)@.gsn,
                        name,
                    ),
                    None => r matches Some(s) && s@
                        == "Error: unabled to retrieve node (NodeNotFound)\n"@ && final(nio)@
                        == old(nio)@,
                },
                _ => r matches Some(s) && s@
                    == "Error: Unknown or unsupported target filter\n"@ && final(nio)@ == old(
                    nio,
                )@,
            },
    {
        match &op {
            NetworkOperand::Node(s) => {
                match nio.gsn_node_by_springname(s.as_str()) {
                    Ok(n) => {
                        proof {
                            lemma_find_node(nio@.gsn, s@);
                        }
                        let res = nio.gsn_node_unregister(&n);
                        proof {
                            if res is Err {
                                assert(false);
                            }
                        }
                        let mut m = String::from_str("Removed node ");
                        m.append(n.springname());
                        m.append("\n");
                        proof {
                            assert(nio@.gsn =~= crate::netspace::nodes_without(
                                old(nio)@.gsn,
                                op@->Node_0,
                            ));
                        }
                        Some(m)
                    },
                    Err(_) => Some(
                        String::from_str("Error: unabled to retrieve node (NodeNotFound)\n"),
                    ),
                }
            },
            _ => Some(String::from_str("Error: Unknown or unsupported target filter\n")),
        }
    }

    /// The table of a list of records.
    pub fn tabulate_nodes(nodes: &Vec<Node>) -> (r: String)
        ensures
            r@ == nodes_table(nodes@.map_values(|n: Node| n@)),
    {
        let mut rows: Vec<Vec<String>> = Vec::new();
        rows.push(Self::headings());
        let mut i: usize = 0;
        while i < nodes.len()
            invariant
                0 <= i <= nodes@.len(),
                rows@.len() == i + 1,
                rows@[0]@.map_values(|c: String| c@) == node_table_header(),
                forall|j: int|
                    1 <= j < i + 1 ==> rows@[j]@.map_values(|c: String| c@) == node_row(
                        nodes@[j - 1]@,
                    ),
            decreases nodes@.len() - i,
        {
            rows.push(Self::node_cells(&nodes[i]));
            i = i + 1;
        }
        let r = render_table(&rows);
        proof {
            assert(rows@.map_values(|row: Vec<String>| row@.map_values(|c: String| c@)) =~= seq![
                node_table_header(),
            ] + nodes@.map_values(|n: Node| n@).map_values(|n: NodeView| node_row(n)));
        }
        r
    }

    /// The table of one looked-up record, or the error text.
    pub fn tabulate_node(node_result: Result<Node, NetspaceFailure>) -> (r: String)
        ensures
            match node_result {
                Ok(n) => r@ == nodes_table(seq![n@]),
                Err(_) => r@ == node_error_text(),
            },
    {
        match node_result {
            Ok(n) => {
                let mut rows: Vec<Vec<String>> = Vec::new();
                rows.push(Self::headings());
                rows.push(Self::node_cells(&n));
                let r = render_table(&rows);
                proof {
                    assert(rows@.map_values(|row: Vec<String>| row@.map_values(|c: String| c@))
                        =~= seq![node_table_header()] + seq![n@].map_values(
                        |n: NodeView| node_row(n),
                    ));
                }
                r
            },
            Err(_) => String::from_str("Error requesting node NodeNotFound"),
        }
    }

    fn headings() -> (r: Vec<String>)
        ensures
            r@.map_values(|c: String| c@) == node_table_header(),
    {
        let mut row: Vec<String> = Vec::new();
        row.push(String::from_str("_spring_"));
        row.push(String::from_str("_host_"));
        row.push(String::from_str("_address_"));
        row.push(String::from_str("_role_"));
        row.push(String::from_str("_state_"));
        row.push(String::from_str("_service_"));
        proof {
            assert(row@.map_values(|c: String| c@) =~= node_table_header());
        }
        row
    }

    fn node_cells(n: &Node) -> (r: Vec<String>)
        ensures
            r@.map_values(|c: String| c@) == node_row(n@),
    {
        let mut row: Vec<String> = Vec::new();
        row.push(n.springname().to_owned());
        row.push(n.hostname().to_owned());
        row.push(n.address().to_owned());
        row.push(n.role().as_str().to_owned());
        row.push(n.state().as_str().to_owned());
        row.push(n.service().as_str().to_owned());
        proof {
            assert(row@.map_values(|c: String| c@) =~= node_row(n@));
        }
        row
    }
}

} // verus!
