//! The node model: a network participant's identity and status record,
//! its enumerated role, service and state, and the textual node formats.

use vstd::prelude::*;
use vstd::string::*;

use crate::text::{find_spec, split_spec, split_str, str_eq, string_eq};

verus! {

/// Eligibility of a node to act as an authority: `Hub` and `Hybrid` may,
/// `Org` is a leaf. `Hybrid` counts both as a hub and as an org when the
/// space is filtered by role.
#[derive(Clone, Copy, PartialEq, Eq, Structural, Debug)]
pub enum NodeRole {
    Undefined,
    Org,
    Hub,
    Hybrid,
}

/// Which wire protocol to use when contacting a node.
#[derive(Clone, Copy, PartialEq, Eq, Structural, Debug)]
pub enum NodeService {
    Undefined,
    Dvsp,
    Http,
}

/// Operational status of a node.
#[derive(Clone, Copy, PartialEq, Eq, Structural, Debug)]
pub enum NodeState {
    Unspecified,
    Enabled,
    Disabled,
    Unresponsive,
}

/// Failure of parsing a textual format.
#[derive(Clone, Copy, PartialEq, Eq, Structural, Debug)]
pub enum ParseFailure {
    Malformed,
    InvalidNaming,
}

pub open spec fn role_str_spec(r: NodeRole) -> Seq<char> {
    match r {
        NodeRole::Undefined => "undefined"@,
        NodeRole::Org => "org"@,
        NodeRole::Hub => "hub"@,
        NodeRole::Hybrid => "hybrid"@,
    }
}

pub open spec fn role_from_str_spec(s: Seq<char>) -> Option<NodeRole> {
    if s == "undefined"@ {
        Some(NodeRole::Undefined)
    } else if s == "org"@ {
        Some(NodeRole::Org)
    } else if s == "hub"@ {
        Some(NodeRole::Hub)
    } else if s == "hybrid"@ {
        Some(NodeRole::Hybrid)
    } else {
        None
    }
}

pub open spec fn service_str_spec(s: NodeService) -> Seq<char> {
    match s {
        NodeService::Undefined => "undefined"@,
        NodeService::Dvsp => "dvsp"@,
        NodeService::Http => "http"@,
    }
}

pub open spec fn service_from_str_spec(s: Seq<char>) -> Option<NodeService> {
    if s == "undefined"@ {
        Some(NodeService::Undefined)
    } else if s == "dvsp"@ {
        Some(NodeService::Dvsp)
    } else if s == "http"@ {
        Some(NodeService::Http)
    } else {
        None
    }
}

pub open spec fn state_str_spec(s: NodeState) -> Seq<char> {
    match s {
        NodeState::Unspecified => "unspecified"@,
        NodeState::Enabled => "enabled"@,
        NodeState::Disabled => "disabled"@,
        NodeState::Unresponsive => "unresponsive"@,
    }
}

pub open spec fn state_from_str_spec(s: Seq<char>) -> Option<NodeState> {
    if s == "unspecified"@ {
        Some(NodeState::Unspecified)
    } else if s == "enabled"@ {
        Some(NodeState::Enabled)
    } else if s == "disabled"@ {
        Some(NodeState::Disabled)
    } else if s == "unresponsive"@ {
        Some(NodeState::Unresponsive)
    } else {
        None
    }
}

impl NodeRole {
    pub fn from_str(s: &str) -> (r: Option<NodeRole>)
        ensures
            r == role_from_str_spec(s@),
    {
        if str_eq(s, "undefined") {
            Some(NodeRole::Undefined)
        } else if str_eq(s, "org") {
            Some(NodeRole::Org)
        } else if str_eq(s, "hub") {
            Some(NodeRole::Hub)
        } else if str_eq(s, "hybrid") {
            Some(NodeRole::Hybrid)
        } else {
            None
        }
    }

    /// The role's name, as the wire format and the console print it.
    pub fn as_str(&self) -> (r: &'static str)
        ensures
            r@ == role_str_spec(*self),
    {
        match self {
            NodeRole::Undefined => "undefined",
            NodeRole::Org => "org",
            NodeRole::Hub => "hub",
            NodeRole::Hybrid => "hybrid",
        }
    }
}

impl NodeService {
    pub fn from_str(s: &str) -> (r: Option<NodeService>)
        ensures
            r == service_from_str_spec(s@),
    {
        if str_eq(s, "undefined") {
            Some(NodeService::Undefined)
        } else if str_eq(s, "dvsp") {
            Some(NodeService::Dvsp)
        } else if str_eq(s, "http") {
            Some(NodeService::Http)
        } else {
            None
        }
    }

    pub fn as_str(&self) -> (r: &'static str)
        ensures
            r@ == service_str_spec(*self),
    {
        match self {
            NodeService::Undefined => "undefined",
            NodeService::Dvsp => "dvsp",
            NodeService::Http => "http",
        }
    }
}

impl NodeState {
    pub fn from_str(s: &str) -> (r: Option<NodeState>)
        ensures
            r == state_from_str_spec(s@),
    {
        if str_eq(s, "unspecified") {
            Some(NodeState::Unspecified)
        } else if str_eq(s, "enabled") {
            Some(NodeState::Enabled)
        } else if str_eq(s, "disabled") {
            Some(NodeState::Disabled)
        } else if str_eq(s, "unresponsive") {
            Some(NodeState::Unresponsive)
        } else {
            None
        }
    }

    pub fn as_str(&self) -> (r: &'static str)
        ensures
            r@ == state_str_spec(*self),
    {
        match self {
            NodeState::Unspecified => "unspecified",
            NodeState::Enabled => "enabled",
            NodeState::Disabled => "disabled",
            NodeState::Unresponsive => "unresponsive",
        }
    }
}

/// Mathematical image of a [`Node`].
pub ghost struct NodeView {
    pub spring: Seq<char>,
    pub host: Seq<char>,
    pub address: Seq<char>,
    pub service: NodeService,
    pub state: NodeState,
    pub role: NodeRole,
}

/// A network participant: identity, location, role, service and state.
#[derive(Debug)]
pub struct Node {
    springname: String,
    hostname: String,
    address: String,
    service: NodeService,
    state: NodeState,
    role: NodeRole,
}

impl View for Node {
    type V = NodeView;

    closed spec fn view(&self) -> NodeView {
        NodeView {
            spring: self.springname@,
            host: self.hostname@,
            address: self.address@,
            service: self.service,
            state: self.state,
            role: self.role,
        }
    }
}

impl Clone for Node {
    fn clone(&self) -> (r: Node)
        ensures
            r@ == self@,
    {
        Node {
            springname: self.springname.clone(),
            hostname: self.hostname.clone(),
            address: self.address.clone(),
            service: self.service,
            state: self.state,
            role: self.role,
        }
    }
}

impl Node {
    pub fn new(
        spring: &str,
        host: &str,
        address: &str,
        service: NodeService,
        state: NodeState,
        role: NodeRole,
    ) -> (r: Node)
        ensures
            r@ == (NodeView {
                spring: spring@,
                host: host@,
                address: address@,
                service,
                state,
                role,
            }),
    {
        Node {
            springname: spring.to_owned(),
            hostname: host.to_owned(),
            address: address.to_owned(),
            service,
            state,
            role,
        }
    }

    pub fn springname(&self) -> (r: &str)
        ensures
            r@ == self@.spring,
    {
        self.springname.as_str()
    }

    pub fn hostname(&self) -> (r: &str)
        ensures
            r@ == self@.host,
    {
        self.hostname.as_str()
    }

    pub fn address(&self) -> (r: &str)
        ensures
            r@ == self@.address,
    {
        self.address.as_str()
    }

    pub fn service(&self) -> (r: NodeService)
        ensures
            r == self@.service,
    {
        self.service
    }

    pub fn state(&self) -> (r: NodeState)
        ensures
            r == self@.state,
    {
        self.state
    }

    pub fn role(&self) -> (r: NodeRole)
        ensures
            r == self@.role,
    {
        self.role
    }

    pub fn update_state(&mut self, state: NodeState)
        ensures
            final(self)@ == (NodeView { state, ..old(self)@ }),
    {
        self.state = state;
    }

    pub fn update_role(&mut self, role: NodeRole)
        ensures
            final(self)@ == (NodeView { role, ..old(self)@ }),
    {
        self.role = role;
    }

    pub fn update_service(&mut self, service: NodeService)
        ensures
            final(self)@ == (NodeView { service, ..old(self)@ }),
    {
        self.service = service;
    }

    pub fn update_hostname(&mut self, host: &str)
        ensures
            final(self)@ == (NodeView { host: host@, ..old(self)@ }),
    {
        self.hostname = host.to_owned();
    }

    pub fn update_address(&mut self, address: &str)
        ensures
            final(self)@ == (NodeView { address: address@, ..old(self)@ }),
    {
        self.address = address.to_owned();
    }

    /// Parses the textual node record: either `key:value` pairs separated by
    /// commas, or the positional `spring[,host[,address]]` form.
    pub fn from_str(s: &str) -> (r: Result<Node, ParseFailure>)
        ensures
            match r {
                Ok(n) => node_from_str_spec(s@) == Some(n@),
                Err(_) => node_from_str_spec(s@) is None,
            },
    {
        proof {
            crate::text::lemma_find_spec(s@, ':');
        }
        let has_colon = crate::text::find_char(s, ':').is_some();
        let parts = split_str(s, ',');
        let mut node = Node::new("", "", "", NodeService::Undefined, NodeState::Unspecified,
            NodeRole::Undefined);
        proof {
            reveal_strlit("");
            assert(""@ =~= Seq::<char>::empty());
            assert(node@ == empty_node_view());
        }
        if has_colon {
            let mut i: usize = 0;
            while i < parts.len()
                invariant
                    0 <= i <= parts@.len(),
                    find_spec(s@, ':') >= 0,
                    parts@.map_values(|t: String| t@) == split_spec(s@, ','),
                    apply_kvs_spec(empty_node_view(), parts@.map_values(|t: String| t@))
                        == apply_kvs_from(node@, parts@.map_values(|t: String| t@), i as int),
                decreases parts@.len() - i,
            {
                let ghost pre = node@;
                let ghost kvs = parts@.map_values(|t: String| t@);
                let ok = apply_kv(&mut node, &parts[i]);
                if !ok {
                    return Err(ParseFailure::Malformed);
                }
                i = i + 1;
                proof {
                    assert(apply_kvs_from(pre, kvs, i - 1) == apply_kvs_from(node@, kvs, i as int));
                }
            }
            if node.springname.unicode_len() == 0 {
                return Err(ParseFailure::InvalidNaming);
            }
            Ok(node)
        } else {
            if parts.len() > 3 {
                return Err(ParseFailure::Malformed);
            }
            let spring = &parts[0];
            if spring.unicode_len() == 0 {
                return Err(ParseFailure::InvalidNaming);
            }
            node.springname = spring.clone();
            if parts.len() >= 2 {
                node.hostname = parts[1].clone();
            }
            if parts.len() >= 3 {
                node.address = parts[2].clone();
            }
            Ok(node)
        }
    }

    /// The `spring,host` double format.
    pub fn to_node_double(&self) -> (r: String)
        ensures
            r@ == self@.spring + ","@ + self@.host,
    {
        let mut r = self.springname.clone();
        r.append(",");
        r.append(self.hostname.as_str());
        r
    }

    /// The compact quad format record of the node.
    pub fn to_node_quad(&self) -> (r: NodeQuadFmt)
        ensures
            r@ == quad_of_node(self@),
    {
        NodeQuadFmt {
            spring: self.springname.clone(),
            host: self.hostname.clone(),
            address: self.address.clone(),
            service: self.service,
        }
    }

    /// The full property bag of the node.
    pub fn to_node_info(&self) -> (r: NodeInfoFmt)
        ensures
            r@ == info_of_node(self@),
    {
        NodeInfoFmt {
            spring: self.springname.clone(),
            host: self.hostname.clone(),
            address: self.address.clone(),
            service: self.service,
            state: self.state,
            role: self.role,
        }
    }
}

pub open spec fn empty_node_view() -> NodeView {
    NodeView {
        spring: Seq::empty(),
        host: Seq::empty(),
        address: Seq::empty(),
        service: NodeService::Undefined,
        state: NodeState::Unspecified,
        role: NodeRole::Undefined,
    }
}

/// One `key:value` pair applied to a node record under construction.
pub open spec fn apply_kv_spec(nv: NodeView, part: Seq<char>) -> Option<NodeView> {
    let i = find_spec(part, ':');
    if i < 0 {
        None
    } else {
        let key = part.take(i);
        let val = part.skip(i + 1);
        if key == "spring"@ {
            Some(NodeView { spring: val, ..nv })
        } else if key == "host"@ {
            Some(NodeView { host: val, ..nv })
        } else if key == "address"@ {
            Some(NodeView { address: val, ..nv })
        } else if key == "service"@ {
            match service_from_str_spec(val) {
                Some(sv) => Some(NodeView { service: sv, ..nv }),
                None => None,
            }
        } else if key == "state"@ {
            match state_from_str_spec(val) {
                Some(st) => Some(NodeView { state: st, ..nv }),
                None => None,
            }
        } else if key == "role"@ {
            match role_from_str_spec(val) {
                Some(rl) => Some(NodeView { role: rl, ..nv }),
                None => None,
            }
        } else {
            None
        }
    }
}

pub open spec fn apply_kvs_from(nv: NodeView, parts: Seq<Seq<char>>, i: int) -> Option<NodeView>
    decreases parts.len() - i,
{
    if i < 0 || i >= parts.len() {
        Some(nv)
    } else {
        match apply_kv_spec(nv, parts[i]) {
            Some(nv2) => apply_kvs_from(nv2, parts, i + 1),
            None => None,
        }
    }
}

pub open spec fn apply_kvs_spec(nv: NodeView, parts: Seq<Seq<char>>) -> Option<NodeView> {
    apply_kvs_from(nv, parts, 0)
}

/// What `Node::from_str` accepts and builds.
pub open spec fn node_from_str_spec(s: Seq<char>) -> Option<NodeView> {
    let parts = split_spec(s, ',');
    if find_spec(s, ':') >= 0 {
        match apply_kvs_spec(empty_node_view(), parts) {
            Some(nv) => if nv.spring.len() == 0 {
                None
            } else {
                Some(nv)
            },
            None => None,
        }
    } else {
        if parts.len() > 3 || parts[0].len() == 0 {
            None
        } else {
            Some(NodeView {
                spring: parts[0],
                host: if parts.len() >= 2 {
                    parts[1]
                } else {
                    Seq::empty()
                },
                address: if parts.len() >= 3 {
                    parts[2]
                } else {
                    Seq::empty()
                },
                ..empty_node_view()
            })
        }
    }
}

fn apply_kv(node: &mut Node, part: &String) -> (ok: bool)
    ensures
        match apply_kv_spec(old(node)@, part@) {
            Some(nv) => ok && final(node)@ == nv,
            None => !ok && final(node)@ == old(node)@,
        },
{
    proof {
        crate::text::lemma_find_spec(part@, ':');
    }
    let i = match crate::text::find_char(part.as_str(), ':') {
        None => {
            return false;
        },
        Some(i) => i,
    };
    let n = part.as_str().unicode_len();
    let key = part.as_str().substring_char(0, i);
    let val = part.as_str().substring_char(i + 1, n);
    proof {
        assert(key@ =~= part@.take(i as int));
        assert(val@ =~= part@.skip(i + 1));
    }
    if str_eq(key, "spring") {
        node.springname = val.to_owned();
        true
    } else if str_eq(key, "host") {
        node.hostname = val.to_owned();
        true
    } else if str_eq(key, "address") {
        node.address = val.to_owned();
        true
    } else if str_eq(key, "service") {
        match NodeService::from_str(val) {
            Some(sv) => {
                node.service = sv;
                true
            },
            None => false,
        }
    } else if str_eq(key, "state") {
        match NodeState::from_str(val) {
            Some(st) => {
                node.state = st;
                true
            },
            None => false,
        }
    } else if str_eq(key, "role") {
        match NodeRole::from_str(val) {
            Some(rl) => {
                node.role = rl;
                true
            },
            None => false,
        }
    } else {
        false
    }
}

/// Mathematical image of a [`NodeQuadFmt`].
pub ghost struct NodeQuadView {
    pub spring: Seq<char>,
    pub host: Seq<char>,
    pub address: Seq<char>,
    pub service: NodeService,
}

/// The compact record used in network listings: name, host, address and the
/// service needed to contact the node.
pub struct NodeQuadFmt {
    pub spring: String,
    pub host: String,
    pub address: String,
    pub service: NodeService,
}

impl View for NodeQuadFmt {
    type V = NodeQuadView;

    open spec fn view(&self) -> NodeQuadView {
        NodeQuadView {
            spring: self.spring@,
            host: self.host@,
            address: self.address@,
            service: self.service,
        }
    }
}

impl Clone for NodeQuadFmt {
    fn clone(&self) -> (r: NodeQuadFmt)
        ensures
            r@ == self@,
    {
        NodeQuadFmt {
            spring: self.spring.clone(),
            host: self.host.clone(),
            address: self.address.clone(),
            service: self.service,
        }
    }
}

pub open spec fn quad_of_node(n: NodeView) -> NodeQuadView {
    NodeQuadView { spring: n.spring, host: n.host, address: n.address, service: n.service }
}

/// The compact quads of a list of nodes, in order.
pub fn nodevec_quadvec(nodes: &Vec<Node>) -> (r: Vec<NodeQuadFmt>)
    ensures
        r@.map_values(|q: NodeQuadFmt| q@) == nodes@.map_values(|n: Node| quad_of_node(n@)),
{
    let mut r: Vec<NodeQuadFmt> = Vec::new();
    let mut i: usize = 0;
    while i < nodes.len()
        invariant
            0 <= i <= nodes@.len(),
            r@.len() == i,
            forall|j: int| 0 <= j < i ==> r@[j]@ == quad_of_node(nodes@[j]@),
        decreases nodes@.len() - i,
    {
        r.push(nodes[i].to_node_quad());
        i = i + 1;
    }
    proof {
        assert(r@.map_values(|q: NodeQuadFmt| q@) =~= nodes@.map_values(|n: Node| quad_of_node(n@)));
    }
    r
}

/// Mathematical image of a [`NodeInfoFmt`].
pub ghost struct NodeInfoView {
    pub spring: Seq<char>,
    pub host: Seq<char>,
    pub address: Seq<char>,
    pub service: NodeService,
    pub state: NodeState,
    pub role: NodeRole,
}

/// A property bag answering a node query: the asked properties are filled,
/// the rest stay at their empty or unspecified defaults.
pub struct NodeInfoFmt {
    pub spring: String,
    pub host: String,
    pub address: String,
    pub service: NodeService,
    pub state: NodeState,
    pub role: NodeRole,
}

impl View for NodeInfoFmt {
    type V = NodeInfoView;

    open spec fn view(&self) -> NodeInfoView {
        NodeInfoView {
            spring: self.spring@,
            host: self.host@,
            address: self.address@,
            service: self.service,
            state: self.state,
            role: self.role,
        }
    }
}

impl Clone for NodeInfoFmt {
    fn clone(&self) -> (r: NodeInfoFmt)
        ensures
            r@ == self@,
    {
        NodeInfoFmt {
            spring: self.spring.clone(),
            host: self.host.clone(),
            address: self.address.clone(),
            service: self.service,
            state: self.state,
            role: self.role,
        }
    }
}

pub open spec fn empty_info_view() -> NodeInfoView {
    NodeInfoView {
        spring: Seq::empty(),
        host: Seq::empty(),
        address: Seq::empty(),
        service: NodeService::Undefined,
        state: NodeState::Unspecified,
        role: NodeRole::Undefined,
    }
}

pub open spec fn info_of_node(n: NodeView) -> NodeInfoView {
    NodeInfoView {
        spring: n.spring,
        host: n.host,
        address: n.address,
        service: n.service,
        state: n.state,
        role: n.role,
    }
}

impl NodeInfoFmt {
    pub fn empty() -> (r: NodeInfoFmt)
        ensures
            r@ == empty_info_view(),
    {
        NodeInfoFmt {
            spring: String::new(),
            host: String::new(),
            address: String::new(),
            service: NodeService::Undefined,
            state: NodeState::Unspecified,
            role: NodeRole::Undefined,
        }
    }
}

} // verus!
