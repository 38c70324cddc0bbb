//! The command dispatcher: the protocol state machine mapping one inbound
//! message to one outbound reply, given the registry, this node's
//! configuration, the transport-observed source address, and a chain
//! courier. Every mutating command but registration is gated by source
//! validation; registration instead binds the observed address into the
//! record it creates.

use vstd::prelude::*;
use vstd::string::*;

use crate::chain::Chain;
use crate::config::{kv_lookup, Config, ConfigView};
use crate::message::{
    CmdType, ContentNetwork, ContentNodeInfo, ContentNodeProperty, ContentNodePropertyView,
    ContentResponse, ContentResponseView, ContentUri, InfoContent, InfoContentView, Message,
    MessageContent, MessageContentView, MessageView, NodeProperty, NodePropertyView,
    RegistrationView, Response, ResponseContent, ResponseContentView,
};
use crate::netspace::{find_node, NetspaceIo, NetspaceView, Success};
use crate::node::{
    empty_info_view, info_of_node, quad_of_node, Node, NodeInfoFmt, NodeInfoView, NodeQuadView,
    NodeRole, NodeService, NodeState, NodeView,
};
use crate::requests::{aggregate_spec, multi_envelope, multicast_message};
use crate::resolution::{
    resolve_spec, resolve_uri, ResolutionFailure, ResolutionResult, ResolveOutcome,
};
use crate::text::string_eq;
use crate::uri::render_uri_spec;

verus! {

/// Mathematical image of a [`Svr`].
pub ghost struct SvrView {
    pub sock: Seq<char>,
    pub config: ConfigView,
}

/// What one inbound request is served with: the transport-observed source
/// address and this node's configuration.
pub struct Svr {
    pub sock: String,
    pub config: Config,
}

impl View for Svr {
    type V = SvrView;

    open spec fn view(&self) -> SvrView {
        SvrView { sock: self.sock@, config: self.config@ }
    }
}

impl Svr {
    pub fn new(sock: String, config: Config) -> (r: Svr)
        ensures
            r@ == (SvrView { sock: sock@, config: config@ }),
    {
        Svr { sock, config }
    }
}

/// A reply message of the given code and payload.
pub fn response_content(code: Response, content: ResponseContent) -> (r: Message)
    ensures
        r@ == (MessageView {
            cmd: CmdType::Response,
            content: MessageContentView::Response(
                ContentResponseView { code, content: content@ },
            ),
        }),
{
    Message {
        cmd: CmdType::Response,
        content: MessageContent::Response(ContentResponse { code, content }),
    }
}

/// An empty reply message of the given code.
pub fn response(code: Response) -> (r: Message)
    ensures
        r@ == empty_response_view(code),
{
    Message {
        cmd: CmdType::Response,
        content: MessageContent::Response(
            ContentResponse { code, content: ResponseContent::Empty },
        ),
    }
}

pub open spec fn empty_response_view(code: Response) -> MessageView {
    MessageView {
        cmd: CmdType::Response,
        content: MessageContentView::Response(
            ContentResponseView { code, content: ResponseContentView::Empty },
        ),
    }
}

pub open spec fn content_response_view(code: Response, content: ResponseContentView) -> MessageView {
    MessageView {
        cmd: CmdType::Response,
        content: MessageContentView::Response(ContentResponseView { code, content }),
    }
}

/// A message whose content fits its command, as every decoded message's
/// does.
pub open spec fn msg_wf(m: MessageView) -> bool {
    &&& m.cmd == CmdType::Register ==> m.content is Registration
    &&& m.cmd == CmdType::Unregister ==> m.content is NodeSingle
    &&& m.cmd == CmdType::Info ==> m.content is Info
    &&& m.cmd == CmdType::Update ==> m.content is Update
    &&& m.cmd == CmdType::Service ==> m.content is Service
    &&& m.cmd == CmdType::Resolve ==> m.content is Resolve
}

/// Every message the grammar accepts fits its command.
pub proof fn lemma_parsed_msg_wf(s: Seq<char>)
    ensures
        crate::message::parse_message_spec(s) matches Some(m) ==> msg_wf(m),
{
}

/// Outcome of source validation: the claimed springname must be registered
/// and its recorded address must be the transport-observed one.
pub open spec fn source_valid_spec(gsn: Seq<NodeView>, name: Seq<char>, sock: Seq<char>) -> Result<
    Success,
    Response,
> {
    match find_node(gsn, name) {
        None => Err(Response::NetspaceError),
        Some(n) => if n.address == sock {
            Ok(Success::Done)
        } else {
            Err(Response::NetworkError)
        },
    }
}

/// Reply code and resulting local space of a registration: the token must
/// be on record and the springname free; the persisted address is the
/// transport-observed one, whatever the request claimed, and the fresh
/// record always starts `Disabled`.
pub open spec fn register_spec(reg: RegistrationView, sock: Seq<char>, ns: NetspaceView) -> (
    Response,
    Seq<NodeView>,
) {
    if !crate::netspace::token_present(ns.tokens, reg.token) {
        (Response::NetspaceError, ns.gsn)
    } else if find_node(ns.gsn, reg.spring) is Some {
        (Response::NetspaceDuplication, ns.gsn)
    } else {
        (
            Response::Okay,
            ns.gsn.push(
                NodeView {
                    spring: reg.spring,
                    host: reg.host,
                    address: sock,
                    service: reg.service,
                    state: NodeState::Disabled,
                    role: reg.role,
                },
            ),
        )
    }
}

/// A granted registration always persists the transport-observed source
/// address: the record appended to the local space carries `sock`, whatever
/// address the request content may have claimed elsewhere.
pub proof fn lemma_register_binds_source(reg: RegistrationView, sock: Seq<char>, ns: NetspaceView)
    ensures
        register_spec(reg, sock, ns).0 == Response::Okay ==> register_spec(reg, sock, ns).1.last().address
            == sock,
        register_spec(reg, sock, ns).0 != Response::Okay ==> register_spec(reg, sock, ns).1
            == ns.gsn,
{
}

/// Reply code and resulting local space of an unregistration.
pub open spec fn unregister_spec(name: Seq<char>, sock: Seq<char>, ns: NetspaceView) -> (
    Response,
    Seq<NodeView>,
) {
    match source_valid_spec(ns.gsn, name, sock) {
        Err(c) => (c, ns.gsn),
        Ok(_) => (Response::Okay, crate::netspace::nodes_without(ns.gsn, name)),
    }
}

/// Reply code and resulting local space of a state update.
pub open spec fn update_spec(np: ContentNodePropertyView, sock: Seq<char>, ns: NetspaceView) -> (
    Response,
    Seq<NodeView>,
) {
    match find_node(ns.gsn, np.spring) {
        None => (Response::NetspaceError, ns.gsn),
        Some(n) => if n.address != sock {
            (Response::NetworkError, ns.gsn)
        } else {
            match np.property {
                NodePropertyView::State(Some(st)) => (
                    Response::Okay,
                    ns.gsn.map_values(
                        |x: NodeView| if x.spring == np.spring {
                            NodeView { state: st, ..x }
                        } else {
                            x
                        },
                    ),
                ),
                _ => (Response::UnsupportedAction, ns.gsn),
            }
        },
    }
}

/// A mutation claimed from an address other than the recorded one is
/// always refused with `NetworkError` and changes nothing: the source
/// validation gate, shared by unregister and update.
pub proof fn lemma_source_gate(
    name: Seq<char>,
    np: ContentNodePropertyView,
    sock: Seq<char>,
    ns: NetspaceView,
)
    requires
        find_node(ns.gsn, name) matches Some(n) && n.address != sock,
        np.spring == name,
    ensures
        unregister_spec(name, sock, ns) == (Response::NetworkError, ns.gsn),
        update_spec(np, sock, ns) == (Response::NetworkError, ns.gsn),
{
}

/// The property bag answering a node query: only the asked property is
/// filled, the rest stay at their empty defaults; `all` fills everything.
pub open spec fn prop_info_spec(n: NodeView, p: NodePropertyView) -> NodeInfoView {
    match p {
        NodePropertyView::Hostname(_) => NodeInfoView { host: n.host, ..empty_info_view() },
        NodePropertyView::Address(_) => NodeInfoView { address: n.address, ..empty_info_view() },
        NodePropertyView::Service(_) => NodeInfoView { service: n.service, ..empty_info_view() },
        NodePropertyView::State(_) => NodeInfoView { state: n.state, ..empty_info_view() },
        NodePropertyView::Role(_) => NodeInfoView { role: n.role, ..empty_info_view() },
        NodePropertyView::All => info_of_node(n),
    }
}

/// The reply to an `info` command.
pub open spec fn info_spec(ic: InfoContentView, ns: NetspaceView) -> MessageView {
    match ic {
        InfoContentView::Network => content_response_view(
            Response::Okay,
            ResponseContentView::Network(ns.gsn.map_values(|n: NodeView| quad_of_node(n))),
        ),
        InfoContentView::Node(np) => match find_node(ns.gsn, np.spring) {
            None => empty_response_view(Response::NetspaceError),
            Some(n) => content_response_view(
                Response::Okay,
                ResponseContentView::NodeInfo(prop_info_spec(n, np.property)),
            ),
        },
    }
}

/// The reply to a resolution outcome that needs no forwarded hop.
pub open spec fn resolve_reply_spec(o: ResolveOutcome) -> MessageView {
    match o {
        ResolveOutcome::Node(n) => content_response_view(
            Response::Okay,
            ResponseContentView::NodeInfo(info_of_node(n)),
        ),
        ResolveOutcome::Network(q) => content_response_view(
            Response::Okay,
            ResponseContentView::Network(q),
        ),
        ResolveOutcome::Fail(f) => empty_response_view(
            match f {
                ResolutionFailure::InvalidRoute => Response::NetspaceError,
                ResolutionFailure::InvalidUri => Response::MalformedContent,
                ResolutionFailure::UnsupportedAction => Response::UnsupportedAction,
                _ => Response::NetworkError,
            },
        ),
        ResolveOutcome::Chained(_) => empty_response_view(Response::Okay),
    }
}

/// The protocol state machine.
pub struct Protocol;

impl Protocol {
    /// Runs one inbound message through the system and builds the reply.
    pub fn process<C: Chain>(msg: &Message, svr: &Svr, nio: &mut NetspaceIo, chain: &C) -> (r:
        Message)
        requires
            old(nio).wf(),
            msg_wf(msg@),
        ensures
            final(nio).wf(),
            final(nio)@.gtn == old(nio)@.gtn,
            final(nio)@.tokens == old(nio)@.tokens,
            match msg@.cmd {
                CmdType::Register => {
                    let out = register_spec(
                        msg@.content->Registration_0,
                        svr@.sock,
                        old(nio)@,
                    );
                    r@ == empty_response_view(out.0) && final(nio)@.gsn == out.1
                },
                CmdType::Unregister => {
                    let out = unregister_spec(msg@.content->NodeSingle_0, svr@.sock, old(nio)@);
                    r@ == empty_response_view(out.0) && final(nio)@.gsn == out.1
                },
                CmdType::Info => r@ == info_spec(msg@.content->Info_0, old(nio)@) && final(nio)@
                    == old(nio)@,
                CmdType::Update => {
                    let out = update_spec(msg@.content->Update_0, svr@.sock, old(nio)@);
                    r@ == empty_response_view(out.0) && final(nio)@.gsn == out.1
                },
                CmdType::Service => final(nio)@ == old(nio)@ && (exists|body: Seq<char>|
                    r@ == multi_envelope(body)) && (old(nio)@.gsn.len() == 0 ==> r@
                    == multi_envelope(Seq::empty())),
                CmdType::Resolve => {
                    let out = resolve_spec(
                        render_uri_spec(msg@.content->Resolve_0),
                        old(nio)@,
                        kv_lookup(svr@.config.node, "geosub"@),
                    );
                    final(nio)@ == old(nio)@ && (!(out is Chained) ==> r@ == resolve_reply_spec(
                        out,
                    ))
                },
                CmdType::Response => r@ == empty_response_view(Response::MalformedContent)
                    && final(nio)@ == old(nio)@,
            },
    {
        match msg.cmd {
            CmdType::Register => Self::register_action(msg, svr, nio),
            CmdType::Unregister => Self::unregister_action(msg, svr, nio),
            CmdType::Info => Self::info_action(msg, svr, nio),
            CmdType::Update => Self::update_action(msg, svr, nio),
            CmdType::Service => Self::service_action(msg, svr, nio, chain),
            CmdType::Resolve => Self::resolve_action(msg, svr, nio, chain),
            CmdType::Response => response(Response::MalformedContent),
        }
    }

    fn register_action(msg: &Message, svr: &Svr, nio: &mut NetspaceIo) -> (r: Message)
        requires
            old(nio).wf(),
            msg@.content is Registration,
        ensures
            final(nio).wf(),
            final(nio)@.gtn == old(nio)@.gtn,
            final(nio)@.tokens == old(nio)@.tokens,
            r@ == empty_response_view(
                register_spec(msg@.content->Registration_0, svr@.sock, old(nio)@).0,
            ),
            final(nio)@.gsn == register_spec(msg@.content->Registration_0, svr@.sock, old(nio)@).1,
    {
        let reg = match &msg.content {
            MessageContent::Registration(r) => r,
            _ => {
                proof {
                    assert(false);
                }
                return response(Response::MalformedContent);
            },
        };
        let n = Node::new(
            reg.spring.as_str(),
            reg.host.as_str(),
            svr.sock.as_str(),
            reg.service,
            NodeState::Unspecified,
            reg.role,
        );
        if !nio.gsn_check_token(reg.token.as_str()) {
            return response(Response::NetspaceError);
        }
        match nio.gsn_node_register(&n) {
            Ok(_) => response(Response::Okay),
            Err(crate::netspace::NetspaceFailure::DuplicateNode) => response(
                Response::NetspaceDuplication,
            ),
            Err(_) => response(Response::NetspaceError),
        }
    }

    fn unregister_action(msg: &Message, svr: &Svr, nio: &mut NetspaceIo) -> (r: Message)
        requires
            old(nio).wf(),
            msg@.content is NodeSingle,
        ensures
            final(nio).wf(),
            final(nio)@.gtn == old(nio)@.gtn,
            final(nio)@.tokens == old(nio)@.tokens,
            r@ == empty_response_view(
                unregister_spec(msg@.content->NodeSingle_0, svr@.sock, old(nio)@).0,
            ),
            final(nio)@.gsn == unregister_spec(msg@.content->NodeSingle_0, svr@.sock, old(nio)@).1,
    {
        let single = match &msg.content {
            MessageContent::NodeSingle(s) => s,
            _ => {
                proof {
                    assert(false);
                }
                return response(Response::MalformedContent);
            },
        };
        let n = Node::new(
            single.nsingle.as_str(),
            "",
            "",
            NodeService::Undefined,
            NodeState::Unspecified,
            NodeRole::Undefined,
        );
        match Self::source_valid(&n, svr, nio) {
            Ok(_) => {},
            Err(code) => {
                return response(code);
            },
        }
        match nio.gsn_node_unregister(&n) {
            Ok(_) => response(Response::Okay),
            Err(_) => response(Response::NetspaceDuplication),
        }
    }

    fn info_action(msg: &Message, svr: &Svr, nio: &mut NetspaceIo) -> (r: Message)
        requires
            old(nio).wf(),
            msg@.content is Info,
        ensures
            final(nio).wf(),
            final(nio)@ == old(nio)@,
            r@ == info_spec(msg@.content->Info_0, old(nio)@),
    {
        let ic = match &msg.content {
            MessageContent::Info(i) => i,
            _ => {
                proof {
                    assert(false);
                }
                return response(Response::MalformedContent);
            },
        };
        match ic {
            InfoContent::Node(np) => Self::info_action_node_property(np, nio),
            InfoContent::Network => Self::info_action_network(nio),
        }
    }

    fn info_action_node_property(np: &ContentNodeProperty, nio: &NetspaceIo) -> (r: Message)
        ensures
            r@ == info_spec(InfoContentView::Node(np@), nio@),
    {
        let node = match nio.gsn_node_by_springname(np.spring.as_str()) {
            Ok(n) => n,
            Err(_) => {
                return response(Response::NetspaceError);
            },
        };
        let info = Self::node_info_property(&node, &np.property);
        response_content(Response::Okay, ResponseContent::NodeInfo(ContentNodeInfo::new(info)))
    }

    /// The property bag of one node, filled only where asked.
    fn node_info_property(n: &Node, p: &NodeProperty) -> (r: NodeInfoFmt)
        ensures
            r@ == prop_info_spec(n@, p@),
    {
        let mut info = NodeInfoFmt::empty();
        match p {
            NodeProperty::Hostname(_) => {
                info.host = n.hostname().to_owned();
            },
            NodeProperty::Address(_) => {
                info.address = n.address().to_owned();
            },
            NodeProperty::Service(_) => {
                info.service = n.service();
            },
            NodeProperty::State(_) => {
                info.state = n.state();
            },
            NodeProperty::Role(_) => {
                info.role = n.role();
            },
            NodeProperty::All => {
                info = n.to_node_info();
            },
        }
        info
    }

    fn info_action_network(nio: &NetspaceIo) -> (r: Message)
        ensures
            r@ == info_spec(InfoContentView::Network, nio@),
    {
        let nodes = nio.gsn_nodes();
        let v = crate::node::nodevec_quadvec(&nodes);
        proof {
            assert(v@.map_values(|q: crate::node::NodeQuadFmt| q@) =~= nio@.gsn.map_values(
                |n: NodeView| quad_of_node(n),
            ));
        }
        response_content(Response::Okay, ResponseContent::Network(ContentNetwork { network: v }))
    }

    fn update_action(msg: &Message, svr: &Svr, nio: &mut NetspaceIo) -> (r: Message)
        requires
            old(nio).wf(),
            msg@.content is Update,
        ensures
            final(nio).wf(),
            final(nio)@.gtn == old(nio)@.gtn,
            final(nio)@.tokens == old(nio)@.tokens,
            r@ == empty_response_view(
                update_spec(msg@.content->Update_0, svr@.sock, old(nio)@).0,
            ),
            final(nio)@.gsn == update_spec(msg@.content->Update_0, svr@.sock, old(nio)@).1,
    {
        let np = match &msg.content {
            MessageContent::Update(u) => u,
            _ => {
                proof {
                    assert(false);
                }
                return response(Response::MalformedContent);
            },
        };
        proof {
            crate::netspace::lemma_find_node(nio@.gsn, np.spring@);
        }
        let mut n = match nio.gsn_node_by_springname(np.spring.as_str()) {
            Ok(n) => n,
            Err(_) => {
                return response(Response::NetspaceError);
            },
        };
        match Self::source_valid(&n, svr, nio) {
            Ok(_) => {},
            Err(code) => {
                return response(code);
            },
        }
        let state = match &np.property {
            NodeProperty::State(Some(s)) => *s,
            _ => {
                return response(Response::UnsupportedAction);
            },
        };
        n.update_state(state);
        match nio.gsn_node_update_state(&n) {
            Ok(_) => {
                proof {
                    assert(nio@.gsn =~= update_spec(msg@.content->Update_0, svr@.sock, old(nio)@).1);
                }
                response(Response::Okay)
            },
            Err(_) => response(Response::NetspaceError),
        }
    }

    fn service_action<C: Chain>(msg: &Message, svr: &Svr, nio: &mut NetspaceIo, chain: &C) -> (r:
        Message)
        requires
            old(nio).wf(),
            msg@.content is Service,
        ensures
            final(nio).wf(),
            final(nio)@ == old(nio)@,
            exists|body: Seq<char>| r@ == multi_envelope(body),
            old(nio)@.gsn.len() == 0 ==> r@ == multi_envelope(Seq::empty()),
    {
        let curi = match &msg.content {
            MessageContent::Service(u) => u,
            _ => {
                proof {
                    assert(false);
                }
                return response(Response::MalformedContent);
            },
        };
        let nodes = nio.gsn_nodes();
        let mut uri = curi.uri.clone();
        let r = multicast_message(&nodes, &mut uri, chain);
        proof {
            let replies = choose|replies: Seq<MessageView>| r@ == multi_envelope(
                aggregate_spec(replies),
            );
            assert(r@ == multi_envelope(aggregate_spec(replies)));
        }
        r
    }

    fn resolve_action<C: Chain>(msg: &Message, svr: &Svr, nio: &mut NetspaceIo, chain: &C) -> (r:
        Message)
        requires
            old(nio).wf(),
            msg@.content is Resolve,
        ensures
            final(nio).wf(),
            final(nio)@ == old(nio)@,
            ({
                let out = resolve_spec(
                    render_uri_spec(msg@.content->Resolve_0),
                    old(nio)@,
                    kv_lookup(svr@.config.node, "geosub"@),
                );
                !(out is Chained) ==> r@ == resolve_reply_spec(out)
            }),
    {
        let cr = match &msg.content {
            MessageContent::Resolve(u) => u,
            _ => {
                proof {
                    assert(false);
                }
                return response(Response::MalformedContent);
            },
        };
        let uri = cr.uri.clone();
        let suri = uri.to_string();
        match resolve_uri(suri.as_str(), nio, &svr.config, chain) {
            ResolutionResult::Network(net) => response_content(
                Response::Okay,
                ResponseContent::Network(ContentNetwork { network: net }),
            ),
            ResolutionResult::Node(ni) => response_content(
                Response::Okay,
                ResponseContent::NodeInfo(ContentNodeInfo::new(ni.to_node_info())),
            ),
            ResolutionResult::Chain(ch) => {
                match Message::from_bytes(ch.as_slice()) {
                    Ok(m) => m,
                    Err(_) => response(Response::MalformedContent),
                }
            },
            ResolutionResult::Fail(e) => {
                match e {
                    ResolutionFailure::InvalidRoute => response(Response::NetspaceError),
                    ResolutionFailure::InvalidUri => response(Response::MalformedContent),
                    ResolutionFailure::UnsupportedAction => response(Response::UnsupportedAction),
                    _ => response(Response::NetworkError),
                }
            },
        }
    }

    /// The shared source-validation gate.
    fn source_valid(n: &Node, svr: &Svr, nio: &NetspaceIo) -> (r: Result<Success, Response>)
        ensures
            r == source_valid_spec(nio@.gsn, n@.spring, svr@.sock),
    {
        match nio.gsn_node_by_springname(n.springname()) {
            Ok(found) => {
                if string_eq(&svr.sock, found.address()) {
                    Ok(Success::Done)
                } else {
                    Err(Response::NetworkError)
                }
            },
            Err(_) => Err(Response::NetspaceError),
        }
    }
}

} // verus!
