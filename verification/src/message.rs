//! The wire-message envelope: a space-delimited textual command grammar.
//! Commands carry their content inline (`register a,b;role;service;token`,
//! `info node a hostname`, `resolve spring://...`); replies are numeric
//! codes followed by a typed payload tag.

use vstd::prelude::*;
use vstd::string::*;
use vstd::utf8::{decode_utf8, valid_utf8};

use crate::node::{
    service_from_str_spec, service_str_spec, state_from_str_spec, state_str_spec,
    role_from_str_spec, role_str_spec, NodeInfoFmt, NodeInfoView, NodeQuadFmt, NodeQuadView,
    NodeRole, NodeService, NodeState, ParseFailure,
};
use crate::text::{
    all_digits, dec_of, dec_val, find_char, find_spec, join_spec, join_str, parse_dec, split_spec,
    split_str, str_eq, u64_to_dec,
};
use crate::uri::{parse_uri_spec, render_uri_spec, Uri, UriView};

verus! {

/// The command of a wire message.
#[derive(Clone, Copy, PartialEq, Eq, Structural, Debug)]
pub enum CmdType {
    Register,
    Unregister,
    Info,
    Update,
    Service,
    Resolve,
    Response,
}

/// The numeric reply codes.
#[derive(Clone, Copy, PartialEq, Eq, Structural, Debug)]
pub enum Response {
    Okay,
    NetserviceError,
    NetspaceError,
    NetworkError,
    MalformedContent,
    NetspaceDuplication,
    UnsupportedAction,
    UnsupportedService,
}

pub open spec fn code_str_spec(c: Response) -> Seq<char> {
    match c {
        Response::Okay => "200"@,
        Response::NetserviceError => "101"@,
        Response::NetspaceError => "102"@,
        Response::NetworkError => "103"@,
        Response::MalformedContent => "104"@,
        Response::NetspaceDuplication => "105"@,
        Response::UnsupportedAction => "106"@,
        Response::UnsupportedService => "107"@,
    }
}

pub open spec fn code_from_str_spec(s: Seq<char>) -> Option<Response> {
    if s == "200"@ {
        Some(Response::Okay)
    } else if s == "101"@ {
        Some(Response::NetserviceError)
    } else if s == "102"@ {
        Some(Response::NetspaceError)
    } else if s == "103"@ {
        Some(Response::NetworkError)
    } else if s == "104"@ {
        Some(Response::MalformedContent)
    } else if s == "105"@ {
        Some(Response::NetspaceDuplication)
    } else if s == "106"@ {
        Some(Response::UnsupportedAction)
    } else if s == "107"@ {
        Some(Response::UnsupportedService)
    } else {
        None
    }
}

impl Response {
    pub fn code_str(&self) -> (r: &'static str)
        ensures
            r@ == code_str_spec(*self),
    {
        match self {
            Response::Okay => "200",
            Response::NetserviceError => "101",
            Response::NetspaceError => "102",
            Response::NetworkError => "103",
            Response::MalformedContent => "104",
            Response::NetspaceDuplication => "105",
            Response::UnsupportedAction => "106",
            Response::UnsupportedService => "107",
        }
    }

    pub fn from_code_str(s: &str) -> (r: Option<Response>)
        ensures
            r == code_from_str_spec(s@),
    {
        if str_eq(s, "200") {
            Some(Response::Okay)
        } else if str_eq(s, "101") {
            Some(Response::NetserviceError)
        } else if str_eq(s, "102") {
            Some(Response::NetspaceError)
        } else if str_eq(s, "103") {
            Some(Response::NetworkError)
        } else if str_eq(s, "104") {
            Some(Response::MalformedContent)
        } else if str_eq(s, "105") {
            Some(Response::NetspaceDuplication)
        } else if str_eq(s, "106") {
            Some(Response::UnsupportedAction)
        } else if str_eq(s, "107") {
            Some(Response::UnsupportedService)
        } else {
            None
        }
    }
}

/// Mathematical image of a [`ContentRegistration`].
pub ghost struct RegistrationView {
    pub spring: Seq<char>,
    pub host: Seq<char>,
    pub role: NodeRole,
    pub service: NodeService,
    pub token: Seq<char>,
}

/// Content of a `register` command: the claimed identity, the wanted role
/// and service, and the presented token. The address is never part of it.
pub struct ContentRegistration {
    pub spring: String,
    pub host: String,
    pub role: NodeRole,
    pub service: NodeService,
    pub token: String,
}

impl View for ContentRegistration {
    type V = RegistrationView;

    open spec fn view(&self) -> RegistrationView {
        RegistrationView {
            spring: self.spring@,
            host: self.host@,
            role: self.role,
            service: self.service,
            token: self.token@,
        }
    }
}

/// Content of an `unregister` command: the claimed springname.
pub struct ContentNodeSingle {
    pub nsingle: String,
}

impl View for ContentNodeSingle {
    type V = Seq<char>;

    open spec fn view(&self) -> Seq<char> {
        self.nsingle@
    }
}

/// Mathematical image of a [`NodeProperty`].
pub ghost enum NodePropertyView {
    Hostname(Option<Seq<char>>),
    Address(Option<Seq<char>>),
    Service(Option<NodeService>),
    State(Option<NodeState>),
    Role(Option<NodeRole>),
    All,
}

/// One property of a node, optionally with a value to set.
pub enum NodeProperty {
    Hostname(Option<String>),
    Address(Option<String>),
    Service(Option<NodeService>),
    State(Option<NodeState>),
    Role(Option<NodeRole>),
    All,
}

impl View for NodeProperty {
    type V = NodePropertyView;

    open spec fn view(&self) -> NodePropertyView {
        match self {
            NodeProperty::Hostname(v) => NodePropertyView::Hostname(
                match v {
                    Some(s) => Some(s@),
                    None => None,
                },
            ),
            NodeProperty::Address(v) => NodePropertyView::Address(
                match v {
                    Some(s) => Some(s@),
                    None => None,
                },
            ),
            NodeProperty::Service(v) => NodePropertyView::Service(*v),
            NodeProperty::State(v) => NodePropertyView::State(*v),
            NodeProperty::Role(v) => NodePropertyView::Role(*v),
            NodeProperty::All => NodePropertyView::All,
        }
    }
}

/// Mathematical image of a [`ContentNodeProperty`].
pub ghost struct ContentNodePropertyView {
    pub spring: Seq<char>,
    pub property: NodePropertyView,
}

/// A springname together with one of its properties.
pub struct ContentNodeProperty {
    pub spring: String,
    pub property: NodeProperty,
}

impl View for ContentNodeProperty {
    type V = ContentNodePropertyView;

    open spec fn view(&self) -> ContentNodePropertyView {
        ContentNodePropertyView { spring: self.spring@, property: self.property@ }
    }
}

/// Mathematical image of an [`InfoContent`].
pub ghost enum InfoContentView {
    Node(ContentNodePropertyView),
    Network,
}

/// Content of an `info` command: one node's property, or the whole space.
pub enum InfoContent {
    Node(ContentNodeProperty),
    Network,
}

impl View for InfoContent {
    type V = InfoContentView;

    open spec fn view(&self) -> InfoContentView {
        match self {
            InfoContent::Node(np) => InfoContentView::Node(np@),
            InfoContent::Network => InfoContentView::Network,
        }
    }
}

/// Content carrying a hierarchical address.
pub struct ContentUri {
    pub uri: Uri,
}

impl View for ContentUri {
    type V = UriView;

    open spec fn view(&self) -> UriView {
        self.uri@
    }
}

/// Reply payload carrying one node's property bag.
pub struct ContentNodeInfo {
    pub info: NodeInfoFmt,
}

impl ContentNodeInfo {
    pub fn new(info: NodeInfoFmt) -> (r: ContentNodeInfo)
        ensures
            r@ == info@,
    {
        ContentNodeInfo { info }
    }
}

impl View for ContentNodeInfo {
    type V = NodeInfoView;

    open spec fn view(&self) -> NodeInfoView {
        self.info@
    }
}

/// Reply payload carrying a network listing.
pub struct ContentNetwork {
    pub network: Vec<NodeQuadFmt>,
}

impl View for ContentNetwork {
    type V = Seq<NodeQuadView>;

    open spec fn view(&self) -> Seq<NodeQuadView> {
        self.network@.map_values(|q: NodeQuadFmt| q@)
    }
}

/// Reply payload carrying service-layer text.
pub struct ContentServiceText {
    pub content: String,
}

impl View for ContentServiceText {
    type V = Seq<char>;

    open spec fn view(&self) -> Seq<char> {
        self.content@
    }
}

/// Mathematical image of a [`ResponseContent`].
pub ghost enum ResponseContentView {
    Empty,
    NodeInfo(NodeInfoView),
    Network(Seq<NodeQuadView>),
    ServiceText(Seq<char>),
    ServiceMulti(Seq<char>),
}

/// The typed payload of a reply.
pub enum ResponseContent {
    Empty,
    NodeInfo(ContentNodeInfo),
    Network(ContentNetwork),
    ServiceText(ContentServiceText),
    ServiceMulti(ContentServiceText),
}

impl View for ResponseContent {
    type V = ResponseContentView;

    open spec fn view(&self) -> ResponseContentView {
        match self {
            ResponseContent::Empty => ResponseContentView::Empty,
            ResponseContent::NodeInfo(i) => ResponseContentView::NodeInfo(i@),
            ResponseContent::Network(n) => ResponseContentView::Network(n@),
            ResponseContent::ServiceText(t) => ResponseContentView::ServiceText(t@),
            ResponseContent::ServiceMulti(t) => ResponseContentView::ServiceMulti(t@),
        }
    }
}

/// Mathematical image of a [`ContentResponse`].
pub ghost struct ContentResponseView {
    pub code: Response,
    pub content: ResponseContentView,
}

/// A numeric reply code with its typed payload.
pub struct ContentResponse {
    pub code: Response,
    pub content: ResponseContent,
}

impl View for ContentResponse {
    type V = ContentResponseView;

    open spec fn view(&self) -> ContentResponseView {
        ContentResponseView { code: self.code, content: self.content@ }
    }
}

/// Mathematical image of a [`MessageContent`].
pub ghost enum MessageContentView {
    Empty,
    Registration(RegistrationView),
    NodeSingle(Seq<char>),
    Info(InfoContentView),
    Update(ContentNodePropertyView),
    Service(UriView),
    Resolve(UriView),
    Response(ContentResponseView),
}

/// The command-specific content of a message.
pub enum MessageContent {
    Empty,
    Registration(ContentRegistration),
    NodeSingle(ContentNodeSingle),
    Info(InfoContent),
    Update(ContentNodeProperty),
    Service(ContentUri),
    Resolve(ContentUri),
    Response(ContentResponse),
}

impl View for MessageContent {
    type V = MessageContentView;

    open spec fn view(&self) -> MessageContentView {
        match self {
            MessageContent::Empty => MessageContentView::Empty,
            MessageContent::Registration(r) => MessageContentView::Registration(r@),
            MessageContent::NodeSingle(s) => MessageContentView::NodeSingle(s@),
            MessageContent::Info(i) => MessageContentView::Info(i@),
            MessageContent::Update(u) => MessageContentView::Update(u@),
            MessageContent::Service(u) => MessageContentView::Service(u@),
            MessageContent::Resolve(u) => MessageContentView::Resolve(u@),
            MessageContent::Response(r) => MessageContentView::Response(r@),
        }
    }
}

/// Mathematical image of a [`Message`].
pub ghost struct MessageView {
    pub cmd: CmdType,
    pub content: MessageContentView,
}

/// One decoded wire message: a command and its content.
pub struct Message {
    pub cmd: CmdType,
    pub content: MessageContent,
}

impl View for Message {
    type V = MessageView;

    open spec fn view(&self) -> MessageView {
        MessageView { cmd: self.cmd, content: self.content@ }
    }
}

/// A property word of an `info node` query.
pub open spec fn prop_of_word(w: Seq<char>) -> Option<NodePropertyView> {
    if w == "hostname"@ {
        Some(NodePropertyView::Hostname(None))
    } else if w == "address"@ {
        Some(NodePropertyView::Address(None))
    } else if w == "service"@ {
        Some(NodePropertyView::Service(None))
    } else if w == "state"@ {
        Some(NodePropertyView::State(None))
    } else if w == "role"@ {
        Some(NodePropertyView::Role(None))
    } else if w == "all"@ {
        Some(NodePropertyView::All)
    } else {
        None
    }
}

/// A property word with its value, as an `update` command carries them.
pub open spec fn prop_of_word_value(w: Seq<char>, v: Seq<char>) -> Option<NodePropertyView> {
    if w == "state"@ {
        match state_from_str_spec(v) {
            Some(st) => Some(NodePropertyView::State(Some(st))),
            None => None,
        }
    } else if w == "role"@ {
        match role_from_str_spec(v) {
            Some(rl) => Some(NodePropertyView::Role(Some(rl))),
            None => None,
        }
    } else if w == "service"@ {
        match service_from_str_spec(v) {
            Some(sv) => Some(NodePropertyView::Service(Some(sv))),
            None => None,
        }
    } else if w == "hostname"@ {
        if v.len() > 0 {
            Some(NodePropertyView::Hostname(Some(v)))
        } else {
            None
        }
    } else if w == "address"@ {
        if v.len() > 0 {
            Some(NodePropertyView::Address(Some(v)))
        } else {
            None
        }
    } else {
        None
    }
}

/// A bare name: non-empty, without spaces.
pub open spec fn plain_name(s: Seq<char>) -> bool {
    s.len() > 0 && find_spec(s, ' ') < 0
}

/// What the content of a `register` command parses to.
pub open spec fn parse_registration_spec(rest: Seq<char>) -> Option<RegistrationView> {
    let parts = split_spec(rest, ';');
    if parts.len() != 4 {
        None
    } else {
        let double = split_spec(parts[0], ',');
        if double.len() != 2 || double[0].len() == 0 || parts[3].len() == 0 {
            None
        } else {
            match (role_from_str_spec(parts[1]), service_from_str_spec(parts[2])) {
                (Some(role), Some(service)) => Some(
                    RegistrationView {
                        spring: double[0],
                        host: double[1],
                        role,
                        service,
                        token: parts[3],
                    },
                ),
                _ => None,
            }
        }
    }
}

/// What the content of an `info` command parses to.
pub open spec fn parse_info_spec(rest: Seq<char>) -> Option<InfoContentView> {
    if rest == "network"@ {
        Some(InfoContentView::Network)
    } else {
        let parts = split_spec(rest, ' ');
        if parts.len() != 3 || parts[0] != "node"@ || parts[1].len() == 0 {
            None
        } else {
            match prop_of_word(parts[2]) {
                Some(p) => Some(
                    InfoContentView::Node(
                        ContentNodePropertyView { spring: parts[1], property: p },
                    ),
                ),
                None => None,
            }
        }
    }
}

/// What the content of an `update` command parses to.
pub open spec fn parse_update_spec(rest: Seq<char>) -> Option<ContentNodePropertyView> {
    let parts = split_spec(rest, ' ');
    if parts.len() != 3 || parts[0].len() == 0 {
        None
    } else {
        match prop_of_word_value(parts[1], parts[2]) {
            Some(p) => Some(ContentNodePropertyView { spring: parts[0], property: p }),
            None => None,
        }
    }
}

/// What one quad of a network payload parses to.
pub open spec fn parse_quad_spec(q: Seq<char>) -> Option<NodeQuadView> {
    let parts = split_spec(q, ',');
    if parts.len() != 4 {
        None
    } else {
        match service_from_str_spec(parts[3]) {
            Some(sv) => Some(
                NodeQuadView { spring: parts[0], host: parts[1], address: parts[2], service: sv },
            ),
            None => None,
        }
    }
}

pub open spec fn parse_quads_spec(parts: Seq<Seq<char>>) -> Option<Seq<NodeQuadView>>
    decreases parts.len(),
{
    if parts.len() == 0 {
        Some(Seq::empty())
    } else {
        match (parse_quad_spec(parts[0]), parse_quads_spec(parts.drop_first())) {
            (Some(q), Some(rest)) => Some(seq![q] + rest),
            _ => None,
        }
    }
}

/// What a network payload parses to.
pub open spec fn parse_network_spec(p: Seq<char>) -> Option<Seq<NodeQuadView>> {
    if p.len() == 0 {
        Some(Seq::empty())
    } else {
        parse_quads_spec(split_spec(p, ';'))
    }
}

/// What a node-info payload parses to: the six properties in order.
pub open spec fn parse_info_payload_spec(p: Seq<char>) -> Option<NodeInfoView> {
    let parts = split_spec(p, ',');
    if parts.len() != 6 {
        None
    } else {
        match (
            service_from_str_spec(parts[3]),
            state_from_str_spec(parts[4]),
            role_from_str_spec(parts[5]),
        ) {
            (Some(sv), Some(st), Some(rl)) => Some(
                NodeInfoView {
                    spring: parts[0],
                    host: parts[1],
                    address: parts[2],
                    service: sv,
                    state: st,
                    role: rl,
                },
            ),
            _ => None,
        }
    }
}

/// What a reply message parses to: the code word, then for a non-empty
/// payload a length, a tag and the payload itself, whose length the length
/// field must give exactly.
pub open spec fn parse_response_spec(w: Seq<char>, has_rest: bool, rest: Seq<char>) -> Option<
    ContentResponseView,
> {
    match code_from_str_spec(w) {
        None => None,
        Some(code) => {
            if !has_rest {
                Some(ContentResponseView { code, content: ResponseContentView::Empty })
            } else {
                let j = find_spec(rest, ' ');
                if j < 0 {
                    None
                } else {
                    let lentok = rest.take(j);
                    let tr = rest.skip(j + 1);
                    let k = find_spec(tr, ' ');
                    let tag = if k < 0 {
                        tr
                    } else {
                        tr.take(k)
                    };
                    let payload = if k < 0 {
                        Seq::<char>::empty()
                    } else {
                        tr.skip(k + 1)
                    };
                    if !(lentok.len() > 0 && all_digits(lentok) && dec_val(lentok)
                        == payload.len()) {
                        None
                    } else if tag == "node"@ {
                        match parse_info_payload_spec(payload) {
                            Some(i) => Some(
                                ContentResponseView {
                                    code,
                                    content: ResponseContentView::NodeInfo(i),
                                },
                            ),
                            None => None,
                        }
                    } else if tag == "network"@ {
                        match parse_network_spec(payload) {
                            Some(n) => Some(
                                ContentResponseView {
                                    code,
                                    content: ResponseContentView::Network(n),
                                },
                            ),
                            None => None,
                        }
                    } else if tag == "service/text"@ {
                        Some(
                            ContentResponseView {
                                code,
                                content: ResponseContentView::ServiceText(payload),
                            },
                        )
                    } else if tag == "service/multi"@ {
                        Some(
                            ContentResponseView {
                                code,
                                content: ResponseContentView::ServiceMulti(payload),
                            },
                        )
                    } else {
                        None
                    }
                }
            }
        },
    }
}

/// What a whole wire message parses to.
pub open spec fn parse_message_spec(s: Seq<char>) -> Option<MessageView> {
    let i = find_spec(s, ' ');
    let w = if i < 0 {
        s
    } else {
        s.take(i)
    };
    let rest = if i < 0 {
        Seq::<char>::empty()
    } else {
        s.skip(i + 1)
    };
    if w == "register"@ {
        match parse_registration_spec(rest) {
            Some(r) => Some(
                MessageView {
                    cmd: CmdType::Register,
                    content: MessageContentView::Registration(r),
                },
            ),
            None => None,
        }
    } else if w == "unregister"@ {
        if plain_name(rest) {
            Some(
                MessageView {
                    cmd: CmdType::Unregister,
                    content: MessageContentView::NodeSingle(rest),
                },
            )
        } else {
            None
        }
    } else if w == "info"@ {
        match parse_info_spec(rest) {
            Some(ic) => Some(
                MessageView { cmd: CmdType::Info, content: MessageContentView::Info(ic) },
            ),
            None => None,
        }
    } else if w == "update"@ {
        match parse_update_spec(rest) {
            Some(up) => Some(
                MessageView { cmd: CmdType::Update, content: MessageContentView::Update(up) },
            ),
            None => None,
        }
    } else if w == "service"@ {
        match parse_uri_spec(rest) {
            Some(u) => Some(
                MessageView { cmd: CmdType::Service, content: MessageContentView::Service(u) },
            ),
            None => None,
        }
    } else if w == "resolve"@ {
        match parse_uri_spec(rest) {
            Some(u) => Some(
                MessageView { cmd: CmdType::Resolve, content: MessageContentView::Resolve(u) },
            ),
            None => None,
        }
    } else {
        match parse_response_spec(w, i >= 0, rest) {
            Some(cr) => Some(
                MessageView { cmd: CmdType::Response, content: MessageContentView::Response(cr) },
            ),
            None => None,
        }
    }
}

/// The textual form of one quad.
pub open spec fn render_quad_spec(q: NodeQuadView) -> Seq<char> {
    q.spring + ","@ + q.host + ","@ + q.address + ","@ + service_str_spec(q.service)
}

/// The textual form of a network payload.
pub open spec fn render_network_spec(v: Seq<NodeQuadView>) -> Seq<char> {
    if v.len() == 0 {
        Seq::empty()
    } else {
        join_spec(v.map_values(|q: NodeQuadView| render_quad_spec(q)), ";"@)
    }
}

/// The textual form of a node-info payload.
pub open spec fn render_info_spec(i: NodeInfoView) -> Seq<char> {
    i.spring + ","@ + i.host + ","@ + i.address + ","@ + service_str_spec(i.service) + ","@
        + state_str_spec(i.state) + ","@ + role_str_spec(i.role)
}

/// The property word of a property, as queries and updates write it.
pub open spec fn prop_word_spec(p: NodePropertyView) -> Seq<char> {
    match p {
        NodePropertyView::Hostname(_) => "hostname"@,
        NodePropertyView::Address(_) => "address"@,
        NodePropertyView::Service(_) => "service"@,
        NodePropertyView::State(_) => "state"@,
        NodePropertyView::Role(_) => "role"@,
        NodePropertyView::All => "all"@,
    }
}

/// The value word of a property carrying one, or the empty sequence.
pub open spec fn prop_value_spec(p: NodePropertyView) -> Seq<char> {
    match p {
        NodePropertyView::Hostname(v) => match v {
            Some(s) => s,
            None => Seq::empty(),
        },
        NodePropertyView::Address(v) => match v {
            Some(s) => s,
            None => Seq::empty(),
        },
        NodePropertyView::Service(v) => match v {
            Some(sv) => service_str_spec(sv),
            None => Seq::empty(),
        },
        NodePropertyView::State(v) => match v {
            Some(st) => state_str_spec(st),
            None => Seq::empty(),
        },
        NodePropertyView::Role(v) => match v {
            Some(rl) => role_str_spec(rl),
            None => Seq::empty(),
        },
        NodePropertyView::All => Seq::empty(),
    }
}

/// The payload and tag of a reply content.
pub open spec fn response_payload_spec(c: ResponseContentView) -> (Seq<char>, Seq<char>) {
    match c {
        ResponseContentView::Empty => (Seq::empty(), Seq::empty()),
        ResponseContentView::NodeInfo(i) => ("node"@, render_info_spec(i)),
        ResponseContentView::Network(n) => ("network"@, render_network_spec(n)),
        ResponseContentView::ServiceText(t) => ("service/text"@, t),
        ResponseContentView::ServiceMulti(t) => ("service/multi"@, t),
    }
}

/// The textual form of a whole message.
pub open spec fn render_message_spec(m: MessageView) -> Seq<char> {
    match m.content {
        MessageContentView::Empty => Seq::empty(),
        MessageContentView::Registration(r) => "register "@ + r.spring + ","@ + r.host + ";"@
            + role_str_spec(r.role) + ";"@ + service_str_spec(r.service) + ";"@ + r.token,
        MessageContentView::NodeSingle(s) => "unregister "@ + s,
        MessageContentView::Info(ic) => match ic {
            InfoContentView::Network => "info network"@,
            InfoContentView::Node(np) => "info node "@ + np.spring + " "@ + prop_word_spec(
                np.property,
            ),
        },
        MessageContentView::Update(np) => "update "@ + np.spring + " "@ + prop_word_spec(
            np.property,
        ) + " "@ + prop_value_spec(np.property),
        MessageContentView::Service(u) => "service "@ + render_uri_spec(u),
        MessageContentView::Resolve(u) => "resolve "@ + render_uri_spec(u),
        MessageContentView::Response(cr) => match cr.content {
            ResponseContentView::Empty => code_str_spec(cr.code),
            _ => code_str_spec(cr.code) + " "@ + dec_of(response_payload_spec(cr.content).1.len() as int)
                + " "@ + response_payload_spec(cr.content).0 + " "@ + response_payload_spec(
                cr.content,
            ).1,
        },
    }
}

/// Relies on std's `str::from_utf8`: `Some` exactly on valid UTF-8 input,
/// giving the characters the bytes encode.
#[verifier::external_body]
fn bytes_as_str(b: &[u8]) -> (r: Option<&str>)
    ensures
        r is Some <==> valid_utf8(b@),
        r matches Some(s) ==> s@ == decode_utf8(b@),
{
    core::str::from_utf8(b).ok()
}

fn prop_from_word(w: &str) -> (r: Option<NodeProperty>)
    ensures
        match r {
            Some(p) => prop_of_word(w@) == Some(p@),
            None => prop_of_word(w@) is None,
        },
{
    if str_eq(w, "hostname") {
        Some(NodeProperty::Hostname(None))
    } else if str_eq(w, "address") {
        Some(NodeProperty::Address(None))
    } else if str_eq(w, "service") {
        Some(NodeProperty::Service(None))
    } else if str_eq(w, "state") {
        Some(NodeProperty::State(None))
    } else if str_eq(w, "role") {
        Some(NodeProperty::Role(None))
    } else if str_eq(w, "all") {
        Some(NodeProperty::All)
    } else {
        None
    }
}

fn prop_from_word_value(w: &str, v: &str) -> (r: Option<NodeProperty>)
    ensures
        match r {
            Some(p) => prop_of_word_value(w@, v@) == Some(p@),
            None => prop_of_word_value(w@, v@) is None,
        },
{
    if str_eq(w, "state") {
        match NodeState::from_str(v) {
            Some(st) => Some(NodeProperty::State(Some(st))),
            None => None,
        }
    } else if str_eq(w, "role") {
        match NodeRole::from_str(v) {
            Some(rl) => Some(NodeProperty::Role(Some(rl))),
            None => None,
        }
    } else if str_eq(w, "service") {
        match NodeService::from_str(v) {
            Some(sv) => Some(NodeProperty::Service(Some(sv))),
            None => None,
        }
    } else if str_eq(w, "hostname") {
        if v.unicode_len() > 0 {
            Some(NodeProperty::Hostname(Some(v.to_owned())))
        } else {
            None
        }
    } else if str_eq(w, "address") {
        if v.unicode_len() > 0 {
            Some(NodeProperty::Address(Some(v.to_owned())))
        } else {
            None
        }
    } else {
        None
    }
}

fn parse_registration(rest: &str) -> (r: Option<ContentRegistration>)
    ensures
        match r {
            Some(c) => parse_registration_spec(rest@) == Some(c@),
            None => parse_registration_spec(rest@) is None,
        },
{
    let parts = split_str(rest, ';');
    if parts.len() != 4 {
        return None;
    }
    let double = split_str(parts[0].as_str(), ',');
    if double.len() != 2 {
        return None;
    }
    if double[0].as_str().unicode_len() == 0 || parts[3].as_str().unicode_len() == 0 {
        return None;
    }
    let role = match NodeRole::from_str(parts[1].as_str()) {
        Some(rl) => rl,
        None => {
            return None;
        },
    };
    let service = match NodeService::from_str(parts[2].as_str()) {
        Some(sv) => sv,
        None => {
            return None;
        },
    };
    Some(
        ContentRegistration {
            spring: double[0].clone(),
            host: double[1].clone(),
            role,
            service,
            token: parts[3].clone(),
        },
    )
}

fn parse_info(rest: &str) -> (r: Option<InfoContent>)
    ensures
        match r {
            Some(c) => parse_info_spec(rest@) == Some(c@),
            None => parse_info_spec(rest@) is None,
        },
{
    if str_eq(rest, "network") {
        return Some(InfoContent::Network);
    }
    let parts = split_str(rest, ' ');
    if parts.len() != 3 {
        return None;
    }
    if !str_eq(parts[0].as_str(), "node") || parts[1].as_str().unicode_len() == 0 {
        return None;
    }
    match prop_from_word(parts[2].as_str()) {
        Some(p) => Some(
            InfoContent::Node(ContentNodeProperty { spring: parts[1].clone(), property: p }),
        ),
        None => None,
    }
}

fn parse_update(rest: &str) -> (r: Option<ContentNodeProperty>)
    ensures
        match r {
            Some(c) => parse_update_spec(rest@) == Some(c@),
            None => parse_update_spec(rest@) is None,
        },
{
    let parts = split_str(rest, ' ');
    if parts.len() != 3 {
        return None;
    }
    if parts[0].as_str().unicode_len() == 0 {
        return None;
    }
    match prop_from_word_value(parts[1].as_str(), parts[2].as_str()) {
        Some(p) => Some(ContentNodeProperty { spring: parts[0].clone(), property: p }),
        None => None,
    }
}

fn parse_quad(q: &str) -> (r: Option<NodeQuadFmt>)
    ensures
        match r {
            Some(c) => parse_quad_spec(q@) == Some(c@),
            None => parse_quad_spec(q@) is None,
        },
{
    let parts = split_str(q, ',');
    if parts.len() != 4 {
        return None;
    }
    match NodeService::from_str(parts[3].as_str()) {
        Some(sv) => Some(
            NodeQuadFmt {
                spring: parts[0].clone(),
                host: parts[1].clone(),
                address: parts[2].clone(),
                service: sv,
            },
        ),
        None => None,
    }
}

fn parse_network(p: &str) -> (r: Option<Vec<NodeQuadFmt>>)
    ensures
        match r {
            Some(v) => parse_network_spec(p@) == Some(v@.map_values(|q: NodeQuadFmt| q@)),
            None => parse_network_spec(p@) is None,
        },
{
    if p.unicode_len() == 0 {
        let v: Vec<NodeQuadFmt> = Vec::new();
        proof {
            assert(v@.map_values(|q: NodeQuadFmt| q@) =~= Seq::<NodeQuadView>::empty());
        }
        return Some(v);
    }
    let parts = split_str(p, ';');
    let ghost partsv = parts@.map_values(|t: String| t@);
    let mut acc: Vec<NodeQuadFmt> = Vec::new();
    let mut i: usize = 0;
    proof {
        assert(partsv.skip(0) =~= partsv);
        assert(acc@.map_values(|q: NodeQuadFmt| q@) =~= Seq::<NodeQuadView>::empty());
        assert(Seq::<NodeQuadView>::empty() + parse_quads_spec(partsv)->Some_0 =~= parse_quads_spec(
            partsv,
        )->Some_0);
    }
    while i < parts.len()
        invariant
            0 <= i <= parts@.len(),
            p@.len() > 0,
            partsv == split_spec(p@, ';'),
            partsv == parts@.map_values(|t: String| t@),
            parse_quads_spec(partsv) == (match parse_quads_spec(partsv.skip(i as int)) {
                Some(rest) => Some(acc@.map_values(|q: NodeQuadFmt| q@) + rest),
                None => None::<Seq<NodeQuadView>>,
            }),
        decreases parts@.len() - i,
    {
        let ghost tail = partsv.skip(i as int);
        proof {
            assert(tail[0] == partsv[i as int]);
            assert(tail.drop_first() =~= partsv.skip(i + 1));
        }
        let ghost pre = acc@.map_values(|q: NodeQuadFmt| q@);
        match parse_quad(parts[i].as_str()) {
            None => {
                return None;
            },
            Some(q) => {
                acc.push(q);
                proof {
                    let qv = parse_quad_spec(partsv[i as int])->Some_0;
                    assert(acc@.map_values(|q: NodeQuadFmt| q@) =~= pre.push(qv));
                    if parse_quads_spec(partsv.skip(i + 1)) is Some {
                        let rest = parse_quads_spec(partsv.skip(i + 1))->Some_0;
                        assert(pre + (seq![qv] + rest) =~= pre.push(qv) + rest);
                    }
                }
            },
        }
        i = i + 1;
    }
    proof {
        assert(partsv.skip(partsv.len() as int) =~= Seq::<Seq<char>>::empty());
        let whole = acc@.map_values(|q: NodeQuadFmt| q@);
        assert(whole + Seq::<NodeQuadView>::empty() =~= whole);
    }
    Some(acc)
}

fn parse_info_payload(p: &str) -> (r: Option<NodeInfoFmt>)
    ensures
        match r {
            Some(c) => parse_info_payload_spec(p@) == Some(c@),
            None => parse_info_payload_spec(p@) is None,
        },
{
    let parts = split_str(p, ',');
    if parts.len() != 6 {
        return None;
    }
    let service = match NodeService::from_str(parts[3].as_str()) {
        Some(sv) => sv,
        None => {
            return None;
        },
    };
    let state = match NodeState::from_str(parts[4].as_str()) {
        Some(st) => st,
        None => {
            return None;
        },
    };
    let role = match NodeRole::from_str(parts[5].as_str()) {
        Some(rl) => rl,
        None => {
            return None;
        },
    };
    Some(
        NodeInfoFmt {
            spring: parts[0].clone(),
            host: parts[1].clone(),
            address: parts[2].clone(),
            service,
            state,
            role,
        },
    )
}

fn parse_response(w: &str, rest: Option<&str>) -> (r: Option<ContentResponse>)
    ensures
        match r {
            Some(c) => parse_response_spec(
                w@,
                rest is Some,
                match rest {
                    Some(t) => t@,
                    None => Seq::empty(),
                },
            ) == Some(c@),
            None => parse_response_spec(
                w@,
                rest is Some,
                match rest {
                    Some(t) => t@,
                    None => Seq::empty(),
                },
            ) is None,
        },
{
    let code = match Response::from_code_str(w) {
        Some(c) => c,
        None => {
            return None;
        },
    };
    let rest = match rest {
        None => {
            return Some(ContentResponse { code, content: ResponseContent::Empty });
        },
        Some(t) => t,
    };
    proof {
        crate::text::lemma_find_spec(rest@, ' ');
    }
    let rn = rest.unicode_len();
    let j = match find_char(rest, ' ') {
        None => {
            return None;
        },
        Some(j) => j,
    };
    let lentok = rest.substring_char(0, j);
    let tr = rest.substring_char(j + 1, rn);
    proof {
        assert(lentok@ =~= rest@.take(j as int));
        assert(tr@ =~= rest@.skip(j + 1));
        crate::text::lemma_find_spec(tr@, ' ');
    }
    let tn = tr.unicode_len();
    let tag: &str;
    let payload: &str;
    match find_char(tr, ' ') {
        None => {
            tag = tr;
            payload = "";
            proof {
                reveal_strlit("");
                assert(payload@ =~= Seq::<char>::empty());
            }
        },
        Some(k) => {
            tag = tr.substring_char(0, k);
            payload = tr.substring_char(k + 1, tn);
            proof {
                assert(tag@ =~= tr@.take(k as int));
                assert(payload@ =~= tr@.skip(k + 1));
            }
        },
    }
    let lenval = match parse_dec(lentok) {
        None => {
            return None;
        },
        Some(v) => v,
    };
    let pn = payload.unicode_len();
    if lenval != pn as u64 {
        return None;
    }
    if str_eq(tag, "node") {
        match parse_info_payload(payload) {
            Some(i) => Some(
                ContentResponse {
                    code,
                    content: ResponseContent::NodeInfo(ContentNodeInfo { info: i }),
                },
            ),
            None => None,
        }
    } else if str_eq(tag, "network") {
        match parse_network(payload) {
            Some(n) => Some(
                ContentResponse {
                    code,
                    content: ResponseContent::Network(ContentNetwork { network: n }),
                },
            ),
            None => None,
        }
    } else if str_eq(tag, "service/text") {
        Some(
            ContentResponse {
                code,
                content: ResponseContent::ServiceText(
                    ContentServiceText { content: payload.to_owned() },
                ),
            },
        )
    } else if str_eq(tag, "service/multi") {
        Some(
            ContentResponse {
                code,
                content: ResponseContent::ServiceMulti(
                    ContentServiceText { content: payload.to_owned() },
                ),
            },
        )
    } else {
        None
    }
}

impl Message {
    pub fn new(cmd: CmdType, content: MessageContent) -> (r: Message)
        ensures
            r@ == (MessageView { cmd, content: content@ }),
    {
        Message { cmd, content }
    }

    /// Parses a wire message from its characters.
    pub fn from_text(s: &str) -> (r: Result<Message, ParseFailure>)
        ensures
            match r {
                Ok(m) => parse_message_spec(s@) == Some(m@),
                Err(_) => parse_message_spec(s@) is None,
            },
    {
        proof {
            crate::text::lemma_find_spec(s@, ' ');
        }
        let n = s.unicode_len();
        let w: &str;
        let rest: Option<&str>;
        match find_char(s, ' ') {
            None => {
                w = s;
                rest = None;
            },
            Some(i) => {
                w = s.substring_char(0, i);
                rest = Some(s.substring_char(i + 1, n));
                proof {
                    assert(w@ =~= s@.take(i as int));
                    assert(rest->Some_0@ =~= s@.skip(i + 1));
                }
            },
        }
        let rest_str: &str = match rest {
            None => "",
            Some(t) => t,
        };
        proof {
            reveal_strlit("");
            if rest is None {
                assert(rest_str@ =~= Seq::<char>::empty());
            }
        }
        if str_eq(w, "register") {
            match parse_registration(rest_str) {
                Some(c) => Ok(
                    Message { cmd: CmdType::Register, content: MessageContent::Registration(c) },
                ),
                None => Err(ParseFailure::Malformed),
            }
        } else if str_eq(w, "unregister") {
            proof {
                crate::text::lemma_find_spec(rest_str@, ' ');
            }
            if rest_str.unicode_len() > 0 && find_char(rest_str, ' ').is_none() {
                Ok(
                    Message {
                        cmd: CmdType::Unregister,
                        content: MessageContent::NodeSingle(
                            ContentNodeSingle { nsingle: rest_str.to_owned() },
                        ),
                    },
                )
            } else {
                Err(ParseFailure::Malformed)
            }
        } else if str_eq(w, "info") {
            match parse_info(rest_str) {
                Some(c) => Ok(Message { cmd: CmdType::Info, content: MessageContent::Info(c) }),
                None => Err(ParseFailure::Malformed),
            }
        } else if str_eq(w, "update") {
            match parse_update(rest_str) {
                Some(c) => Ok(Message { cmd: CmdType::Update, content: MessageContent::Update(c) }),
                None => Err(ParseFailure::Malformed),
            }
        } else if str_eq(w, "service") {
            match Uri::new(rest_str) {
                Ok(u) => Ok(
                    Message {
                        cmd: CmdType::Service,
                        content: MessageContent::Service(ContentUri { uri: u }),
                    },
                ),
                Err(_) => Err(ParseFailure::Malformed),
            }
        } else if str_eq(w, "resolve") {
            match Uri::new(rest_str) {
                Ok(u) => Ok(
                    Message {
                        cmd: CmdType::Resolve,
                        content: MessageContent::Resolve(ContentUri { uri: u }),
                    },
                ),
                Err(_) => Err(ParseFailure::Malformed),
            }
        } else {
            match parse_response(w, rest) {
                Some(c) => Ok(
                    Message { cmd: CmdType::Response, content: MessageContent::Response(c) },
                ),
                None => Err(ParseFailure::Malformed),
            }
        }
    }

    /// Parses a wire message from raw bytes.
    pub fn from_bytes(b: &[u8]) -> (r: Result<Message, ParseFailure>)
        ensures
            match r {
                Ok(m) => valid_utf8(b@) && parse_message_spec(decode_utf8(b@)) == Some(m@),
                Err(_) => !valid_utf8(b@) || parse_message_spec(decode_utf8(b@)) is None,
            },
    {
        match bytes_as_str(b) {
            None => Err(ParseFailure::Malformed),
            Some(s) => Message::from_text(s),
        }
    }

    /// The textual form of the message.
    pub fn to_text(&self) -> (r: String)
        ensures
            r@ == render_message_spec(self@),
    {
        match &self.content {
            MessageContent::Empty => String::new(),
            MessageContent::Registration(c) => {
                let mut r = String::from_str("register ");
                r.append(c.spring.as_str());
                r.append(",");
                r.append(c.host.as_str());
                r.append(";");
                r.append(c.role.as_str());
                r.append(";");
                r.append(c.service.as_str());
                r.append(";");
                r.append(c.token.as_str());
                r
            },
            MessageContent::NodeSingle(c) => {
                let mut r = String::from_str("unregister ");
                r.append(c.nsingle.as_str());
                r
            },
            MessageContent::Info(ic) => {
                match ic {
                    InfoContent::Network => String::from_str("info network"),
                    InfoContent::Node(np) => {
                        let mut r = String::from_str("info node ");
                        r.append(np.spring.as_str());
                        r.append(" ");
                        r.append(prop_word(&np.property));
                        r
                    },
                }
            },
            MessageContent::Update(np) => {
                let mut r = String::from_str("update ");
                r.append(np.spring.as_str());
                r.append(" ");
                r.append(prop_word(&np.property));
                r.append(" ");
                r.append(prop_value(&np.property).as_str());
                r
            },
            MessageContent::Service(c) => {
                let mut r = String::from_str("service ");
                r.append(c.uri.to_string().as_str());
                r
            },
            MessageContent::Resolve(c) => {
                let mut r = String::from_str("resolve ");
                r.append(c.uri.to_string().as_str());
                r
            },
            MessageContent::Response(cr) => {
                match &cr.content {
                    ResponseContent::Empty => cr.code.code_str().to_owned(),
                    _ => {
                        let tag: &str;
                        let payload: String;
                        match &cr.content {
                            ResponseContent::Empty => {
                                tag = "";
                                payload = String::new();
                            },
                            ResponseContent::NodeInfo(i) => {
                                tag = "node";
                                payload = render_node_info(&i.info);
                            },
                            ResponseContent::Network(n) => {
                                tag = "network";
                                payload = render_network(&n.network);
                            },
                            ResponseContent::ServiceText(t) => {
                                tag = "service/text";
                                payload = t.content.clone();
                            },
                            ResponseContent::ServiceMulti(t) => {
                                tag = "service/multi";
                                payload = t.content.clone();
                            },
                        }
                        let mut r = cr.code.code_str().to_owned();
                        r.append(" ");
                        r.append(u64_to_dec(payload.as_str().unicode_len() as u64).as_str());
                        r.append(" ");
                        r.append(tag);
                        r.append(" ");
                        r.append(payload.as_str());
                        r
                    },
                }
            },
        }
    }

    /// The wire bytes of the message.
    pub fn to_bytes(&self) -> (r: Vec<u8>)
        ensures
            r@ == vstd::utf8::encode_utf8(render_message_spec(self@)),
    {
        let s = self.to_text();
        s.as_str().as_bytes_vec()
    }
}

fn prop_word(p: &NodeProperty) -> (r: &'static str)
    ensures
        r@ == prop_word_spec(p@),
{
    match p {
        NodeProperty::Hostname(_) => "hostname",
        NodeProperty::Address(_) => "address",
        NodeProperty::Service(_) => "service",
        NodeProperty::State(_) => "state",
        NodeProperty::Role(_) => "role",
        NodeProperty::All => "all",
    }
}

fn prop_value(p: &NodeProperty) -> (r: String)
    ensures
        r@ == prop_value_spec(p@),
{
    match p {
        NodeProperty::Hostname(v) => match v {
            Some(s) => s.clone(),
            None => String::new(),
        },
        NodeProperty::Address(v) => match v {
            Some(s) => s.clone(),
            None => String::new(),
        },
        NodeProperty::Service(v) => match v {
            Some(sv) => sv.as_str().to_owned(),
            None => String::new(),
        },
        NodeProperty::State(v) => match v {
            Some(st) => st.as_str().to_owned(),
            None => String::new(),
        },
        NodeProperty::Role(v) => match v {
            Some(rl) => rl.as_str().to_owned(),
            None => String::new(),
        },
        NodeProperty::All => String::new(),
    }
}

/// The textual form of one node-info payload.
pub fn render_node_info(i: &NodeInfoFmt) -> (r: String)
    ensures
        r@ == render_info_spec(i@),
{
    let mut r = i.spring.clone();
    r.append(",");
    r.append(i.host.as_str());
    r.append(",");
    r.append(i.address.as_str());
    r.append(",");
    r.append(i.service.as_str());
    r.append(",");
    r.append(i.state.as_str());
    r.append(",");
    r.append(i.role.as_str());
    r
}

/// The textual form of a network payload.
pub fn render_network(v: &Vec<NodeQuadFmt>) -> (r: String)
    ensures
        r@ == render_network_spec(v@.map_values(|q: NodeQuadFmt| q@)),
{
    if v.len() == 0 {
        return String::new();
    }
    let mut parts: Vec<String> = Vec::new();
    let mut i: usize = 0;
    while i < v.len()
        invariant
            0 <= i <= v@.len(),
            parts@.len() == i,
            forall|j: int| 0 <= j < i ==> parts@[j]@ == render_quad_spec(v@[j]@),
        decreases v@.len() - i,
    {
        let q = &v[i];
        let mut part = q.spring.clone();
        part.append(",");
        part.append(q.host.as_str());
        part.append(",");
        part.append(q.address.as_str());
        part.append(",");
        part.append(q.service.as_str());
        parts.push(part);
        i = i + 1;
    }
    let r = join_str(&parts, ";");
    proof {
        assert(parts@.map_values(|t: String| t@) =~= v@.map_values(|q: NodeQuadFmt| q@).map_values(
            |q: NodeQuadView| render_quad_spec(q),
        ));
    }
    r
}

} // verus!
