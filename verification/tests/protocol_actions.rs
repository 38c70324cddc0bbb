//! The command dispatcher, driven with decoded wire messages.

use springnode::chain::{Chain, NetworkFailure};
use springnode::config::Config;
use springnode::message::{
    CmdType, ContentNetwork, ContentNodeInfo, ContentResponse, Message, MessageContent, Response,
    ResponseContent,
};
use springnode::netspace::{NetspaceFailure, NetspaceIo};
use springnode::node::{Node, NodeRole, NodeService, NodeState};
use springnode::protocol::{Protocol, Svr};

struct MockChain {
    target: String,
}

impl MockChain {
    fn new(target: &str) -> MockChain {
        MockChain { target: String::from(target) }
    }
}

impl Chain for MockChain {
    fn request(&self, _bytes: &Vec<u8>, target: &Node) -> Result<Vec<u8>, NetworkFailure> {
        assert_eq!(target.springname(), self.target);
        Ok(Message::from_bytes(b"200").unwrap().to_bytes())
    }
}

fn dflt_config() -> Config {
    Config::from_text(
        "springname=foohub\nhostname=barhub.zni.lan\ngeosub=esusx\naddress=127.0.0.1",
    )
}

fn new_netspace() -> NetspaceIo {
    let mut ns = NetspaceIo::new();
    ns.gsn_add_token("3858f62230ac3c915f300c664312c63f", "");
    ns
}

fn new_svr() -> Svr {
    Svr::new(String::from("192.168.1.2"), dflt_config())
}

fn new_msg(s: &str) -> Message {
    match Message::from_bytes(s.as_bytes()) {
        Ok(m) => m,
        Err(e) => panic!("new_msg( `{}` ) -> {:?}", s, e),
    }
}

fn run(msg: &str, ns: &mut NetspaceIo) -> Message {
    run_with(msg, ns, "")
}

fn run_with(msg: &str, ns: &mut NetspaceIo, mock: &str) -> Message {
    let svr = new_svr();
    Protocol::process(&new_msg(msg), &svr, ns, &MockChain::new(mock))
}

fn response_of(m: Message) -> ContentResponse {
    assert_eq!(m.cmd, CmdType::Response);
    match m.content {
        MessageContent::Response(cr) => cr,
        other => panic!("expected a response, got another content: {:?}", discriminant(&other)),
    }
}

fn discriminant(c: &MessageContent) -> &'static str {
    match c {
        MessageContent::Empty => "empty",
        MessageContent::Registration(_) => "registration",
        MessageContent::NodeSingle(_) => "single",
        MessageContent::Info(_) => "info",
        MessageContent::Update(_) => "update",
        MessageContent::Service(_) => "service",
        MessageContent::Resolve(_) => "resolve",
        MessageContent::Response(_) => "response",
    }
}

fn node_info_of(cr: ContentResponse) -> ContentNodeInfo {
    match cr.content {
        ResponseContent::NodeInfo(i) => i,
        _ => panic!("expected a node-info payload"),
    }
}

fn network_of(cr: ContentResponse) -> ContentNetwork {
    match cr.content {
        ResponseContent::Network(n) => n,
        _ => panic!("expected a network payload"),
    }
}

fn assert_code(m: Message, code: Response) -> ContentResponse {
    let cr = response_of(m);
    assert_eq!(cr.code, code);
    cr
}

fn add_node(ns: &mut NetspaceIo) {
    ns.gsn_node_register(
        &Node::from_str("spring:foo,host:foobar,address:192.168.1.2,role:hub,service:http,state:enabled")
            .unwrap(),
    )
    .unwrap();
}

fn add_node_with_name(name: &str, ns: &mut NetspaceIo) {
    ns.gsn_node_register(
        &Node::from_str(
            &format!("spring:{},host:foobar,address:192.168.1.2,role:org,service:http,state:enabled", name),
        )
        .unwrap(),
    )
    .unwrap();
}

fn add_remote_node(ns: &mut NetspaceIo) {
    ns.gsn_node_register(
        &Node::from_str("spring:foo,host:foobar,address:192.168.1.3,role:hub,service:http,state:enabled")
            .unwrap(),
    )
    .unwrap();
}

fn add_gsn_hub(name: &str, geosub: &str, ns: &mut NetspaceIo) {
    ns.gtn_geosub_register_node(
        &Node::from_str(
            &format!("spring:{},host:foobar,address:192.168.1.3,role:hub,service:http,state:enabled", name),
        )
        .unwrap(),
        geosub,
    )
    .unwrap();
}

fn get_node(s: &str, ns: &NetspaceIo) -> Node {
    ns.gsn_node_by_springname(s).unwrap()
}

fn change_node_role(name: &str, role: NodeRole, ns: &mut NetspaceIo) {
    let n = Node::from_str(&format!("spring:{},role:{}", name, role.as_str())).unwrap();
    ns.gsn_node_update_role(&n).unwrap();
}

fn add_self(ns: &mut NetspaceIo) {
    let n = Node::from_str(
        "spring:foohub,host:barhub.zni.lan,address:127.0.0.1,service:dvsp,role:hub,state:enabled",
    )
    .unwrap();
    ns.gsn_node_register(&n).unwrap();
    ns.gsn_node_update_state(&n).unwrap();
    ns.gtn_geosub_register_node(&n, "esusx").unwrap();
}

#[test]
fn ts_protocol_register_pass() {
    let mut ns = new_netspace();
    assert_code(
        run("register spring,host;org;http;3858f62230ac3c915f300c664312c63f", &mut ns),
        Response::Okay,
    );
    let n: Node = get_node("spring", &ns);
    assert_eq!(n.springname(), "spring");
    assert_eq!(n.role(), NodeRole::Org);
    assert_eq!(n.service(), NodeService::Http);
}

#[test]
fn ts_protocol_register_fail_duplicate() {
    let mut ns = new_netspace();
    add_node_with_name("spring", &mut ns);
    assert_code(
        run("register spring,host;org;http;3858f62230ac3c915f300c664312c63f", &mut ns),
        Response::NetspaceDuplication,
    );
}

#[test]
fn ts_protocol_register_fail_bad_token() {
    let mut ns = new_netspace();
    assert_code(
        run("register spring,host;org;http;3858f62230ac3c915f300c664312", &mut ns),
        Response::NetspaceError,
    );
}

#[test]
fn ts_protocol_unregister_pass() {
    let mut ns = new_netspace();
    ns.gsn_node_register(&Node::from_str("spring:spring,address:192.168.1.2").unwrap()).unwrap();
    assert_code(run("unregister spring", &mut ns), Response::Okay);
    assert_eq!(
        ns.gsn_node_by_springname("spring").unwrap_err(),
        NetspaceFailure::NodeNotFound,
    );
}

#[test]
fn ts_protocol_unregister_fail_no_node() {
    let mut ns = new_netspace();
    assert_code(run("unregister spring", &mut ns), Response::NetspaceError);
}

#[test]
fn ts_protocol_unregister_fail_wrong_src() {
    let mut ns = new_netspace();
    ns.gsn_node_register(&Node::from_str("spring:spring,address:192.168.1.3").unwrap()).unwrap();
    assert_code(run("unregister spring", &mut ns), Response::NetworkError);
}

#[test]
fn ts_protocol_info_hostname_pass() {
    let mut ns = new_netspace();
    add_node(&mut ns);
    let cr = assert_code(run("info node foo hostname", &mut ns), Response::Okay);
    let ni = node_info_of(cr);
    assert_eq!(ni.info.host, "foobar");
    assert!(ni.info.spring.is_empty());
    assert!(ni.info.address.is_empty());
    assert_eq!(ni.info.service, NodeService::Undefined);
    assert_eq!(ni.info.state, NodeState::Unspecified);
    assert_eq!(ni.info.role, NodeRole::Undefined);
}

#[test]
fn ts_protocol_info_address_pass() {
    let mut ns = new_netspace();
    add_node(&mut ns);
    let cr = assert_code(run("info node foo address", &mut ns), Response::Okay);
    let ni = node_info_of(cr);
    assert!(ni.info.host.is_empty());
    assert!(ni.info.spring.is_empty());
    assert_eq!(ni.info.address, "192.168.1.2");
    assert_eq!(ni.info.service, NodeService::Undefined);
    assert_eq!(ni.info.state, NodeState::Unspecified);
    assert_eq!(ni.info.role, NodeRole::Undefined);
}

#[test]
fn ts_protocol_info_service_pass() {
    let mut ns = new_netspace();
    add_node(&mut ns);
    let cr = assert_code(run("info node foo service", &mut ns), Response::Okay);
    let ni = node_info_of(cr);
    assert!(ni.info.host.is_empty());
    assert!(ni.info.spring.is_empty());
    assert!(ni.info.address.is_empty());
    assert_eq!(ni.info.service, NodeService::Http);
    assert_eq!(ni.info.state, NodeState::Unspecified);
    assert_eq!(ni.info.role, NodeRole::Undefined);
}

#[test]
fn ts_protocol_info_state_pass() {
    let mut ns = new_netspace();
    add_node(&mut ns);
    let cr = assert_code(run("info node foo state", &mut ns), Response::Okay);
    let ni = node_info_of(cr);
    assert!(ni.info.host.is_empty());
    assert!(ni.info.spring.is_empty());
    assert!(ni.info.address.is_empty());
    assert_eq!(ni.info.service, NodeService::Undefined);
    assert_eq!(ni.info.state, NodeState::Disabled);
    assert_eq!(ni.info.role, NodeRole::Undefined);
}

#[test]
fn ts_protocol_info_role_pass() {
    let mut ns = new_netspace();
    add_node(&mut ns);
    let cr = assert_code(run("info node foo role", &mut ns), Response::Okay);
    let ni = node_info_of(cr);
    assert!(ni.info.host.is_empty());
    assert!(ni.info.spring.is_empty());
    assert!(ni.info.address.is_empty());
    assert_eq!(ni.info.service, NodeService::Undefined);
    assert_eq!(ni.info.state, NodeState::Unspecified);
    assert_eq!(ni.info.role, NodeRole::Hub);
}

#[test]
fn ts_protocol_info_pass() {
    let mut ns = new_netspace();
    add_node(&mut ns);
    let cr = assert_code(run("info node foo all", &mut ns), Response::Okay);
    let ni = node_info_of(cr);
    assert_eq!(ni.info.host, "foobar");
    assert_eq!(ni.info.spring, "foo");
    assert_eq!(ni.info.address, "192.168.1.2");
    assert_eq!(ni.info.service, NodeService::Http);
    assert_eq!(ni.info.state, NodeState::Disabled);
    assert_eq!(ni.info.role, NodeRole::Hub);
}

#[test]
fn ts_protocol_info_hostname_fail_no_node() {
    let mut ns = new_netspace();
    add_node(&mut ns);
    assert_code(run("info node void hostname", &mut ns), Response::NetspaceError);
}

#[test]
fn ts_protocol_info_network_pass() {
    let mut ns = new_netspace();
    add_node(&mut ns);
    add_node_with_name("croc", &mut ns);
    let cr = assert_code(run("info network", &mut ns), Response::Okay);
    let cn = network_of(cr);
    assert_eq!(cn.network.len(), 2);
    assert_eq!(cn.network[0].spring, "foo");
    assert_eq!(cn.network[1].spring, "croc");
}

#[test]
fn ts_protocol_update_state_unspecified_pass() {
    let mut ns = new_netspace();
    add_node(&mut ns);
    assert_code(run("update foo state unspecified", &mut ns), Response::Okay);
    let n = get_node("foo", &ns);
    assert_eq!(n.state(), NodeState::Unspecified);
}

#[test]
fn ts_protocol_update_state_enabled_pass() {
    let mut ns = new_netspace();
    add_node(&mut ns);
    assert_code(run("update foo state enabled", &mut ns), Response::Okay);
    let n = get_node("foo", &ns);
    assert_eq!(n.state(), NodeState::Enabled);
}

#[test]
fn ts_protocol_update_state_disabled_pass() {
    let mut ns = new_netspace();
    add_node(&mut ns);
    assert_code(run("update foo state disabled", &mut ns), Response::Okay);
    let n = get_node("foo", &ns);
    assert_eq!(n.state(), NodeState::Disabled);
}

#[test]
fn ts_protocol_update_state_unresponsive_pass() {
    let mut ns = new_netspace();
    add_node(&mut ns);
    assert_code(run("update foo state unresponsive", &mut ns), Response::Okay);
    let n = get_node("foo", &ns);
    assert_eq!(n.state(), NodeState::Unresponsive);
}

#[test]
fn ts_protocol_update_state_fail_no_node() {
    let mut ns = new_netspace();
    add_node(&mut ns);
    assert_code(run("update void state unspecified", &mut ns), Response::NetspaceError);
}

#[test]
fn ts_protocol_update_state_fail_unsupported_action() {
    let mut ns = new_netspace();
    add_node(&mut ns);
    assert_code(run("update foo role hub", &mut ns), Response::UnsupportedAction);
}

#[test]
fn ts_protocol_update_state_fail_network_error() {
    let mut ns = new_netspace();
    add_remote_node(&mut ns);
    assert_code(run("update foo state unresponsive", &mut ns), Response::NetworkError);
}

#[test]
fn ts_protocol_resolve_pass_local_node() {
    let mut ns = new_netspace();
    add_node_with_name("cci", &mut ns);
    add_self(&mut ns);
    let cr = assert_code(run("resolve spring://cci.esusx.uk", &mut ns), Response::Okay);
    let ni = node_info_of(cr);
    assert_eq!(ni.info.spring, "cci");
}

#[test]
fn ts_protocol_resolve_pass_local_hubs() {
    let mut ns = new_netspace();
    add_node_with_name("cci", &mut ns);
    add_node_with_name("hub2", &mut ns);
    change_node_role("hub2", NodeRole::Hybrid, &mut ns);
    add_self(&mut ns);
    let cr = assert_code(run("resolve spring://esusx.uk", &mut ns), Response::Okay);
    let ni = network_of(cr);
    assert_eq!(ni.network.len(), 2);
}

#[test]
fn ts_protocol_resolve_pass_remote_hubs() {
    let mut ns = new_netspace();
    add_node_with_name("cci", &mut ns);
    add_gsn_hub("remote", "shire", &mut ns);
    add_self(&mut ns);
    let cr = assert_code(run("resolve spring://shire.uk", &mut ns), Response::Okay);
    let ni = network_of(cr);
    assert_eq!(ni.network.len(), 1);
}

#[test]
fn ts_protocol_resolve_pass_chain() {
    let mut ns = new_netspace();
    add_node_with_name("cci", &mut ns);
    add_gsn_hub("remote", "shire", &mut ns);
    add_self(&mut ns);
    assert_code(run_with("resolve spring://remote.shire.uk", &mut ns, "remote"), Response::Okay);
}

#[test]
fn ts_protocol_resolve_fail_no_node() {
    let mut ns = new_netspace();
    add_node_with_name("cci", &mut ns);
    add_self(&mut ns);
    assert_code(run("resolve spring://void.esusx.uk", &mut ns), Response::NetspaceError);
}

#[test]
fn ts_protocol_resolve_fail_unsupported_action() {
    let mut ns = new_netspace();
    add_node_with_name("cci", &mut ns);
    add_self(&mut ns);
    assert_code(
        run("resolve spring://void.esusx.uk?__meta=outcode", &mut ns),
        Response::UnsupportedAction,
    );
}

#[test]
fn register_binds_observed_source_address() {
    let mut ns = new_netspace();
    assert_code(
        run("register claimant,claimed.host;hub;dvsp;3858f62230ac3c915f300c664312c63f", &mut ns),
        Response::Okay,
    );
    let n = get_node("claimant", &ns);
    assert_eq!(n.address(), "192.168.1.2");
    assert_eq!(n.state(), NodeState::Disabled);
}

#[test]
fn bad_token_register_leaves_registry_unchanged() {
    let mut ns = new_netspace();
    assert_code(
        run("register spring,host;org;http;wrongtoken", &mut ns),
        Response::NetspaceError,
    );
    assert_eq!(0, ns.gsn_nodes().len());
}

#[test]
fn wrong_source_never_mutates() {
    let mut ns = new_netspace();
    add_remote_node(&mut ns);
    assert_code(run("unregister foo", &mut ns), Response::NetworkError);
    assert!(ns.gsn_node_by_springname("foo").is_ok());
    assert_code(run("update foo state enabled", &mut ns), Response::NetworkError);
    assert_eq!(NodeState::Disabled, get_node("foo", &ns).state());
}

#[test]
fn response_command_gets_generic_error() {
    let mut ns = new_netspace();
    assert_code(run("200", &mut ns), Response::MalformedContent);
}

#[test]
fn service_over_empty_registry_gives_empty_envelope() {
    let mut ns = new_netspace();
    let m = run("service spring://foohub.esusx.uk/service/", &mut ns);
    let cr = response_of(m);
    assert_eq!(cr.code, Response::Okay);
    match cr.content {
        ResponseContent::ServiceMulti(t) => assert_eq!(t.content, ""),
        _ => panic!("expected a service/multi payload"),
    }
}
