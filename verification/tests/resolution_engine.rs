//! The resolution engine over a seeded registry, with a canned chain
//! courier standing in for the network.

use springnode::chain::{Chain, NetworkFailure};
use springnode::config::Config;
use springnode::message::Message;
use springnode::netspace::NetspaceIo;
use springnode::node::{Node, NodeRole};
use springnode::resolution::{resolve_uri, ResolutionFailure, ResolutionResult};

struct MockChain {
    target: String,
}

impl MockChain {
    fn new(target: &str) -> MockChain {
        MockChain { target: String::from(target) }
    }
}

impl Chain for MockChain {
    fn request(&self, _bytes: &Vec<u8>, target: &Node) -> Result<Vec<u8>, NetworkFailure> {
        assert_eq!(target.springname(), self.target);
        Ok(Message::from_bytes(b"200").unwrap().to_bytes())
    }
}

/// A courier that never reaches anyone.
struct DeadChain;

impl Chain for DeadChain {
    fn request(&self, _bytes: &Vec<u8>, _target: &Node) -> Result<Vec<u8>, NetworkFailure> {
        Err(NetworkFailure::TimedOut)
    }
}

/// A courier answering with fixed raw bytes.
struct CannedChain {
    bytes: Vec<u8>,
}

impl Chain for CannedChain {
    fn request(&self, _bytes: &Vec<u8>, _target: &Node) -> Result<Vec<u8>, NetworkFailure> {
        Ok(self.bytes.clone())
    }
}

fn dflt_config() -> Config {
    Config::from_text(
        "springname=foohub\nhostname=barhub.zni.lan\ngeosub=esusx\naddress=127.0.0.1",
    )
}

fn std_init() -> (NetspaceIo, Config) {
    let cfg = dflt_config();
    let mut ns = NetspaceIo::new();
    let own = Node::from_str(
        "spring:foohub,host:barhub.zni.lan,address:127.0.0.1,service:dvsp,role:hub,state:enabled",
    )
    .unwrap();
    ns.gsn_node_register(&own).unwrap();
    ns.gsn_node_update_state(&own).unwrap();
    ns.gtn_geosub_register_node(&own, "esusx").unwrap();
    (ns, cfg)
}

fn add_node_with_name(name: &str, ns: &mut NetspaceIo) {
    ns.gsn_node_register(
        &Node::from_str(
            &format!("spring:{},host:foobar,address:192.168.1.2,role:org,service:http,state:enabled", name),
        )
        .unwrap(),
    )
    .unwrap();
}

fn add_hub_in_gsn(name: &str, gsn: &str, ns: &mut NetspaceIo) {
    ns.gtn_geosub_register_node(
        &Node::from_str(
            &format!("spring:{},host:foobar,address:192.168.1.2,role:org,service:http,state:enabled", name),
        )
        .unwrap(),
        gsn,
    )
    .unwrap();
}

fn change_node_role(name: &str, role: NodeRole, ns: &mut NetspaceIo) {
    let n = Node::from_str(&format!("spring:{},role:{}", name, role.as_str())).unwrap();
    ns.gsn_node_update_role(&n).unwrap();
}

fn failure_of(res: ResolutionResult) -> ResolutionFailure {
    match res {
        ResolutionResult::Fail(f) => f,
        _ => panic!("expected a resolution failure"),
    }
}

#[test]
fn ts_resolution_pass_org_node() {
    let (mut ns, cfg) = std_init();
    let chain = MockChain::new("");
    add_node_with_name("cci", &mut ns);
    let res = resolve_uri("spring://cci.esusx.uk", &ns, &cfg, &chain);
    match res {
        ResolutionResult::Node(n) => assert_eq!(n.springname(), "cci"),
        _ => panic!("expected a node result"),
    }
}

#[test]
fn ts_resolution_org_node_route_fail() {
    let (mut ns, cfg) = std_init();
    let chain = MockChain::new("");
    add_node_with_name("cci", &mut ns);
    let res = resolve_uri("spring://void.esusx.uk", &ns, &cfg, &chain);
    assert_eq!(failure_of(res), ResolutionFailure::InvalidRoute);
}

#[test]
fn ts_resolution_org_node_fail() {
    let (mut ns, cfg) = std_init();
    let chain = MockChain::new("");
    add_node_with_name("cci", &mut ns);
    let res = resolve_uri("spring://void", &ns, &cfg, &chain);
    assert_eq!(failure_of(res), ResolutionFailure::InvalidRoute);
}

#[test]
fn ts_resolution_pass_local_hubs() {
    let (mut ns, cfg) = std_init();
    let chain = MockChain::new("");
    add_node_with_name("cci", &mut ns);
    add_node_with_name("hub2", &mut ns);
    change_node_role("hub2", NodeRole::Hybrid, &mut ns);
    let res = resolve_uri("spring://esusx.uk", &ns, &cfg, &chain);
    match res {
        ResolutionResult::Network(network) => assert_eq!(network.len(), 2),
        _ => panic!("expected a network result"),
    }
}

#[test]
fn ts_resolution_local_hubs_fail_no_hubs() {
    let (mut ns, cfg) = std_init();
    let chain = MockChain::new("");
    add_node_with_name("cci", &mut ns);
    add_node_with_name("hub2", &mut ns);
    change_node_role("foohub", NodeRole::Org, &mut ns);
    let res = resolve_uri("spring://esusx.uk", &ns, &cfg, &chain);
    assert_eq!(failure_of(res), ResolutionFailure::NoHubs);
}

#[test]
fn ts_resolution_remote_hubs_pass() {
    let (mut ns, cfg) = std_init();
    let chain = MockChain::new("");
    add_hub_in_gsn("remotehub", "shire", &mut ns);
    let res = resolve_uri("spring://shire.uk", &ns, &cfg, &chain);
    match res {
        ResolutionResult::Network(network) => {
            assert_eq!(network.len(), 1);
            assert_eq!(network[0].spring, "remotehub");
        },
        _ => panic!("expected a network result"),
    }
}

#[test]
fn ts_resolution_chain_node_pass() {
    let (mut ns, cfg) = std_init();
    let chain = MockChain::new("remotehub");
    add_hub_in_gsn("remotehub", "shire", &mut ns);
    let res = resolve_uri("spring://di.shire.uk", &ns, &cfg, &chain);
    assert!(matches!(res, ResolutionResult::Chain(_)));
}

#[test]
fn ts_resolution_meta_fail() {
    let (ns, cfg) = std_init();
    let chain = MockChain::new("remotehub");
    let res = resolve_uri("spring://uk?__meta=outcode", &ns, &cfg, &chain);
    assert_eq!(failure_of(res), ResolutionFailure::UnsupportedAction);
}

#[test]
fn ts_resolution_top_invalid() {
    let (ns, cfg) = std_init();
    let chain = MockChain::new("remotehub");
    let res = resolve_uri("spring://uk?", &ns, &cfg, &chain);
    assert_eq!(failure_of(res), ResolutionFailure::InvalidRoute);
}

#[test]
fn ts_resolution_invalid_uri() {
    let (ns, cfg) = std_init();
    let chain = MockChain::new("");
    let res = resolve_uri("spring://?", &ns, &cfg, &chain);
    assert_eq!(failure_of(res), ResolutionFailure::InvalidUri);
}

#[test]
fn chained_reply_passes_through_verbatim() {
    let (mut ns, cfg) = std_init();
    let canned = CannedChain { bytes: vec![0x68, 0x6f, 0x70, 0x21] };
    add_hub_in_gsn("remotehub", "shire", &mut ns);
    let res = resolve_uri("spring://di.shire.uk", &ns, &cfg, &canned);
    match res {
        ResolutionResult::Chain(b) => assert_eq!(b, vec![0x68, 0x6f, 0x70, 0x21]),
        _ => panic!("expected a chain result"),
    }
}

#[test]
fn unreachable_candidates_give_unresponsive_chain() {
    let (mut ns, cfg) = std_init();
    add_hub_in_gsn("remotehub", "shire", &mut ns);
    let res = resolve_uri("spring://di.shire.uk", &ns, &cfg, &DeadChain);
    assert_eq!(failure_of(res), ResolutionFailure::UnresponsiveChain);
}
