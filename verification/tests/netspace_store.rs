//! The in-memory netspace registry, loaded with the same records the
//! original storage schema seeded.

use springnode::netspace::{
    netspace_routine_is_address_gsn_root, netspace_routine_is_registered, NetspaceFailure,
    NetspaceIo,
};
use springnode::node::{Node, NodeRole, NodeService, NodeState};

fn seed(ns: &mut NetspaceIo) {
    let a = Node::new(
        "esusx",
        "greenman.zu",
        "192.168.1.1",
        NodeService::Dvsp,
        NodeState::Enabled,
        NodeRole::Org,
    );
    ns.gsn_node_register(&a).unwrap();
    ns.gsn_node_update_state(&a).unwrap();
    let b = Node::new(
        "cci",
        "dvsnode.greenman.zu",
        "192.168.1.2",
        NodeService::Http,
        NodeState::Enabled,
        NodeRole::Hub,
    );
    ns.gsn_node_register(&b).unwrap();
    ns.gsn_node_update_state(&b).unwrap();
    let ga = Node::new(
        "springa",
        "greenman",
        "192.168.1.2",
        NodeService::Dvsp,
        NodeState::Unspecified,
        NodeRole::Undefined,
    );
    ns.gtn_geosub_register_node_at(&ga, "esusx", 2).unwrap();
    let gb = Node::new(
        "springb",
        "blueman",
        "192.168.1.3",
        NodeService::Http,
        NodeState::Unspecified,
        NodeRole::Undefined,
    );
    ns.gtn_geosub_register_node_at(&gb, "esusx", 1).unwrap();
    ns.gsn_add_token("3858f62230ac3c915f300c664312c63f", "");
}

fn setup_netspace() -> NetspaceIo {
    let mut ns = NetspaceIo::new();
    seed(&mut ns);
    ns
}

#[test]
fn ts_netspaceio_gsn_nodes() {
    let nsio = setup_netspace();
    let v = nsio.gsn_nodes();
    assert_eq!(2, v.len());
}

#[test]
fn ts_netspaceio_gsn_nodes_by_address_p() {
    let nsio = setup_netspace();
    let v = nsio.gsn_nodes_by_address("192.168.1.1");
    assert_eq!(1, v.len());
    assert_eq!("192.168.1.1", v[0].address());
}

#[test]
fn ts_netspaceio_gsn_nodes_by_address_f() {
    let nsio = setup_netspace();
    let v = nsio.gsn_nodes_by_address("192.168.1.3");
    assert_eq!(0, v.len());
}

#[test]
fn ts_netspaceio_gsn_nodes_by_type_p() {
    let nsio = setup_netspace();
    let v = nsio.gsn_nodes_by_type(NodeRole::Hub);
    assert_eq!(1, v.len());
    assert_eq!(NodeRole::Hub, v[0].role());
}

#[test]
fn ts_netspaceio_gsn_nodes_by_type_f() {
    let nsio = setup_netspace();
    let v = nsio.gsn_nodes_by_type(NodeRole::Undefined);
    assert_eq!(0, v.len());
}

#[test]
fn ts_netspaceio_gsn_nodes_by_state_p() {
    let nsio = setup_netspace();
    let v = nsio.gsn_nodes_by_state(NodeState::Enabled);
    assert_eq!(2, v.len());
    assert_eq!(NodeState::Enabled, v[0].state());
}

#[test]
fn ts_netspaceio_gsn_nodes_by_state_f() {
    let nsio = setup_netspace();
    let v = nsio.gsn_nodes_by_state(NodeState::Unresponsive);
    assert_eq!(0, v.len());
}

#[test]
fn ts_netspaceio_gsn_nodes_by_springname_p() {
    let nsio = setup_netspace();
    let r = nsio.gsn_node_by_springname("esusx");
    assert!(r.is_ok());
    assert_eq!("esusx", r.unwrap().springname());
}

#[test]
fn ts_netspaceio_gsn_nodes_by_springname_f() {
    let nsio = setup_netspace();
    let r = nsio.gsn_node_by_springname("morrowind");
    assert!(r.is_err());
}

#[test]
fn ts_netspaceio_gsn_nodes_by_hostname_p() {
    let nsio = setup_netspace();
    let r = nsio.gsn_node_by_hostname("greenman.zu");
    assert!(r.is_ok());
    assert_eq!("greenman.zu", r.unwrap().hostname());
}

#[test]
fn ts_netspaceio_gsn_nodes_by_hostname_f() {
    let nsio = setup_netspace();
    let r = nsio.gsn_node_by_hostname("morrowind");
    assert!(r.is_err());
}

#[test]
fn ts_netspaceio_gsn_node_by_register_p() {
    let mut nsio = setup_netspace();
    let r = nsio.gsn_node_register(&Node::from_str("spring,host,192.172.1.1").unwrap());
    assert!(r.is_ok());
    let r2 = nsio.gsn_node_by_springname("spring");
    assert!(r2.is_ok());
    let node = r2.unwrap();
    assert_eq!("host", node.hostname());
}

#[test]
fn ts_netspaceio_gsn_node_by_register_f() {
    let mut nsio = setup_netspace();
    let r = nsio.gsn_node_register(&Node::from_str("esusx,host,192.172.1.1").unwrap());
    assert!(r.is_err());
    let e = r.unwrap_err();
    assert_eq!(NetspaceFailure::DuplicateNode, e);
}

#[test]
fn ts_netspaceio_gsn_node_by_unregister_p() {
    let mut nsio = setup_netspace();
    let r = nsio.gsn_node_unregister(&Node::from_str("cci,host,192.172.1.1").unwrap());
    assert!(r.is_ok());
    let r2 = nsio.gsn_node_by_springname("cci");
    assert!(r2.is_err());
}

#[test]
fn ts_netspaceio_gsn_node_by_unregister_f() {
    let mut nsio = setup_netspace();
    let r = nsio.gsn_node_unregister(&Node::from_str("nonname,host,192.172.1.1").unwrap());
    assert!(r.is_err());
    assert_eq!(NetspaceFailure::NodeNotFound, r.unwrap_err());
}

#[test]
fn ts_netspaceio_gsn_node_update_state_p() {
    let mut nsio = setup_netspace();
    let mut n = Node::from_str("cci").unwrap();
    n.update_state(NodeState::Unresponsive);
    let r = nsio.gsn_node_update_state(&n);
    assert!(r.is_ok());
    let node = nsio.gsn_node_by_springname("cci").unwrap();
    assert_eq!(NodeState::Unresponsive, node.state());
}

#[test]
fn ts_netspaceio_gsn_node_update_state_f() {
    let mut nsio = setup_netspace();
    let mut n = Node::from_str("ccid").unwrap();
    n.update_state(NodeState::Unresponsive);
    let r = nsio.gsn_node_update_state(&n);
    assert!(r.is_err());
    assert_eq!(NetspaceFailure::NodeNotFound, r.unwrap_err());
}

#[test]
fn ts_netspaceio_gsn_node_update_role_p() {
    let mut nsio = setup_netspace();
    let mut n = Node::from_str("cci").unwrap();
    n.update_role(NodeRole::Undefined);
    let r = nsio.gsn_node_update_role(&n);
    assert!(r.is_ok());
    let node = nsio.gsn_node_by_springname("cci").unwrap();
    assert_eq!(NodeRole::Undefined, node.role());
}

#[test]
fn ts_netspaceio_gsn_node_update_role_f() {
    let mut nsio = setup_netspace();
    let mut n: Node = Node::from_str("ccid").unwrap();
    n.update_role(NodeRole::Undefined);
    let r = nsio.gsn_node_update_role(&n);
    assert!(r.is_err());
    assert_eq!(NetspaceFailure::NodeNotFound, r.unwrap_err());
}

#[test]
fn ts_netspaceio_gsn_node_update_service_p() {
    let mut nsio = setup_netspace();
    let mut n = Node::from_str("cci").unwrap();
    n.update_service(NodeService::Undefined);
    let r = nsio.gsn_node_update_service(&n);
    assert!(r.is_ok());
    let node = nsio.gsn_node_by_springname("cci").unwrap();
    assert_eq!(NodeService::Undefined, node.service());
}

#[test]
fn ts_netspaceio_gsn_node_update_service_f() {
    let mut nsio = setup_netspace();
    let mut n = Node::from_str("ccid").unwrap();
    n.update_service(NodeService::Undefined);
    let r = nsio.gsn_node_update_service(&n);
    assert!(r.is_err());
    assert_eq!(NetspaceFailure::NodeNotFound, r.unwrap_err());
}

#[test]
fn ts_netspaceio_gtn_geosub_root_nodes_p() {
    let nsio = setup_netspace();
    let v = nsio.gtn_geosub_root_nodes("esusx");
    assert_eq!(2, v.len());
    assert_eq!("springb", v[0].springname());
    assert_eq!("192.168.1.3", v[0].address());
    assert_eq!(NodeService::Http, v[0].service());
    assert_eq!("greenman", v[1].hostname());
    assert_eq!("192.168.1.2", v[1].address());
    assert_eq!(NodeService::Dvsp, v[1].service());
}

#[test]
fn ts_netspaceio_gtn_geosub_root_nodes_f() {
    let nsio = setup_netspace();
    let v = nsio.gtn_geosub_root_nodes("void");
    assert_eq!(0, v.len());
}

#[test]
fn ts_netspaceio_gtn_geosub_node_by_springname_p() {
    let nsio = setup_netspace();
    let r = nsio.gtn_geosub_node_by_springname("springb", "esusx");
    assert!(r.is_ok());
    assert_eq!("springb", r.unwrap().springname());
}

#[test]
fn ts_netspaceio_gtn_geosub_node_by_springname_f() {
    let nsio = setup_netspace();
    let r = nsio.gtn_geosub_node_by_springname("springc", "esusx");
    assert!(r.is_err());
}

#[test]
fn ts_netspaceio_gtn_geosub_register_node_p() {
    let mut nsio = setup_netspace();
    let mut node = Node::from_str("springz,hostz,192.168.172.1").unwrap();
    node.update_service(NodeService::Dvsp);
    assert!(nsio.gtn_geosub_register_node(&node, "testnet").is_ok());
    let r = nsio.gtn_geosub_node_by_springname("springz", "testnet");
    assert!(r.is_ok());
    let n = r.unwrap();
    assert_eq!("springz", n.springname());
    assert_eq!("192.168.172.1", n.address());
    assert_eq!(NodeService::Dvsp, n.service());
}

#[test]
fn ts_netspaceio_gtn_geosub_register_node_f() {
    let mut nsio = setup_netspace();
    let node = Node::from_str("springb,hostz,192.168.172.1").unwrap();
    assert!(nsio.gtn_geosub_register_node(&node, "esusx").is_err());
}

#[test]
fn ts_netspaceio_gtn_geosub_unregister_node_p() {
    let mut nsio = setup_netspace();
    let node = Node::from_str("springa").unwrap();
    let r = nsio.gtn_geosub_unregister_node(&node, "esusx");
    assert!(r.is_ok());
    assert!(nsio.gtn_geosub_node_by_springname("springc", "esusx").is_err());
}

#[test]
fn ts_netspaceio_gtn_geosub_unregister_node_f() {
    let mut nsio = setup_netspace();
    let node = Node::from_str("springc").unwrap();
    assert!(nsio.gtn_geosub_unregister_node(&node, "esusx").is_err());
    assert!(nsio.gtn_geosub_unregister_node(&node, "esusxs").is_err());
}

#[test]
fn ts_netspace_routine_is_registered_p() {
    let nsio = setup_netspace();
    let n = Node::from_str("cci").unwrap();
    assert!(netspace_routine_is_registered(&n, &nsio));
}

#[test]
fn ts_netspace_routine_is_registered_f() {
    let nsio = setup_netspace();
    let n = Node::from_str("ccid,dvsnode.greenman.zus,192.168.1.2").unwrap();
    assert_eq!(false, netspace_routine_is_registered(&n, &nsio));
}

#[test]
fn ts_netspace_routine_check_token_p() {
    let nsio = setup_netspace();
    assert!(nsio.gsn_check_token("3858f62230ac3c915f300c664312c63f"));
}

#[test]
fn ts_netspace_routine_check_token_f() {
    let nsio = setup_netspace();
    assert!(nsio.gsn_check_token("3858f62230ac3c915f300c66432c63f1") == false);
}

#[test]
fn ts_netspace_routine_is_address_gsn_root_p() {
    let nsio = setup_netspace();
    assert!(netspace_routine_is_address_gsn_root("192.168.1.2", "esusx", &nsio));
}

#[test]
fn ts_netspace_routine_is_address_gsn_root_f() {
    let nsio = setup_netspace();
    let addr = "192.168.1.8";
    assert_eq!(false, netspace_routine_is_address_gsn_root(&addr, "esusx", &nsio));
    assert_eq!(false, netspace_routine_is_address_gsn_root(&addr, "esusxs", &nsio));
}

#[test]
fn ts_netspaceio_gtn_geosubs_p() {
    let nsio = setup_netspace();
    Node::from_str("springa").unwrap();
    assert_eq!(nsio.gtn_geosubs().len(), 1);
    assert_eq!(nsio.gtn_geosubs()[0], "esusx");
}

#[test]
fn registered_node_always_starts_disabled() {
    let mut nsio = NetspaceIo::new();
    let n = Node::new(
        "fresh",
        "host",
        "10.0.0.1",
        NodeService::Dvsp,
        NodeState::Enabled,
        NodeRole::Hub,
    );
    nsio.gsn_node_register(&n).unwrap();
    assert_eq!(NodeState::Disabled, nsio.gsn_node_by_springname("fresh").unwrap().state());
}

#[test]
fn unregister_then_lookup_fails() {
    let mut nsio = NetspaceIo::new();
    let n = Node::new("gone", "h", "10.0.0.2", NodeService::Http, NodeState::Enabled, NodeRole::Org);
    nsio.gsn_node_register(&n).unwrap();
    assert!(nsio.gsn_node_by_springname("gone").is_ok());
    nsio.gsn_node_unregister(&n).unwrap();
    match nsio.gsn_node_by_springname("gone") {
        Err(e) => assert_eq!(NetspaceFailure::NodeNotFound, e),
        Ok(_) => panic!("the unregistered record must be gone"),
    }
}

#[test]
fn duplicate_register_keeps_first_record() {
    let mut nsio = NetspaceIo::new();
    let first = Node::new("twin", "one", "10.0.0.3", NodeService::Dvsp, NodeState::Enabled,
        NodeRole::Org);
    let second = Node::new("twin", "two", "10.0.0.4", NodeService::Http, NodeState::Enabled,
        NodeRole::Hub);
    assert!(nsio.gsn_node_register(&first).is_ok());
    assert_eq!(NetspaceFailure::DuplicateNode, nsio.gsn_node_register(&second).unwrap_err());
    let kept = nsio.gsn_node_by_springname("twin").unwrap();
    assert_eq!("one", kept.hostname());
    assert_eq!("10.0.0.3", kept.address());
}

#[test]
fn delegated_records_come_out_by_priority() {
    let mut nsio = NetspaceIo::new();
    let hi = Node::new("hi", "h", "10.0.1.1", NodeService::Dvsp, NodeState::Enabled, NodeRole::Hub);
    let lo = Node::new("lo", "h", "10.0.1.2", NodeService::Dvsp, NodeState::Enabled, NodeRole::Hub);
    let mid = Node::new("mid", "h", "10.0.1.3", NodeService::Dvsp, NodeState::Enabled,
        NodeRole::Hub);
    nsio.gtn_geosub_register_node_at(&hi, "zone", 9).unwrap();
    nsio.gtn_geosub_register_node_at(&lo, "zone", 1).unwrap();
    nsio.gtn_geosub_register_node_at(&mid, "zone", 5).unwrap();
    let roots = nsio.gtn_geosub_root_nodes("zone");
    assert_eq!(3, roots.len());
    assert_eq!("lo", roots[0].springname());
    assert_eq!("mid", roots[1].springname());
    assert_eq!("hi", roots[2].springname());
}
