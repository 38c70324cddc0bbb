//! Parsing of management-console commands into zones.

use springnode::management::{ManagementZone, NetworkAction, NetworkOperand, NetworkZone};
use springnode::management::{ServiceAction, ServiceOperand, ServiceZone};
use springnode::management::{ValidationAction, ValidationOperand, ValidationZone};
use springnode::netservice::Module;

fn network_zone(msg: &str) -> NetworkZone {
    match ManagementZone::from_str(msg) {
        Some(ManagementZone::Network(z)) => z,
        other => panic!("expected a network zone, got {:?}", other),
    }
}

fn validation_zone(msg: &str) -> ValidationZone {
    match ManagementZone::from_str(msg) {
        Some(ManagementZone::Validation(z)) => z,
        other => panic!("expected a validation zone, got {:?}", other),
    }
}

fn service_zone(msg: &str) -> ServiceZone {
    match ManagementZone::from_str(msg) {
        Some(ManagementZone::Service(z)) => z,
        other => panic!("expected a service zone, got {:?}", other),
    }
}

#[test]
fn ts_network_view_all_p() {
    let nz = network_zone("network view all");
    assert_eq!(nz.action, NetworkAction::View);
    assert_eq!(nz.op1, NetworkOperand::All);
}

#[test]
fn ts_network_view_node_p() {
    let nz = network_zone("network view node foo");
    assert_eq!(nz.action, NetworkAction::View);
    assert_eq!(nz.op1, NetworkOperand::Node(String::from("foo")));
}

#[test]
fn ts_network_view_spring_p() {
    let nz = network_zone("network view springname foo");
    assert_eq!(nz.action, NetworkAction::View);
    assert_eq!(nz.op1, NetworkOperand::Node(String::from("foo")));
}

#[test]
fn ts_network_view_role_p() {
    let nz = network_zone("network view role hybrid");
    assert_eq!(nz.action, NetworkAction::View);
    assert_eq!(nz.op1, NetworkOperand::Role(springnode::node::NodeRole::Hybrid));
}

#[test]
fn ts_network_view_state_p() {
    let nz = network_zone("network view state unresponsive");
    assert_eq!(nz.action, NetworkAction::View);
    assert_eq!(nz.op1, NetworkOperand::State(springnode::node::NodeState::Unresponsive));
}

#[test]
fn ts_network_view_service_p() {
    let nz = network_zone("network view service http");
    assert_eq!(nz.action, NetworkAction::View);
    assert_eq!(nz.op1, NetworkOperand::Service(springnode::node::NodeService::Http));
}

#[test]
fn ts_network_view_address_p() {
    let nz = network_zone("network view address 127.0.0.1");
    assert_eq!(nz.action, NetworkAction::View);
    assert_eq!(nz.op1, NetworkOperand::Address(String::from("127.0.0.1")));
}

#[test]
fn ts_network_view_host_p() {
    let nz = network_zone("network view hostname foo.bar");
    assert_eq!(nz.action, NetworkAction::View);
    assert_eq!(nz.op1, NetworkOperand::Host(String::from("foo.bar")));
}

#[test]
fn ts_network_update_node_spring_p() {
    let nz = network_zone("network update node foo springname bar");
    assert_eq!(nz.action, NetworkAction::Update);
    assert_eq!(nz.op1, NetworkOperand::Node(String::from("foo")));
    assert_eq!(nz.op2, NetworkOperand::Node(String::from("bar")));
}

#[test]
fn ts_network_update_node_state_p() {
    let nz = network_zone("network update node foo state disabled");
    assert_eq!(nz.action, NetworkAction::Update);
    assert_eq!(nz.op1, NetworkOperand::Node(String::from("foo")));
    assert_eq!(nz.op2, NetworkOperand::State(springnode::node::NodeState::Disabled));
}

#[test]
fn ts_network_update_role_service_p() {
    let nz = network_zone("network update role org service dvsp");
    assert_eq!(nz.action, NetworkAction::Update);
    assert_eq!(nz.op1, NetworkOperand::Role(springnode::node::NodeRole::Org));
    assert_eq!(nz.op2, NetworkOperand::Service(springnode::node::NodeService::Dvsp));
}

#[test]
fn management_ts_validation_view_all_p() {
    let vz = validation_zone("validation view all");
    assert_eq!(vz.action, ValidationAction::View);
    assert_eq!(vz.op1, ValidationOperand::All);
    assert_eq!(vz.op2, ValidationOperand::Nil);
}

#[test]
fn management_ts_validation_view_token_p() {
    let vz = validation_zone("validation view token abc");
    assert_eq!(vz.action, ValidationAction::View);
    assert_eq!(vz.op1, ValidationOperand::Token("abc".to_string()));
    assert_eq!(vz.op2, ValidationOperand::Nil);
}

#[test]
fn management_ts_validation_add_token_springname_p() {
    let vz = validation_zone("validation add token abc springname foo");
    assert_eq!(vz.action, ValidationAction::Add);
    assert_eq!(vz.op1, ValidationOperand::Token("abc".to_string()));
    assert_eq!(vz.op2, ValidationOperand::Node("foo".to_string()));
}

#[test]
fn management_ts_validation_add_token_node_p() {
    let vz = validation_zone("validation add token abc node foo");
    assert_eq!(vz.action, ValidationAction::Add);
    assert_eq!(vz.op1, ValidationOperand::Token("abc".to_string()));
    assert_eq!(vz.op2, ValidationOperand::Node("foo".to_string()));
}

#[test]
fn management_ts_validation_remove_token_p() {
    let vz = validation_zone("validation remove token abc");
    assert_eq!(vz.action, ValidationAction::Remove);
    assert_eq!(vz.op1, ValidationOperand::Token("abc".to_string()));
    assert_eq!(vz.op2, ValidationOperand::Nil);
}

#[test]
fn ts_service_init_module_cert_p() {
    let sz = service_zone("service init module cert");
    assert_eq!(sz.action, ServiceAction::Init);
    assert_eq!(sz.op1, ServiceOperand::Module(Module::Cert));
}

#[test]
fn validation_ts_validation_view_all_p() {
    let vz = validation_zone("validation view all");
    assert_eq!(vz.action, ValidationAction::View);
    assert_eq!(vz.op1, ValidationOperand::All);
    assert_eq!(vz.op2, ValidationOperand::Nil);
}

#[test]
fn validation_ts_validation_view_token_p() {
    let vz = validation_zone("validation view token abc");
    assert_eq!(vz.action, ValidationAction::View);
    assert_eq!(vz.op1, ValidationOperand::Token("abc".to_string()));
    assert_eq!(vz.op2, ValidationOperand::Nil);
}

#[test]
fn validation_ts_validation_add_token_springname_p() {
    let vz = validation_zone("validation add token abc springname foo");
    assert_eq!(vz.action, ValidationAction::Add);
    assert_eq!(vz.op1, ValidationOperand::Token("abc".to_string()));
    assert_eq!(vz.op2, ValidationOperand::Node("foo".to_string()));
}

#[test]
fn validation_ts_validation_add_token_node_p() {
    let vz = validation_zone("validation add token abc node foo");
    assert_eq!(vz.action, ValidationAction::Add);
    assert_eq!(vz.op1, ValidationOperand::Token("abc".to_string()));
    assert_eq!(vz.op2, ValidationOperand::Node("foo".to_string()));
}

#[test]
fn validation_ts_validation_remove_token_p() {
    let vz = validation_zone("validation remove token abc");
    assert_eq!(vz.action, ValidationAction::Remove);
    assert_eq!(vz.op1, ValidationOperand::Token("abc".to_string()));
    assert_eq!(vz.op2, ValidationOperand::Nil);
}

#[test]
fn zone_abbreviations_parse() {
    let nz = network_zone("net view all");
    assert_eq!(nz.action, NetworkAction::View);
    let vz = validation_zone("val rem token abc");
    assert_eq!(vz.action, ValidationAction::Remove);
    let sz = service_zone("ser init all");
    assert_eq!(sz.op1, ServiceOperand::All);
}

#[test]
fn zone_rejects_malformed() {
    assert!(ManagementZone::from_str("").is_none());
    assert!(ManagementZone::from_str("bogus view all").is_none());
    assert!(ManagementZone::from_str("network frobnicate all").is_none());
    assert!(ManagementZone::from_str("network view role dragon").is_none());
    assert!(ManagementZone::from_str("validation add token").is_none());
}
