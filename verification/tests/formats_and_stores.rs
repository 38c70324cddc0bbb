//! Textual formats, the wire grammar, the aggregator, the keyring and the
//! console models on concrete values.

use springnode::chain::{Chain, NetworkFailure};
use springnode::management::validation::ValidationZoneModel;
use springnode::management::{ManagementInstance, ValidationOperand};
use springnode::message::{
    CmdType, Message, MessageContent, NodeProperty, Response, ResponseContent,
};
use springnode::netservice::cert::keyring::{Certificate, Keyring};
use springnode::netservice::cert::manager::ZoneModel;
use springnode::netspace::NetspaceIo;
use springnode::node::{Node, NodeRole, NodeService, NodeState, ParseFailure};
use springnode::requests::{aggregate_responses, multicast_message};
use springnode::text::{join_str, parse_dec, split_str, str_eq, u64_to_dec};
use springnode::uri::Uri;

#[test]
fn text_split_and_join() {
    let parts = split_str("a,b,,c", ',');
    assert_eq!(parts, vec!["a", "b", "", "c"]);
    assert_eq!(join_str(&parts, ","), "a,b,,c");
    assert_eq!(split_str("", ';'), vec![""]);
    assert!(str_eq("same", "same"));
    assert!(!str_eq("same", "sane"));
}

#[test]
fn text_decimal_round_trip() {
    assert_eq!(u64_to_dec(0), "0");
    assert_eq!(u64_to_dec(12345), "12345");
    assert_eq!(parse_dec("42"), Some(42));
    assert_eq!(parse_dec("0"), Some(0));
    assert_eq!(parse_dec(""), None);
    assert_eq!(parse_dec("4x2"), None);
    assert_eq!(parse_dec(&u64_to_dec(u64::MAX)), Some(u64::MAX));
}

#[test]
fn uri_parses_route_suffix_res_and_query() {
    let u = Uri::new("spring://cci.esusx.uk/cert/key/?__meta=outcode&x=1").unwrap();
    assert_eq!(u.route(), &vec!["cci", "esusx", "uk"]);
    assert_eq!(u.gtn(), "uk");
    assert_eq!(u.res_index(0), Some("cert"));
    assert_eq!(u.res_index(1), Some("key"));
    assert_eq!(u.res_index(2), None);
    assert_eq!(u.query_param("__meta"), Some(String::from("outcode")));
    assert_eq!(u.query_param("x"), Some(String::from("1")));
    assert_eq!(u.query_param("y"), None);
}

#[test]
fn uri_rejects_bad_shapes() {
    assert!(Uri::new("http://cci.esusx.uk").is_err());
    assert!(Uri::new("spring://a..b").is_err());
    assert!(Uri::new("spring:/x").is_err());
}

#[test]
fn uri_route_pops_to_text() {
    let mut u = Uri::new("spring://di.shire.uk").unwrap();
    u.route_mut().pop();
    assert_eq!(u.to_string(), "spring://di.shire");
    u.route_mut().pop();
    assert_eq!(u.to_string(), "spring://di");
}

#[test]
fn message_round_trips_requests() {
    for s in [
        "register spring,host;org;http;3858f62230ac3c915f300c664312c63f",
        "unregister spring",
        "info node foo hostname",
        "info network",
        "update foo state unresponsive",
        "resolve spring://cci.esusx.uk",
    ] {
        let m = Message::from_bytes(s.as_bytes()).unwrap();
        assert_eq!(m.to_bytes(), s.as_bytes().to_vec(), "round trip of `{}`", s);
    }
}

#[test]
fn message_parses_register_content() {
    let m = Message::from_bytes(b"register spring,host;org;http;tok").unwrap();
    assert_eq!(m.cmd, CmdType::Register);
    match m.content {
        MessageContent::Registration(r) => {
            assert_eq!(r.spring, "spring");
            assert_eq!(r.host, "host");
            assert_eq!(r.role, NodeRole::Org);
            assert_eq!(r.service, NodeService::Http);
            assert_eq!(r.token, "tok");
        },
        _ => panic!("expected registration content"),
    }
}

#[test]
fn message_parses_bare_response_codes() {
    let m = Message::from_bytes(b"200").unwrap();
    assert_eq!(m.cmd, CmdType::Response);
    match m.content {
        MessageContent::Response(cr) => {
            assert_eq!(cr.code, Response::Okay);
            assert!(matches!(cr.content, ResponseContent::Empty));
        },
        _ => panic!("expected response content"),
    }
    let m = Message::from_bytes(b"104").unwrap();
    match m.content {
        MessageContent::Response(cr) => assert_eq!(cr.code, Response::MalformedContent),
        _ => panic!("expected response content"),
    }
}

#[test]
fn message_parses_payload_with_length_check() {
    let m = Message::from_bytes(b"200 5 service/text hello").unwrap();
    match m.content {
        MessageContent::Response(cr) => {
            assert_eq!(cr.code, Response::Okay);
            match cr.content {
                ResponseContent::ServiceText(t) => assert_eq!(t.content, "hello"),
                _ => panic!("expected service text"),
            }
        },
        _ => panic!("expected response content"),
    }
    assert!(Message::from_bytes(b"200 9 service/text hello").is_err());
    assert!(Message::from_bytes(b"garbled nonsense").is_err());
    match Message::from_bytes(b"register ,;x;y;z") {
        Err(e) => assert_eq!(e, ParseFailure::Malformed),
        Ok(_) => panic!("an empty springname must not register"),
    }
}

#[test]
fn message_renders_node_info_payload() {
    let m = Message::from_bytes(b"200 34 node cci,host,10.0.0.9,http,enabled,hub").unwrap();
    let out = m.to_bytes();
    assert_eq!(out, b"200 34 node cci,host,10.0.0.9,http,enabled,hub".to_vec());
}

struct FlakyChain {
    fail: bool,
}

impl Chain for FlakyChain {
    fn request(&self, _bytes: &Vec<u8>, target: &Node) -> Result<Vec<u8>, NetworkFailure> {
        if self.fail {
            Err(NetworkFailure::TimedOut)
        } else {
            let mut reply = String::from("200 ");
            let body = format!("pong-{}", target.springname());
            reply.push_str(&body.len().to_string());
            reply.push_str(" service/text ");
            reply.push_str(&body);
            Ok(reply.into_bytes())
        }
    }
}

fn two_node_space() -> NetspaceIo {
    let mut ns = NetspaceIo::new();
    for name in ["alpha", "beta"] {
        let n = Node::new(name, "h", "10.1.0.1", NodeService::Dvsp, NodeState::Enabled,
            NodeRole::Org);
        ns.gsn_node_register(&n).unwrap();
    }
    ns
}

#[test]
fn aggregator_merges_service_texts_in_target_order() {
    let ns = two_node_space();
    let mut uri = Uri::new("spring://whatever.uk/echo/").unwrap();
    let m = multicast_message(&ns.gsn_nodes(), &mut uri, &FlakyChain { fail: false });
    match m.content {
        MessageContent::Response(cr) => {
            assert_eq!(cr.code, Response::Okay);
            match cr.content {
                ResponseContent::ServiceMulti(t) => {
                    assert_eq!(t.content, "pong-alpha;pong-beta");
                },
                _ => panic!("expected service/multi"),
            }
        },
        _ => panic!("expected a response"),
    }
}

#[test]
fn aggregator_all_failures_give_empty_envelope() {
    let ns = two_node_space();
    let mut uri = Uri::new("spring://whatever.uk/echo/").unwrap();
    let m = multicast_message(&ns.gsn_nodes(), &mut uri, &FlakyChain { fail: true });
    let empty = aggregate_responses(&Vec::new());
    assert_eq!(m.to_bytes(), empty.to_bytes());
    assert_eq!(m.to_bytes(), b"200 0 service/multi ".to_vec());
}

#[test]
fn keyring_import_replaces_by_keyid() {
    let mut kr = Keyring::new();
    let a = Certificate::new("ann", "ann@example.test", "KEY1", vec![], "armor-a");
    let b = Certificate::new("bob", "bob@example.test", "KEY2", vec![], "armor-b");
    let a2 = Certificate::new("ann-next", "ann@example.test", "KEY1", vec![], "armor-c");
    assert!(kr.import(&a));
    assert!(kr.import(&b));
    assert!(kr.import(&a2));
    assert_eq!(kr.listing().len(), 2);
    assert_eq!(kr.with_keyid("KEY1").unwrap().name(), "ann-next");
    assert_eq!(kr.with_name("bob").unwrap().keyid(), "KEY2");
    assert!(kr.remove_keyid("KEY1"));
    assert!(kr.with_keyid("KEY1").is_none());
    assert_eq!(kr.listing().len(), 1);
}

#[test]
fn cert_import_rejects_incomplete_certificates() {
    let mut kr = Keyring::new();
    let bad = Certificate::new("", "x@example.test", "KEYX", vec![], "armor");
    let out = ZoneModel::import_certificate(&mut kr, &bad);
    assert_eq!(out, "Error: Received malformed certificate");
    assert_eq!(kr.listing().len(), 0);
    let good = Certificate::new("carol", "c@example.test", "KEYX", vec![], "armor");
    let out = ZoneModel::import_certificate(&mut kr, &good);
    assert_eq!(out, "Imported certificate for `carol`\n");
    assert_eq!(kr.listing().len(), 1);
}

#[test]
fn config_reads_last_value_of_key() {
    let cfg = springnode::config::Config::from_text("a=1\nb=2\nnot a pair\na=3");
    assert_eq!(cfg.get_key("a"), "3");
    assert_eq!(cfg.get_key("b"), "2");
    assert_eq!(cfg.get_key("missing"), "");
}

#[test]
fn validation_model_round_trip() {
    let mut ns = NetspaceIo::new();
    let added = ValidationZoneModel::add(
        ValidationOperand::Token("abc".to_string()),
        ValidationOperand::Node("foo".to_string()),
        &mut ns,
    );
    assert_eq!(added, Some("Added token abc for foo\n".to_string()));
    assert!(ns.gsn_check_token("abc"));
    let removed = ValidationZoneModel::remove(ValidationOperand::Token("abc".to_string()), &mut ns);
    assert_eq!(removed, Some("Removed token abc\n".to_string()));
    assert!(!ns.gsn_check_token("abc"));
}

#[test]
fn console_view_draws_token_table() {
    let mut ns = NetspaceIo::new();
    ns.gsn_add_token("tok-one", "alpha");
    let mi = ManagementInstance::new();
    let out = mi.run("validation view all", &mut ns).unwrap();
    assert!(out.contains("_token_"), "headings missing from {:?}", out);
    assert!(out.contains("tok-one"), "token missing from {:?}", out);
    assert!(out.contains("alpha"), "springname missing from {:?}", out);
}

#[test]
fn console_update_reports_old_and_new_value() {
    let mut ns = NetspaceIo::new();
    let n = Node::new("foo", "h", "10.2.0.1", NodeService::Dvsp, NodeState::Enabled, NodeRole::Org);
    ns.gsn_node_register(&n).unwrap();
    let mi = ManagementInstance::new();
    let out = mi.run("network update node foo state enabled", &mut ns).unwrap();
    assert_eq!(out, "Updated foo state: disabled -> enabled\n");
    assert_eq!(NodeState::Enabled, ns.gsn_node_by_springname("foo").unwrap().state());
}

#[test]
fn node_parses_both_textual_forms() {
    let kv = Node::from_str("spring:cci,host:a.b,address:10.0.0.1,role:hybrid,service:dvsp,state:enabled")
        .unwrap();
    assert_eq!(kv.springname(), "cci");
    assert_eq!(kv.role(), NodeRole::Hybrid);
    assert_eq!(kv.service(), NodeService::Dvsp);
    assert_eq!(kv.state(), NodeState::Enabled);
    let pos = Node::from_str("name,hostish,10.0.0.2").unwrap();
    assert_eq!(pos.springname(), "name");
    assert_eq!(pos.hostname(), "hostish");
    assert_eq!(pos.address(), "10.0.0.2");
    assert!(Node::from_str("").is_err());
    assert!(Node::from_str("spring:x,role:emperor").is_err());
    assert_eq!(kv.to_node_double(), "cci,a.b");
}

#[test]
fn info_request_builds_property_query() {
    let m = Message::from_bytes(b"info node foo all").unwrap();
    match m.content {
        MessageContent::Info(springnode::message::InfoContent::Node(np)) => {
            assert_eq!(np.spring, "foo");
            assert!(matches!(np.property, NodeProperty::All));
        },
        _ => panic!("expected an info-node content"),
    }
}
