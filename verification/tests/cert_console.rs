//! The certificate console commands and the node's own bootstrap record.

use springnode::config::Config;
use springnode::netservice::cert::keyring::{Certificate, Keyring};
use springnode::netservice::cert::manager::{
    Action, Operand, ProcessOutcome, Zone, ZoneModel,
};
use springnode::netservice::Module;
use springnode::netspace::{netspace_add_self, NetspaceIo};
use springnode::node::{NodeRole, NodeService, NodeState};

fn words(s: &str) -> Vec<String> {
    s.split(' ').map(String::from).collect()
}

#[test]
fn cert_zone_parses_actions_and_operands() {
    let z = Zone::parse(&words("view all")).unwrap();
    assert_eq!(z.action, Action::View);
    assert_eq!(z.op1, Operand::All);
    let z = Zone::parse(&words("rem key KEY9")).unwrap();
    assert_eq!(z.action, Action::Remove);
    assert_eq!(z.op1, Operand::Key("KEY9".to_string()));
    let z = Zone::parse(&words("imp cert lines of armored text")).unwrap();
    assert_eq!(z.action, Action::Import);
    assert_eq!(z.op1, Operand::Certificate("lines of armored text".to_string()));
    assert!(Zone::parse(&words("dance all")).is_none());
    assert!(Zone::parse(&words("view name")).is_none());
}

#[test]
fn cert_import_command_asks_for_the_fetch() {
    let mut kr = Keyring::new();
    let z = Zone::parse(&words("import cert some key text")).unwrap();
    match Zone::process(z, &mut kr) {
        ProcessOutcome::FetchCertificate(k) => assert_eq!(k, "some key text"),
        ProcessOutcome::Done(s) => panic!("expected a fetch request, got report {:?}", s),
    }
    assert_eq!(kr.listing().len(), 0);
}

#[test]
fn cert_view_formats_signatures_with_known_names() {
    let mut kr = Keyring::new();
    let signer = Certificate::new("signer", "s@example.test", "KEYS", vec![], "armor-s");
    kr.import(&signer);
    let cert = Certificate::new(
        "carol",
        "c@example.test",
        "KEYC",
        vec!["KEYS".to_string(), "KEYX".to_string()],
        "armor-c",
    );
    kr.import(&cert);
    let out = ZoneModel::view_with_id("KEYC", &kr);
    assert_eq!(
        out,
        "Name:\n\tcarol\n\nEmail:\n\tc@example.test\n\nKeyID:\n\tKEYC\n\nSignatures:\n\tKEYS (signer)\n\tKEYX (unknown)\n\n\narmor-c",
    );
    assert_eq!(ZoneModel::view_with_id("KEYZ", &kr), "Error: Could not find certificate\n");
}

#[test]
fn cert_listing_draws_table() {
    let mut kr = Keyring::new();
    kr.import(&Certificate::new("dave", "d@example.test", "KEYD", vec![], "armor-d"));
    let out = ZoneModel::view_listing(&kr);
    assert!(out.contains("_name_"));
    assert!(out.contains("dave"));
    assert!(out.contains("KEYD"));
}

#[test]
fn module_names_parse() {
    assert_eq!(Module::from_str("cert"), Some(Module::Cert));
    assert_eq!(Module::from_str("geo"), None);
}

#[test]
fn bootstrap_enters_own_record_in_both_spaces() {
    let cfg = Config::from_text(
        "springname=foohub\nhostname=barhub.zni.lan\ngeosub=esusx\naddress=127.0.0.1",
    );
    let mut ns = NetspaceIo::new();
    netspace_add_self(&mut ns, &cfg);
    let own = ns.gsn_node_by_springname("foohub").unwrap();
    assert_eq!(own.hostname(), "barhub.zni.lan");
    assert_eq!(own.address(), "127.0.0.1");
    assert_eq!(own.state(), NodeState::Enabled);
    assert_eq!(own.role(), NodeRole::Hub);
    assert_eq!(own.service(), NodeService::Dvsp);
    let root = ns.gtn_geosub_node_by_springname("foohub", "esusx").unwrap();
    assert_eq!(root.address(), "127.0.0.1");
}
