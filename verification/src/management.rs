//! The management console: textual commands arriving over the local
//! management socket, parsed into zones and run against the registry.

pub mod network;
pub mod service;
pub mod validation;

use vstd::prelude::*;
use vstd::string::*;

use crate::netspace::NetspaceIo;
use crate::text::{find_spec, lemma_find_spec, split_spec, split_str, str_eq};

pub use network::{NetworkAction, NetworkOperand, NetworkZone};
pub use service::{ServiceAction, ServiceOperand, ServiceZone};
pub use validation::{ValidationAction, ValidationOperand, ValidationZone};

verus! {

/// What a table drawn from the given rows of cell texts looks like. The
/// drawing depends on the cell texts alone.
pub uninterp spec fn table_text(rows: Seq<Seq<Seq<char>>>) -> Seq<char>;

/// Relies on prettytable's `Table` rendering (`Table::new`, `add_row`,
/// `Display`): the drawn text is a function of the cell texts alone.
#[verifier::external_body]
pub(crate) fn render_table(rows: &Vec<Vec<String>>) -> (r: String)
    ensures
        r@ == table_text(
            rows@.map_values(|row: Vec<String>| row@.map_values(|c: String| c@)),
        ),
{
    let mut table = prettytable::Table::new();
    for row in rows.iter() {
        let cells = row.iter().map(|c| prettytable::Cell::new(c)).collect();
        table.add_row(prettytable::Row::new(cells));
    }
    format!("{}", table)
}

/// Splits a console command at its first space: the zone word and the rest.
pub fn binary_split(msg: &str) -> (r: (String, String))
    ensures
        ({
            let i = find_spec(msg@, ' ');
            if i < 0 {
                r.0@ == msg@ && r.1@ == Seq::<char>::empty()
            } else {
                r.0@ == msg@.take(i) && r.1@ == msg@.skip(i + 1)
            }
        }),
{
    proof {
        lemma_find_spec(msg@, ' ');
    }
    let n = msg.unicode_len();
    match crate::text::find_char(msg, ' ') {
        None => (msg.to_owned(), String::new()),
        Some(i) => {
            let head = msg.substring_char(0, i).to_owned();
            let tail = msg.substring_char(i + 1, n).to_owned();
            proof {
                assert(head@ =~= msg@.take(i as int));
                assert(tail@ =~= msg@.skip(i + 1));
            }
            (head, tail)
        },
    }
}

/// Mathematical image of a [`ManagementZone`].
pub ghost enum ManagementZoneView {
    Network(network::NetworkZoneView),
    Validation(validation::ValidationZoneView),
    Service(service::ServiceZoneView),
}

/// One parsed console command, sorted into its zone.
#[derive(Clone, PartialEq, Debug)]
pub enum ManagementZone {
    Network(NetworkZone),
    Validation(ValidationZone),
    Service(ServiceZone),
}

impl View for ManagementZone {
    type V = ManagementZoneView;

    open spec fn view(&self) -> ManagementZoneView {
        match self {
            ManagementZone::Network(z) => ManagementZoneView::Network(z@),
            ManagementZone::Validation(z) => ManagementZoneView::Validation(z@),
            ManagementZone::Service(z) => ManagementZoneView::Service(z@),
        }
    }
}

/// What a console command parses to.
pub open spec fn management_zone_spec(msg: Seq<char>) -> Option<ManagementZoneView> {
    if msg.len() == 0 {
        None
    } else {
        let i = find_spec(msg, ' ');
        let w = if i < 0 {
            msg
        } else {
            msg.take(i)
        };
        let rest = if i < 0 {
            Seq::<char>::empty()
        } else {
            msg.skip(i + 1)
        };
        if w == "net"@ || w == "network"@ {
            match network::network_zone_spec(rest) {
                Some(z) => Some(ManagementZoneView::Network(z)),
                None => None,
            }
        } else if w == "val"@ || w == "validation"@ {
            match validation::validation_zone_spec(rest) {
                Some(z) => Some(ManagementZoneView::Validation(z)),
                None => None,
            }
        } else if w == "ser"@ || w == "service"@ {
            match service::service_zone_spec(rest) {
                Some(z) => Some(ManagementZoneView::Service(z)),
                None => None,
            }
        } else {
            None
        }
    }
}

impl ManagementZone {
    pub fn from_str(msg: &str) -> (r: Option<ManagementZone>)
        ensures
            match r {
                Some(z) => management_zone_spec(msg@) == Some(z@),
                None => management_zone_spec(msg@) is None,
            },
    {
        if msg.unicode_len() == 0 {
            return None;
        }
        let atom = binary_split(msg);
        if str_eq(atom.0.as_str(), "net") || str_eq(atom.0.as_str(), "network") {
            match NetworkZone::from_str(atom.1.as_str()) {
                Some(z) => Some(ManagementZone::Network(z)),
                None => None,
            }
        } else if str_eq(atom.0.as_str(), "val") || str_eq(atom.0.as_str(), "validation") {
            match ValidationZone::from_str(atom.1.as_str()) {
                Some(z) => Some(ManagementZone::Validation(z)),
                None => None,
            }
        } else if str_eq(atom.0.as_str(), "ser") || str_eq(atom.0.as_str(), "service") {
            match ServiceZone::from_str(atom.1.as_str()) {
                Some(z) => Some(ManagementZone::Service(z)),
                None => None,
            }
        } else {
            None
        }
    }
}

/// One console session's entry point.
pub struct ManagementInstance;

impl ManagementInstance {
    pub fn new() -> (r: ManagementInstance)
        ensures
            r == (ManagementInstance {  }),
    {
        ManagementInstance
    }

    /// Parses and runs one console command against the registry.
    pub fn run(&self, command: &str, nio: &mut NetspaceIo) -> (r: Option<String>)
        requires
            old(nio).wf(),
        ensures
            final(nio).wf(),
            management_zone_spec(command@) is None ==> r is None && final(nio)@ == old(nio)@,
    {
        let zone = match ManagementZone::from_str(command) {
            Some(z) => z,
            None => {
                return None;
            },
        };
        self.process_request(zone, nio)
    }

    /// Runs one parsed console command against the registry.
    pub fn process_request(&self, request: ManagementZone, nio: &mut NetspaceIo) -> (r: Option<
        String,
    >)
        requires
            old(nio).wf(),
        ensures
            final(nio).wf(),
    {
        match request {
            ManagementZone::Network(nz) => network::NetworkZone::process(nz, nio),
            ManagementZone::Validation(vz) => validation::ValidationZone::process(vz, nio),
            ManagementZone::Service(sz) => service::ServiceZone::process(sz),
        }
    }
}

} // verus!
