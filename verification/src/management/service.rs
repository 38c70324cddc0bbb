//! The console's service zone: initialising net-service modules.

use vstd::prelude::*;
use vstd::string::*;

use crate::netservice::Module;
use crate::text::{split_spec, split_str, str_eq};

verus! {

/// What a service command does.
#[derive(Clone, Copy, PartialEq, Eq, Structural, Debug)]
pub enum ServiceAction {
    Init,
}

/// Mathematical image of a [`ServiceOperand`].
pub ghost enum ServiceOperandView {
    Nil,
    All,
    Module(Module),
}

/// A target filter of a service command.
#[derive(Clone, PartialEq, Debug)]
pub enum ServiceOperand {
    Nil,
    All,
    Module(Module),
}

impl View for ServiceOperand {
    type V = ServiceOperandView;

    open spec fn view(&self) -> ServiceOperandView {
        match self {
            ServiceOperand::Nil => ServiceOperandView::Nil,
            ServiceOperand::All => ServiceOperandView::All,
            ServiceOperand::Module(m) => ServiceOperandView::Module(*m),
        }
    }
}

/// Mathematical image of a [`ServiceZone`].
pub ghost struct ServiceZoneView {
    pub action: ServiceAction,
    pub op1: ServiceOperandView,
    pub op2: ServiceOperandView,
}

/// One parsed service command.
#[derive(Clone, PartialEq, Debug)]
pub struct ServiceZone {
    pub action: ServiceAction,
    pub op1: ServiceOperand,
    pub op2: ServiceOperand,
}

impl View for ServiceZone {
    type V = ServiceZoneView;

    open spec fn view(&self) -> ServiceZoneView {
        ServiceZoneView { action: self.action, op1: self.op1@, op2: self.op2@ }
    }
}

/// One operand read from the words starting at `i`.
pub open spec fn extract_sop_spec(parts: Seq<Seq<char>>, i: int) -> Option<(
    ServiceOperandView,
    int,
)> {
    if i >= parts.len() {
        Some((ServiceOperandView::Nil, i))
    } else {
        let w = parts[i];
        if w == "all"@ {
            Some((ServiceOperandView::All, i + 1))
        } else if w == "module"@ {
            if i + 1 < parts.len() {
                match crate::netservice::module_from_str_spec(parts[i + 1]) {
                    Some(m) => Some((ServiceOperandView::Module(m), i + 2)),
                    None => None,
                }
            } else {
                None
            }
        } else {
            Some((ServiceOperandView::Nil, i + 1))
        }
    }
}

/// What the service zone's part of a console command parses to.
pub open spec fn service_zone_spec(msg: Seq<char>) -> Option<ServiceZoneView> {
    if msg.len() == 0 {
        None
    } else {
        let parts = split_spec(msg, ' ');
        if parts[0] != "init"@ {
            None
        } else {
            match extract_sop_spec(parts, 1) {
                None => None,
                Some((op1, next)) => if op1 is Nil {
                    None
                } else {
                    match extract_sop_spec(parts, next) {
                        None => None,
                        Some((op2, _)) => Some(
                            ServiceZoneView { action: ServiceAction::Init, op1, op2 },
                        ),
                    }
                },
            }
        }
    }
}

impl ServiceZone {
    pub fn new(action: ServiceAction, op1: ServiceOperand, op2: ServiceOperand) -> (r: ServiceZone)
        ensures
            r@ == (ServiceZoneView { action, op1: op1@, op2: op2@ }),
    {
        ServiceZone { action, op1, op2 }
    }

    /// One operand read from the words starting at `i`.
    pub fn extract_operand(parts: &Vec<String>, i: usize) -> (r: Option<(ServiceOperand, usize)>)
        requires
            i <= parts@.len(),
        ensures
            match r {
                Some(p) => extract_sop_spec(parts@.map_values(|t: String| t@), i as int) == Some(
                    (p.0@, p.1 as int),
                ) && p.1 <= parts@.len(),
                None => extract_sop_spec(parts@.map_values(|t: String| t@), i as int) is None,
            },
    {
        if i >= parts.len() {
            return Some((ServiceOperand::Nil, i));
        }
        let w = parts[i].as_str();
        if str_eq(w, "all") {
            Some((ServiceOperand::All, i + 1))
        } else if str_eq(w, "module") {
            if i + 1 < parts.len() {
                match Module::from_str(parts[i + 1].as_str()) {
                    Some(m) => Some((ServiceOperand::Module(m), i + 2)),
                    None => None,
                }
            } else {
                None
            }
        } else {
            Some((ServiceOperand::Nil, i + 1))
        }
    }

    pub fn from_str(msg: &str) -> (r: Option<ServiceZone>)
        ensures
            match r {
                Some(z) => service_zone_spec(msg@) == Some(z@),
                None => service_zone_spec(msg@) is None,
            },
    {
        if msg.unicode_len() == 0 {
            return None;
        }
        let parts = split_str(msg, ' ');
        if !str_eq(parts[0].as_str(), "init") {
            return None;
        }
        let (op1, next) = match Self::extract_operand(&parts, 1) {
            None => {
                return None;
            },
            Some(p) => p,
        };
        match op1 {
            ServiceOperand::Nil => {
                return None;
            },
            _ => {},
        }
        let (op2, _) = match Self::extract_operand(&parts, next) {
            None => {
                return None;
            },
            Some(p) => p,
        };
        Some(ServiceZone::new(ServiceAction::Init, op1, op2))
    }

    /// Runs one service command.
    pub fn process(sz: ServiceZone) -> (r: Option<String>)
        ensures
            match sz@.action {
                ServiceAction::Init => r matches Some(s) && s@ == init_out_spec(sz@.op1),
            },
    {
        match sz.action {
            ServiceAction::Init => Some(ServiceZoneModel::init(sz.op1)),
        }
    }
}

/// What initialising the given target reports.
pub open spec fn init_out_spec(op: ServiceOperandView) -> Seq<char> {
    match op {
        ServiceOperandView::Module(m) => crate::netservice::cert::manager::init_report_spec(),
        _ => "Init operation is not supported by target filter"@,
    }
}

/// The models behind the service zone's actions.
pub struct ServiceZoneModel;

impl ServiceZoneModel {
    /// Initialises the named module.
    pub fn init(op: ServiceOperand) -> (r: String)
        ensures
            r@ == init_out_spec(op@),
    {
        match op {
            ServiceOperand::Module(m) => Self::module_init(m),
            _ => String::from_str("Init operation is not supported by target filter"),
        }
    }

    fn module_init(module: Module) -> (r: String)
        ensures
            r@ == crate::netservice::cert::manager::init_report_spec(),
    {
        match module {
            Module::Cert => crate::netservice::cert::manager::service_init(),
        }
    }
}

} // verus!
