//! Net-service modules: service-layer features a node can serve beside
//! resolution. Only the certificate module exists.

pub mod cert;

use vstd::prelude::*;
use vstd::string::*;

use crate::text::str_eq;

verus! {

/// A known net-service module.
#[derive(Clone, Copy, PartialEq, Eq, Structural, Debug)]
pub enum Module {
    Cert,
}

pub open spec fn module_from_str_spec(s: Seq<char>) -> Option<Module> {
    if s == "cert"@ {
        Some(Module::Cert)
    } else {
        None
    }
}

impl Module {
    pub fn from_str(s: &str) -> (r: Option<Module>)
        ensures
            r == module_from_str_spec(s@),
    {
        if str_eq(s, "cert") {
            Some(Module::Cert)
        } else {
            None
        }
    }
}

} // verus!
