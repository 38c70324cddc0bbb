//! The certificate net-service module: the response envelope, the keyring
//! holding imported certificates, and the console interface over it.

pub mod keyring;
pub mod manager;

use vstd::prelude::*;
use vstd::string::*;

use self::keyring::{Certificate, Key};

verus! {

/// Mathematical image of a [`Response`].
pub ghost enum CertServiceResponseView {
    Certificate(keyring::CertificateView),
    Key(Seq<char>),
}

/// What a certificate request answers with.
pub enum Response {
    Certificate(Certificate),
    Key(Key),
}

impl View for Response {
    type V = CertServiceResponseView;

    open spec fn view(&self) -> CertServiceResponseView {
        match self {
            Response::Certificate(c) => CertServiceResponseView::Certificate(c@),
            Response::Key(k) => CertServiceResponseView::Key(k@),
        }
    }
}

/// Mathematical image of a [`CertResponse`].
pub ghost struct CertResponseView {
    pub uri: Seq<char>,
    pub response: CertServiceResponseView,
}

/// A certificate-service reply: the answering node's address and the
/// payload.
pub struct CertResponse {
    pub uri: String,
    pub response: Response,
}

impl View for CertResponse {
    type V = CertResponseView;

    open spec fn view(&self) -> CertResponseView {
        CertResponseView { uri: self.uri@, response: self.response@ }
    }
}

impl CertResponse {
    pub fn new(uri: String, response: Response) -> (r: CertResponse)
        ensures
            r@ == (CertResponseView { uri: uri@, response: response@ }),
    {
        CertResponse { uri, response }
    }
}

} // verus!
