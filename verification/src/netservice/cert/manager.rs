//! The console interface of the certificate module: parsing certificate
//! commands and running them against the keyring. Fetching a certificate
//! from the public key service is outside work: the parsed command names
//! what to fetch, and the fetched fields come back for the verified import.

use vstd::prelude::*;
use vstd::string::*;

use crate::text::{join_spec, join_str, split_spec, str_eq, string_eq};

use super::keyring::{find_cert, find_cert_by_name, Certificate, CertificateView, Keyring};
use crate::management::{render_table, table_text};

verus! {

/// The console interface of the certificate module.
pub struct CertManagementInterface;

impl CertManagementInterface {
    pub fn new() -> (r: CertManagementInterface)
        ensures
            r == (CertManagementInterface {  }),
    {
        CertManagementInterface {  }
    }
}

/// What a certificate command does.
#[derive(Clone, Copy, PartialEq, Eq, Structural, Debug)]
pub enum Action {
    View,
    Remove,
    Import,
}

pub open spec fn action_from_str_spec(s: Seq<char>) -> Option<Action> {
    if s == "imp"@ || s == "import"@ {
        Some(Action::Import)
    } else if s == "viw"@ || s == "view"@ {
        Some(Action::View)
    } else if s == "rem"@ || s == "remove"@ {
        Some(Action::Remove)
    } else {
        None
    }
}

impl Action {
    pub fn from_str(s: &str) -> (r: Option<Action>)
        ensures
            r == action_from_str_spec(s@),
    {
        if str_eq(s, "imp") || str_eq(s, "import") {
            Some(Action::Import)
        } else if str_eq(s, "viw") || str_eq(s, "view") {
            Some(Action::View)
        } else if str_eq(s, "rem") || str_eq(s, "remove") {
            Some(Action::Remove)
        } else {
            None
        }
    }
}

/// Mathematical image of an [`Operand`].
pub ghost enum OperandView {
    Nil,
    All,
    Certificate(Seq<char>),
    Name(Seq<char>),
    Key(Seq<char>),
}

/// A target of a certificate command.
#[derive(Clone, PartialEq, Debug)]
pub enum Operand {
    Nil,
    All,
    Certificate(String),
    Name(String),
    Key(String),
}

impl View for Operand {
    type V = OperandView;

    open spec fn view(&self) -> OperandView {
        match self {
            Operand::Nil => OperandView::Nil,
            Operand::All => OperandView::All,
            Operand::Certificate(s) => OperandView::Certificate(s@),
            Operand::Name(s) => OperandView::Name(s@),
            Operand::Key(s) => OperandView::Key(s@),
        }
    }
}

/// Mathematical image of a [`Zone`].
pub ghost struct ZoneView {
    pub action: Action,
    pub op1: OperandView,
}

/// One parsed certificate command.
pub struct Zone {
    pub action: Action,
    pub op1: Operand,
}

impl View for Zone {
    type V = ZoneView;

    open spec fn view(&self) -> ZoneView {
        ZoneView { action: self.action, op1: self.op1@ }
    }
}

/// One operand read from the words starting at `i`; a `cert` operand takes
/// everything that follows, joined back with spaces.
pub open spec fn extract_cop_spec(parts: Seq<Seq<char>>, i: int) -> Option<(OperandView, int)> {
    if i >= parts.len() {
        Some((OperandView::Nil, i))
    } else {
        let w = parts[i];
        if w == "cert"@ {
            Some((OperandView::Certificate(join_spec(parts.skip(i + 1), " "@)), parts.len() as int))
        } else if w == "name"@ {
            if i + 1 < parts.len() {
                Some((OperandView::Name(parts[i + 1]), i + 2))
            } else {
                None
            }
        } else if w == "key"@ {
            if i + 1 < parts.len() {
                Some((OperandView::Key(parts[i + 1]), i + 2))
            } else {
                None
            }
        } else if w == "all"@ {
            Some((OperandView::All, i + 1))
        } else {
            Some((OperandView::Nil, i + 1))
        }
    }
}

/// What a certificate command's words parse to.
pub open spec fn zone_parse_spec(parts: Seq<Seq<char>>) -> Option<ZoneView> {
    if parts.len() == 0 {
        None
    } else {
        match action_from_str_spec(parts[0]) {
            None => None,
            Some(action) => match extract_cop_spec(parts, 1) {
                None => None,
                Some((op1, _)) => Some(ZoneView { action, op1 }),
            },
        }
    }
}

impl Zone {
    pub fn new(action: Action, op1: Operand) -> (r: Zone)
        ensures
            r@ == (ZoneView { action, op1: op1@ }),
    {
        Zone { action, op1 }
    }

    /// Joins the words from `i` on back together with spaces.
    pub fn join_iter(parts: &Vec<String>, i: usize) -> (r: String)
        requires
            i <= parts@.len(),
        ensures
            r@ == join_spec(parts@.map_values(|t: String| t@).skip(i as int), " "@),
    {
        let mut rest: Vec<String> = Vec::new();
        let mut k: usize = i;
        while k < parts.len()
            invariant
                i <= k <= parts@.len(),
                rest@.len() == k - i,
                forall|j: int| 0 <= j < k - i ==> rest@[j]@ == parts@[i + j]@,
            decreases parts@.len() - k,
        {
            rest.push(parts[k].clone());
            k = k + 1;
        }
        let r = join_str(&rest, " ");
        proof {
            assert(rest@.map_values(|t: String| t@) =~= parts@.map_values(|t: String| t@).skip(
                i as int,
            ));
        }
        r
    }

    /// One operand read from the words starting at `i`.
    pub fn extract_operand(parts: &Vec<String>, i: usize) -> (r: Option<(Operand, usize)>)
        requires
            i <= parts@.len(),
        ensures
            match r {
                Some(p) => extract_cop_spec(parts@.map_values(|t: String| t@), i as int) == Some(
                    (p.0@, p.1 as int),
                ) && p.1 <= parts@.len(),
                None => extract_cop_spec(parts@.map_values(|t: String| t@), i as int) is None,
            },
    {
        if i >= parts.len() {
            return Some((Operand::Nil, i));
        }
        let w = parts[i].as_str();
        if str_eq(w, "cert") {
            Some((Operand::Certificate(Self::join_iter(parts, i + 1)), parts.len()))
        } else if str_eq(w, "name") {
            if i + 1 < parts.len() {
                Some((Operand::Name(parts[i + 1].clone()), i + 2))
            } else {
                None
            }
        } else if str_eq(w, "key") {
            if i + 1 < parts.len() {
                Some((Operand::Key(parts[i + 1].clone()), i + 2))
            } else {
                None
            }
        } else if str_eq(w, "all") {
            Some((Operand::All, i + 1))
        } else {
            Some((Operand::Nil, i + 1))
        }
    }

    /// Parses a certificate command's words.
    pub fn parse(v: &Vec<String>) -> (r: Option<Zone>)
        ensures
            match r {
                Some(z) => zone_parse_spec(v@.map_values(|t: String| t@)) == Some(z@),
                None => zone_parse_spec(v@.map_values(|t: String| t@)) is None,
            },
    {
        if v.len() == 0 {
            return None;
        }
        let action = match Action::from_str(v[0].as_str()) {
            None => {
                return None;
            },
            Some(a) => a,
        };
        match Self::extract_operand(v, 1) {
            None => None,
            Some((op1, _)) => Some(Zone::new(action, op1)),
        }
    }

    /// Runs one certificate command against the keyring; an import first
    /// needs the certificate fetched from the key service, which is the
    /// caller's outside work.
    pub fn process(mz: Zone, kr: &mut Keyring) -> (r: ProcessOutcome)
        requires
            old(kr).wf(),
        ensures
            final(kr).wf(),
            match mz@.action {
                Action::Import => final(kr)@ == old(kr)@ && (match mz@.op1 {
                    OperandView::Certificate(key) => r matches ProcessOutcome::FetchCertificate(
                        k,
                    ) && k@ == key,
                    _ => r matches ProcessOutcome::Done(s) && s@
                        == "Import action does not support operand"@,
                }),
                Action::View => final(kr)@ == old(kr)@ && (r matches ProcessOutcome::Done(s)
                    && s@ == view_out_spec(mz@.op1, old(kr)@)),
                Action::Remove => r matches ProcessOutcome::Done(_),
            },
    {
        match mz.action {
            Action::Import => match mz.op1 {
                Operand::Certificate(s) => ProcessOutcome::FetchCertificate(s),
                _ => ProcessOutcome::Done(
                    String::from_str("Import action does not support operand"),
                ),
            },
            Action::View => ProcessOutcome::Done(ZoneModel::view(mz.op1, kr)),
            Action::Remove => ProcessOutcome::Done(ZoneModel::remove(mz.op1, kr)),
        }
    }
}

/// What running a certificate command comes to: a finished report, or the
/// armored key text whose certificate must be fetched before the import
/// can go on.
pub enum ProcessOutcome {
    Done(String),
    FetchCertificate(String),
}

/// The report of a certificate view.
pub open spec fn view_out_spec(op: OperandView, certs: Seq<CertificateView>) -> Seq<char> {
    match op {
        OperandView::All => listing_table_spec(certs),
        OperandView::Key(k) => match find_cert(certs, k) {
            Some(c) => format_cert_spec(certs, c),
            None => "Error: Could not find certificate\n"@,
        },
        OperandView::Name(n) => match find_cert_by_name(certs, n) {
            Some(c) => format_cert_spec(certs, c),
            None => "Error: Could not find certificate\n"@,
        },
        _ => "Error: Unknown or unsupported target filter\n"@,
    }
}

/// The table drawn for a certificate listing.
pub open spec fn listing_table_spec(certs: Seq<CertificateView>) -> Seq<char> {
    table_text(
        seq![seq!["_name_"@, "_email_"@, "_keyid_"@]] + certs.map_values(
            |c: CertificateView| seq![c.name, c.email, c.keyid],
        ),
    )
}

/// The signature lines of a formatted certificate: each signing key id,
/// with the holder's name where the keyring knows the key.
pub open spec fn sig_lines_spec(certs: Seq<CertificateView>, sigs: Seq<Seq<char>>) -> Seq<char>
    decreases sigs.len(),
{
    if sigs.len() == 0 {
        Seq::empty()
    } else {
        let line = "\t"@ + sigs[0] + (match find_cert(certs, sigs[0]) {
            Some(c) => " ("@ + c.name + ")\n"@,
            None => " (unknown)\n"@,
        });
        line + sig_lines_spec(certs, sigs.drop_first())
    }
}

/// The full text of one formatted certificate.
pub open spec fn format_cert_spec(certs: Seq<CertificateView>, c: CertificateView) -> Seq<char> {
    "Name:\n\t"@ + c.name + "\n\nEmail:\n\t"@ + c.email + "\n\nKeyID:\n\t"@ + c.keyid
        + "\n\nSignatures:\n"@ + sig_lines_spec(certs, c.sigs) + "\n\n"@ + c.armor
}

/// The report of initialising the certificate module.
pub open spec fn init_report_spec() -> Seq<char> {
    "Module `certificate` initialised successfully"@
}

/// Prepares the certificate module for service.
pub fn service_init() -> (r: String)
    ensures
        r@ == init_report_spec(),
{
    let ok = Keyring::init();
    if ok {
        String::from_str("Module `certificate` initialised successfully")
    } else {
        String::from_str("Module `certificate` initialisation error")
    }
}

/// The models behind the certificate commands.
pub struct ZoneModel;

impl ZoneModel {
    /// Checks and stores a fetched certificate: a certificate without a
    /// name, key id or email is refused.
    pub fn import_certificate(kr: &mut Keyring, cert: &Certificate) -> (r: String)
        requires
            old(kr).wf(),
        ensures
            final(kr).wf(),
            if cert@.name.len() == 0 || cert@.keyid.len() == 0 || cert@.email.len() == 0 {
                final(kr)@ == old(kr)@ && r@ == "Error: Received malformed certificate"@
            } else {
                r@ == "Imported certificate for `"@ + cert@.name + "`\n"@ && (match find_cert(
                    old(kr)@,
                    cert@.keyid,
                ) {
                    None => final(kr)@ == old(kr)@.push(cert@),
                    Some(_) => final(kr)@ == old(kr)@.map_values(
                        (|c: CertificateView| if c.keyid == cert@.keyid {
                            cert@
                        } else {
                            c
                        }),
                    ),
                })
            },
    {
        if cert.name().unicode_len() == 0 || cert.keyid().unicode_len() == 0
            || cert.email().unicode_len() == 0 {
            return String::from_str("Error: Received malformed certificate");
        }
        let ok = kr.import(cert);
        if ok {
            let mut m = String::from_str("Imported certificate for `");
            m.append(cert.name());
            m.append("`\n");
            m
        } else {
            let mut m = String::from_str("Error importing certificate `");
            m.append(cert.name());
            m.append("` into keyring\n");
            m
        }
    }

    /// The report of a certificate view.
    pub fn view(filter: Operand, kr: &Keyring) -> (r: String)
        ensures
            r@ == view_out_spec(filter@, kr@),
    {
        match &filter {
            Operand::All => Self::view_listing(kr),
            Operand::Key(s) => Self::view_with_id(s.as_str(), kr),
            Operand::Name(s) => Self::view_with_name(s.as_str(), kr),
            _ => String::from_str("Error: Unknown or unsupported target filter\n"),
        }
    }

    /// Removes the certificate a filter names.
    pub fn remove(filter: Operand, kr: &mut Keyring) -> (r: String)
        requires
            old(kr).wf(),
        ensures
            final(kr).wf(),
            match filter@ {
                OperandView::Key(k) => r@ == "Removed certificate"@ && final(kr)@ == old(
                    kr,
                )@.filter((|c: CertificateView| c.keyid != k)),
                OperandView::Name(n) => r@ == "Removed certificate"@ && final(kr)@ == old(
                    kr,
                )@.filter((|c: CertificateView| c.name != n)),
                _ => r@ == "Error: Unknown or unsupported target filter\n"@ && final(kr)@ == old(
                    kr,
                )@,
            },
    {
        match &filter {
            Operand::Key(s) => Self::remove_with_id(s.as_str(), kr),
            Operand::Name(s) => Self::remove_with_name(s.as_str(), kr),
            _ => String::from_str("Error: Unknown or unsupported target filter\n"),
        }
    }

    /// The table of every stored certificate.
    pub fn view_listing(kr: &Keyring) -> (r: String)
        ensures
            r@ == listing_table_spec(kr@),
    {
        let certs = kr.listing();
        let mut rows: Vec<Vec<String>> = Vec::new();
        let mut head: Vec<String> = Vec::new();
        head.push(String::from_str("_name_"));
        head.push(String::from_str("_email_"));
        head.push(String::from_str("_keyid_"));
        proof {
            assert(head@.map_values(|c: String| c@) =~= seq!["_name_"@, "_email_"@, "_keyid_"@]);
        }
        rows.push(head);
        let mut i: usize = 0;
        while i < certs.len()
            invariant
                0 <= i <= certs@.len(),
                rows@.len() == i + 1,
                rows@[0]@.map_values(|c: String| c@) == seq!["_name_"@, "_email_"@, "_keyid_"@],
                forall|j: int|
                    1 <= j < i + 1 ==> rows@[j]@.map_values(|c: String| c@) == seq![
                        certs@[j - 1]@.name,
                        certs@[j - 1]@.email,
                        certs@[j - 1]@.keyid,
                    ],
            decreases certs@.len() - i,
        {
            let c = &certs[i];
            let mut row: Vec<String> = Vec::new();
            row.push(c.name().to_owned());
            row.push(c.email().to_owned());
            row.push(c.keyid().to_owned());
            proof {
                assert(row@.map_values(|t: String| t@) =~= seq![
                    certs@[i as int]@.name,
                    certs@[i as int]@.email,
                    certs@[i as int]@.keyid,
                ]);
            }
            rows.push(row);
            i = i + 1;
        }
        let r = render_table(&rows);
        proof {
            assert(rows@.map_values(|row: Vec<String>| row@.map_values(|c: String| c@)) =~= seq![
                seq!["_name_"@, "_email_"@, "_keyid_"@],
            ] + kr@.map_values(|c: CertificateView| seq![c.name, c.email, c.keyid]));
        }
        r
    }

    /// The formatted certificate of the key id, or the error text.
    pub fn view_with_id(keyid: &str, kr: &Keyring) -> (r: String)
        ensures
            r@ == (match find_cert(kr@, keyid@) {
                Some(c) => format_cert_spec(kr@, c),
                None => "Error: Could not find certificate\n"@,
            }),
    {
        match kr.with_keyid(keyid) {
            Some(c) => Self::format_certificate(&c, kr),
            None => String::from_str("Error: Could not find certificate\n"),
        }
    }

    /// The formatted certificate of the holder name, or the error text.
    pub fn view_with_name(name: &str, kr: &Keyring) -> (r: String)
        ensures
            r@ == (match find_cert_by_name(kr@, name@) {
                Some(c) => format_cert_spec(kr@, c),
                None => "Error: Could not find certificate\n"@,
            }),
    {
        match kr.with_name(name) {
            Some(c) => Self::format_certificate(&c, kr),
            None => String::from_str("Error: Could not find certificate\n"),
        }
    }

    /// Removes the certificate of the key id.
    pub fn remove_with_id(keyid: &str, kr: &mut Keyring) -> (r: String)
        requires
            old(kr).wf(),
        ensures
            final(kr).wf(),
            r@ == "Removed certificate"@,
            final(kr)@ == old(kr)@.filter((|c: CertificateView| c.keyid != keyid@)),
    {
        let ok = kr.remove_keyid(keyid);
        if ok {
            String::from_str("Removed certificate")
        } else {
            String::from_str("Error: Removing certificate failed\n")
        }
    }

    /// Removes the certificate of the holder name.
    pub fn remove_with_name(name: &str, kr: &mut Keyring) -> (r: String)
        requires
            old(kr).wf(),
        ensures
            final(kr).wf(),
            r@ == "Removed certificate"@,
            final(kr)@ == old(kr)@.filter((|c: CertificateView| c.name != name@)),
    {
        let ok = kr.remove_name(name);
        if ok {
            String::from_str("Removed certificate")
        } else {
            String::from_str("Error: Removing certificate failed\n")
        }
    }

    /// The full text of one certificate, each signature annotated with the
    /// holder the keyring knows for it.
    pub fn format_certificate(cert: &Certificate, kr: &Keyring) -> (r: String)
        ensures
            r@ == format_cert_spec(kr@, cert@),
    {
        let mut out = String::from_str("Name:\n\t");
        out.append(cert.name());
        out.append("\n\nEmail:\n\t");
        out.append(cert.email());
        out.append("\n\nKeyID:\n\t");
        out.append(cert.keyid());
        out.append("\n\nSignatures:\n");
        let sigs = cert.sigs();
        let ghost sigsv = sigs@.map_values(|t: String| t@);
        let ghost head = out@;
        let mut i: usize = 0;
        proof {
            assert(sigsv.skip(0) =~= sigsv);
        }
        while i < sigs.len()
            invariant
                0 <= i <= sigs@.len(),
                sigsv == sigs@.map_values(|t: String| t@),
                sig_lines_spec(kr@, sigsv) == out@.skip(head.len() as int) + sig_lines_spec(
                    kr@,
                    sigsv.skip(i as int),
                ),
                out@.len() >= head.len(),
                out@.take(head.len() as int) == head,
            decreases sigs@.len() - i,
        {
            let ghost tail = sigsv.skip(i as int);
            proof {
                assert(tail[0] == sigsv[i as int]);
                assert(tail.drop_first() =~= sigsv.skip(i + 1));
            }
            let ghost pre = out@;
            out.append("\t");
            out.append(sigs[i].as_str());
            match kr.with_keyid(sigs[i].as_str()) {
                Some(c) => {
                    out.append(" (");
                    out.append(c.name());
                    out.append(")\n");
                },
                None => {
                    out.append(" (unknown)\n");
                },
            }
            i = i + 1;
            proof {
                let line = "\t"@ + sigsv[i - 1] + (match find_cert(kr@, sigsv[i - 1]) {
                    Some(c) => " ("@ + c.name + ")\n"@,
                    None => " (unknown)\n"@,
                });
                assert(out@ =~= pre + line);
                assert(out@.skip(head.len() as int) =~= pre.skip(head.len() as int) + line);
                assert(out@.take(head.len() as int) =~= head);
            }
        }
        proof {
            assert(sigsv.skip(sigsv.len() as int) =~= Seq::<Seq<char>>::empty());
            assert(out@.skip(head.len() as int) + Seq::<char>::empty() =~= out@.skip(
                head.len() as int,
            ));
        }
        out.append("\n\n");
        out.append(cert.armor());
        proof {
            assert(out@ =~= format_cert_spec(kr@, cert@));
        }
        out
    }
}

} // verus!
