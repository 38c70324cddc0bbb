//! The keyring: imported certificates, keyed by key id. Held in memory;
//! persistence is the caller's business.

use vstd::prelude::*;
use vstd::string::*;

use crate::text::{str_eq, string_eq};

verus! {

/// Mathematical image of a [`Certificate`].
pub ghost struct CertificateView {
    pub name: Seq<char>,
    pub email: Seq<char>,
    pub keyid: Seq<char>,
    pub sigs: Seq<Seq<char>>,
    pub armor: Seq<char>,
}

/// One certificate: holder, key id, signatures and armored key text.
pub struct Certificate {
    name: String,
    email: String,
    keyid: String,
    sigs: Vec<String>,
    armor: String,
}

impl View for Certificate {
    type V = CertificateView;

    closed spec fn view(&self) -> CertificateView {
        CertificateView {
            name: self.name@,
            email: self.email@,
            keyid: self.keyid@,
            sigs: self.sigs@.map_values(|t: String| t@),
            armor: self.armor@,
        }
    }
}

impl Clone for Certificate {
    fn clone(&self) -> (r: Certificate)
        ensures
            r@ == self@,
    {
        let mut sigs: Vec<String> = Vec::new();
        let mut i: usize = 0;
        while i < self.sigs.len()
            invariant
                0 <= i <= self.sigs@.len(),
                sigs@.len() == i,
                forall|j: int| 0 <= j < i ==> sigs@[j]@ == self.sigs@[j]@,
            decreases self.sigs@.len() - i,
        {
            sigs.push(self.sigs[i].clone());
            i = i + 1;
        }
        let r = Certificate {
            name: self.name.clone(),
            email: self.email.clone(),
            keyid: self.keyid.clone(),
            sigs,
            armor: self.armor.clone(),
        };
        proof {
            assert(r@.sigs =~= self@.sigs);
        }
        r
    }
}

impl Certificate {
    pub fn new(name: &str, email: &str, keyid: &str, sigs: Vec<String>, armor: &str) -> (r:
        Certificate)
        ensures
            r@ == (CertificateView {
                name: name@,
                email: email@,
                keyid: keyid@,
                sigs: sigs@.map_values(|t: String| t@),
                armor: armor@,
            }),
    {
        Certificate {
            name: name.to_owned(),
            email: email.to_owned(),
            keyid: keyid.to_owned(),
            sigs,
            armor: armor.to_owned(),
        }
    }

    /// The marker certificate standing for a failed request.
    pub fn error() -> (r: Certificate)
        ensures
            r@ == (CertificateView {
                name: "#error"@,
                email: "#error"@,
                keyid: "#error"@,
                sigs: Seq::empty(),
                armor: "#error"@,
            }),
    {
        let r = Certificate {
            name: String::from_str("#error"),
            email: String::from_str("#error"),
            keyid: String::from_str("#error"),
            sigs: Vec::new(),
            armor: String::from_str("#error"),
        };
        proof {
            assert(r@.sigs =~= Seq::<Seq<char>>::empty());
        }
        r
    }

    pub fn name(&self) -> (r: &str)
        ensures
            r@ == self@.name,
    {
        self.name.as_str()
    }

    pub fn email(&self) -> (r: &str)
        ensures
            r@ == self@.email,
    {
        self.email.as_str()
    }

    pub fn keyid(&self) -> (r: &str)
        ensures
            r@ == self@.keyid,
    {
        self.keyid.as_str()
    }

    pub fn armor(&self) -> (r: &str)
        ensures
            r@ == self@.armor,
    {
        self.armor.as_str()
    }

    pub fn sigs(&self) -> (r: &Vec<String>)
        ensures
            r@.map_values(|t: String| t@) == self@.sigs,
    {
        &self.sigs
    }
}

/// One exported key's armored text.
pub struct Key {
    key: String,
}

impl View for Key {
    type V = Seq<char>;

    closed spec fn view(&self) -> Seq<char> {
        self.key@
    }
}

impl Key {
    pub fn new(key: &str) -> (r: Key)
        ensures
            r@ == key@,
    {
        Key { key: key.to_owned() }
    }

    /// The marker key standing for a failed request.
    pub fn error() -> (r: Key)
        ensures
            r@ == "error"@,
    {
        Key { key: String::from_str("error") }
    }
}

/// First certificate carrying the key id.
pub open spec fn find_cert(certs: Seq<CertificateView>, keyid: Seq<char>) -> Option<CertificateView>
    decreases certs.len(),
{
    if certs.len() == 0 {
        None
    } else if certs[0].keyid == keyid {
        Some(certs[0])
    } else {
        find_cert(certs.drop_first(), keyid)
    }
}

/// First certificate carrying the holder name.
pub open spec fn find_cert_by_name(certs: Seq<CertificateView>, name: Seq<char>) -> Option<
    CertificateView,
>
    decreases certs.len(),
{
    if certs.len() == 0 {
        None
    } else if certs[0].name == name {
        Some(certs[0])
    } else {
        find_cert_by_name(certs.drop_first(), name)
    }
}

/// The keyring itself.
pub struct Keyring {
    certs: Vec<Certificate>,
}

impl View for Keyring {
    type V = Seq<CertificateView>;

    closed spec fn view(&self) -> Seq<CertificateView> {
        self.certs@.map_values(|c: Certificate| c@)
    }
}

impl Keyring {
    /// Certificates are keyed by key id.
    pub open spec fn wf(&self) -> bool {
        forall|i: int, j: int| 0 <= i < j < self@.len() ==> self@[i].keyid != self@[j].keyid
    }

    /// An empty keyring.
    pub fn new() -> (r: Keyring)
        ensures
            r.wf(),
            r@ == Seq::<CertificateView>::empty(),
    {
        let r = Keyring { certs: Vec::new() };
        proof {
            assert(r@ =~= Seq::<CertificateView>::empty());
        }
        r
    }

    /// Prepares the certificate store.
    pub fn init() -> (r: bool)
        ensures
            r == true,
    {
        true
    }

    /// Replaces the certificate at `idx`.
    fn cert_replace_at(&mut self, idx: usize, fresh: Certificate)
        requires
            idx < old(self)@.len(),
        ensures
            final(self)@ == old(self)@.update(idx as int, fresh@),
    {
        self.certs.remove(idx);
        self.certs.insert(idx, fresh);
        proof {
            assert(self@ =~= old(self)@.update(idx as int, fresh@));
        }
    }

    /// Stores a certificate: a key id already present is replaced, any
    /// other is appended.
    pub fn import(&mut self, certificate: &Certificate) -> (r: bool)
        requires
            old(self).wf(),
        ensures
            final(self).wf(),
            r == true,
            match find_cert(old(self)@, certificate@.keyid) {
                None => final(self)@ == old(self)@.push(certificate@),
                Some(_) => final(self)@ == old(self)@.map_values(
                    (|c: CertificateView| if c.keyid == certificate@.keyid {
                        certificate@
                    } else {
                        c
                    }),
                ),
            },
    {
        proof {
            lemma_find_cert(self@, certificate@.keyid);
        }
        let mut i: usize = 0;
        let ghost start = self@;
        while i < self.certs.len()
            invariant
                0 <= i <= self.certs@.len(),
                self@ == start,
                old(self).wf(),
                start == old(self)@,
                self@.len() == self.certs@.len(),
                forall|j: int| 0 <= j < self.certs@.len() ==> self@[j] == self.certs@[j]@,
                forall|j: int| 0 <= j < i ==> self@[j].keyid != certificate@.keyid,
            decreases self.certs@.len() - i,
        {
            proof {
                assert(start[i as int] == self.certs@[i as int]@);
            }
            if str_eq(self.certs[i].keyid(), certificate.keyid()) {
                self.cert_replace_at(i, certificate.clone());
                proof {
                    assert(start[i as int].keyid == certificate@.keyid);
                    lemma_find_cert(start, certificate@.keyid);
                    if find_cert(start, certificate@.keyid) is None {
                        assert(false);
                    }
                    assert(self@ =~= start.update(i as int, certificate@));
                    let target = start.map_values(
                        |c: CertificateView| if c.keyid == certificate@.keyid {
                            certificate@
                        } else {
                            c
                        },
                    );
                    assert forall|k: int| 0 <= k < start.len() implies self@[k] == target[k] by {
                        if k < i {
                        } else if k > i {
                            assert(start[i as int].keyid != start[k].keyid);
                        }
                    }
                    assert(self@ =~= target);
                    assert forall|a: int, b: int| 0 <= a < b < self@.len() implies self@[a].keyid
                        != self@[b].keyid by {
                        assert(start[a].keyid != start[b].keyid);
                    }
                }
                return true;
            }
            i = i + 1;
        }
        self.certs.push(certificate.clone());
        proof {
            lemma_find_cert(start, certificate@.keyid);
            if find_cert(start, certificate@.keyid) is Some {
                assert(false);
            }
            assert(self@ =~= start.push(certificate@));
            assert forall|a: int, b: int| 0 <= a < b < self@.len() implies self@[a].keyid
                != self@[b].keyid by {
                if b < start.len() {
                    assert(start[a].keyid != start[b].keyid);
                }
            }
        }
        true
    }

    /// All stored certificates, in insertion order.
    pub fn listing(&self) -> (r: Vec<Certificate>)
        ensures
            r@.map_values(|c: Certificate| c@) == self@,
    {
        let mut r: Vec<Certificate> = Vec::new();
        let mut i: usize = 0;
        while i < self.certs.len()
            invariant
                0 <= i <= self.certs@.len(),
                r@.len() == i,
                forall|j: int| 0 <= j < i ==> r@[j]@ == self.certs@[j]@,
            decreases self.certs@.len() - i,
        {
            r.push(self.certs[i].clone());
            i = i + 1;
        }
        proof {
            assert(r@.map_values(|c: Certificate| c@) =~= self@);
        }
        r
    }

    /// The first certificate of the holder name.
    pub fn with_name(&self, name: &str) -> (r: Option<Certificate>)
        ensures
            match find_cert_by_name(self@, name@) {
                Some(cv) => r matches Some(c) && c@ == cv,
                None => r is None,
            },
    {
        let mut i: usize = 0;
        proof {
            assert(self@.skip(0) =~= self@);
        }
        while i < self.certs.len()
            invariant
                0 <= i <= self.certs@.len(),
                self@.len() == self.certs@.len(),
                forall|j: int| 0 <= j < self.certs@.len() ==> self@[j] == self.certs@[j]@,
                find_cert_by_name(self@, name@) == find_cert_by_name(self@.skip(i as int), name@),
            decreases self.certs@.len() - i,
        {
            let ghost tail = self@.skip(i as int);
            proof {
                assert(tail[0] == self@[i as int]);
                assert(tail.drop_first() =~= self@.skip(i + 1));
            }
            if str_eq(self.certs[i].name(), name) {
                return Some(self.certs[i].clone());
            }
            i = i + 1;
        }
        proof {
            assert(self@.skip(self@.len() as int) =~= Seq::<CertificateView>::empty());
        }
        None
    }

    /// The certificate of the key id.
    pub fn with_keyid(&self, keyid: &str) -> (r: Option<Certificate>)
        ensures
            match find_cert(self@, keyid@) {
                Some(cv) => r matches Some(c) && c@ == cv,
                None => r is None,
            },
    {
        let mut i: usize = 0;
        proof {
            assert(self@.skip(0) =~= self@);
        }
        while i < self.certs.len()
            invariant
                0 <= i <= self.certs@.len(),
                self@.len() == self.certs@.len(),
                forall|j: int| 0 <= j < self.certs@.len() ==> self@[j] == self.certs@[j]@,
                find_cert(self@, keyid@) == find_cert(self@.skip(i as int), keyid@),
            decreases self.certs@.len() - i,
        {
            let ghost tail = self@.skip(i as int);
            proof {
                assert(tail[0] == self@[i as int]);
                assert(tail.drop_first() =~= self@.skip(i + 1));
            }
            if str_eq(self.certs[i].keyid(), keyid) {
                return Some(self.certs[i].clone());
            }
            i = i + 1;
        }
        proof {
            assert(self@.skip(self@.len() as int) =~= Seq::<CertificateView>::empty());
        }
        None
    }

    /// Drops every certificate of the key id.
    pub fn remove_keyid(&mut self, keyid: &str) -> (r: bool)
        requires
            old(self).wf(),
        ensures
            final(self).wf(),
            r == true,
            final(self)@ == old(self)@.filter((|c: CertificateView| c.keyid != keyid@)),
    {
        let ghost pred = |c: CertificateView| c.keyid != keyid@;
        let ghost start = self@;
        let mut kept: Vec<Certificate> = Vec::new();
        let mut i: usize = 0;
        proof {
            assert(start.take(0) =~= Seq::<CertificateView>::empty());
            reveal(Seq::filter);
        }
        while i < self.certs.len()
            invariant
                0 <= i <= self.certs@.len(),
                self@ == start,
                self@.len() == self.certs@.len(),
                forall|j: int| 0 <= j < self.certs@.len() ==> self@[j] == self.certs@[j]@,
                old(self).wf(),
                start == old(self)@,
                pred == (|c: CertificateView| c.keyid != keyid@),
                kept@.map_values(|c: Certificate| c@) == start.take(i as int).filter(pred),
            decreases self.certs@.len() - i,
        {
            let ghost prev = kept@.map_values(|c: Certificate| c@);
            if !str_eq(self.certs[i].keyid(), keyid) {
                kept.push(self.certs[i].clone());
                proof {
                    assert(kept@.map_values(|c: Certificate| c@) =~= prev.push(start[i as int]));
                }
            }
            i = i + 1;
            proof {
                crate::text::lemma_filter_take_step(start, pred, i - 1);
            }
        }
        self.certs = kept;
        proof {
            assert(start.take(start.len() as int) =~= start);
            lemma_filter_keeps_unique(start, pred);
        }
        true
    }

    /// Drops every certificate of the holder name.
    pub fn remove_name(&mut self, name: &str) -> (r: bool)
        requires
            old(self).wf(),
        ensures
            final(self).wf(),
            r == true,
            final(self)@ == old(self)@.filter((|c: CertificateView| c.name != name@)),
    {
        let ghost pred = |c: CertificateView| c.name != name@;
        let ghost start = self@;
        let mut kept: Vec<Certificate> = Vec::new();
        let mut i: usize = 0;
        proof {
            assert(start.take(0) =~= Seq::<CertificateView>::empty());
            reveal(Seq::filter);
        }
        while i < self.certs.len()
            invariant
                0 <= i <= self.certs@.len(),
                self@ == start,
                self@.len() == self.certs@.len(),
                forall|j: int| 0 <= j < self.certs@.len() ==> self@[j] == self.certs@[j]@,
                old(self).wf(),
                start == old(self)@,
                pred == (|c: CertificateView| c.name != name@),
                kept@.map_values(|c: Certificate| c@) == start.take(i as int).filter(pred),
            decreases self.certs@.len() - i,
        {
            let ghost prev = kept@.map_values(|c: Certificate| c@);
            if !str_eq(self.certs[i].name(), name) {
                kept.push(self.certs[i].clone());
                proof {
                    assert(kept@.map_values(|c: Certificate| c@) =~= prev.push(start[i as int]));
                }
            }
            i = i + 1;
            proof {
                crate::text::lemma_filter_take_step(start, pred, i - 1);
            }
        }
        self.certs = kept;
        proof {
            assert(start.take(start.len() as int) =~= start);
            lemma_filter_keeps_unique(start, pred);
        }
        true
    }
}

/// Filtering keeps the key ids pairwise distinct.
proof fn lemma_filter_keeps_unique(certs: Seq<CertificateView>, pred: spec_fn(CertificateView) -> bool)
    requires
        forall|i: int, j: int| 0 <= i < j < certs.len() ==> certs[i].keyid != certs[j].keyid,
    ensures
        forall|a: int, b: int|
            0 <= a < b < certs.filter(pred).len() ==> certs.filter(pred)[a].keyid != certs.filter(
                pred,
            )[b].keyid,
    decreases certs.len(),
{
    reveal(Seq::filter);
    if certs.len() > 0 {
        let rest = certs.drop_last();
        assert forall|i: int, j: int| 0 <= i < j < rest.len() implies rest[i].keyid
            != rest[j].keyid by {
            assert(certs[i].keyid != certs[j].keyid);
        }
        lemma_filter_keeps_unique(rest, pred);
        let f = certs.filter(pred);
        let fr = rest.filter(pred);
        if pred(certs.last()) {
            assert(f == fr.push(certs.last()));
            assert forall|a: int, b: int| 0 <= a < b < f.len() implies f[a].keyid
                != f[b].keyid by {
                if b < fr.len() {
                    assert(fr[a].keyid != fr[b].keyid);
                } else {
                    assert(f[b] == certs.last());
                    assert(fr.contains(fr[a]));
                    rest.lemma_filter_contains_rev(pred, fr[a]);
                    let k = choose|k: int| 0 <= k < rest.len() && rest[k] == fr[a];
                    assert(certs[k].keyid != certs[certs.len() - 1].keyid);
                }
            }
        } else {
            assert(f == fr);
        }
    }
}

pub proof fn lemma_find_cert(certs: Seq<CertificateView>, keyid: Seq<char>)
    ensures
        match find_cert(certs, keyid) {
            Some(cv) => cv.keyid == keyid && exists|i: int| 0 <= i < certs.len() && certs[i] == cv,
            None => forall|i: int| 0 <= i < certs.len() ==> certs[i].keyid != keyid,
        },
    decreases certs.len(),
{
    if certs.len() > 0 && certs[0].keyid != keyid {
        lemma_find_cert(certs.drop_first(), keyid);
        match find_cert(certs.drop_first(), keyid) {
            Some(cv) => {
                let i = choose|i: int|
                    0 <= i < certs.drop_first().len() && certs.drop_first()[i] == cv;
                assert(certs[i + 1] == cv);
            },
            None => {
                assert forall|i: int| 0 <= i < certs.len() implies certs[i].keyid != keyid by {
                    if i > 0 {
                        assert(certs.drop_first()[i - 1] == certs[i]);
                    }
                }
            },
        }
    }
}

} // verus!
