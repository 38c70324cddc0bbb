//! The hierarchical address: `spring://label[.label...][/res/...][?k=v&...]`.
//! The route holds the labels in order, most specific first; a recognized
//! top-level suffix is noted aside. The route is consumed destructively
//! during resolution.

use vstd::prelude::*;
use vstd::string::*;

use crate::node::ParseFailure;
use crate::text::{
    find_char, find_spec, join_spec, join_str, lemma_filter_take_step, lemma_find_spec, split_spec,
    split_str, str_eq, string_eq,
};

verus! {

/// Mathematical image of a [`Uri`].
pub ghost struct UriView {
    pub route: Seq<Seq<char>>,
    pub gtn: Seq<char>,
    pub res: Seq<Seq<char>>,
    pub query: Seq<(Seq<char>, Seq<char>)>,
}

/// A parsed hierarchical address.
pub struct Uri {
    route: Vec<String>,
    gtn: String,
    res: Vec<String>,
    query: Vec<(String, String)>,
}

impl View for Uri {
    type V = UriView;

    closed spec fn view(&self) -> UriView {
        UriView {
            route: self.route@.map_values(|t: String| t@),
            gtn: self.gtn@,
            res: self.res@.map_values(|t: String| t@),
            query: self.query@.map_values(|kv: (String, String)| (kv.0@, kv.1@)),
        }
    }
}

/// Authority, resource path and query string of what follows the scheme.
pub open spec fn uri_parts(rest: Seq<char>) -> (Seq<char>, Seq<char>, Option<Seq<char>>) {
    let si = find_spec(rest, '/');
    let qi = find_spec(rest, '?');
    if si >= 0 && (qi < 0 || si < qi) {
        let auth = rest.take(si);
        let pathq = rest.skip(si + 1);
        let qj = find_spec(pathq, '?');
        if qj < 0 {
            (auth, pathq, None::<Seq<char>>)
        } else {
            (auth, pathq.take(qj), Some(pathq.skip(qj + 1)))
        }
    } else if qi >= 0 {
        (rest.take(qi), Seq::empty(), Some(rest.skip(qi + 1)))
    } else {
        (rest, Seq::empty(), None::<Seq<char>>)
    }
}

/// The query pairs read from `&`-separated parts: empty parts are skipped,
/// a part without `=` counts as a key with an empty value.
pub open spec fn query_pairs_of(parts: Seq<Seq<char>>) -> Seq<(Seq<char>, Seq<char>)>
    decreases parts.len(),
{
    if parts.len() == 0 {
        Seq::empty()
    } else {
        let rest = query_pairs_of(parts.drop_first());
        let p = parts[0];
        if p.len() == 0 {
            rest
        } else {
            let i = find_spec(p, '=');
            let pair = if i < 0 {
                (p, Seq::<char>::empty())
            } else {
                (p.take(i), p.skip(i + 1))
            };
            seq![pair] + rest
        }
    }
}

/// Value of the first query pair carrying the key.
pub open spec fn query_lookup(q: Seq<(Seq<char>, Seq<char>)>, key: Seq<char>) -> Option<Seq<char>>
    decreases q.len(),
{
    if q.len() == 0 {
        None
    } else if q[0].0 == key {
        Some(q[0].1)
    } else {
        query_lookup(q.drop_first(), key)
    }
}

pub open spec fn all_nonempty(parts: Seq<Seq<char>>) -> bool {
    forall|j: int| 0 <= j < parts.len() ==> parts[j].len() > 0
}

/// What `Uri::new` accepts and builds: the scheme must be `spring://`, the
/// route labels must be non-empty, and a final `uk` label is noted as the
/// top-level suffix while staying on the route.
pub open spec fn parse_uri_spec(s: Seq<char>) -> Option<UriView> {
    if !(s.len() >= 9 && s.take(9) == "spring://"@) {
        None
    } else {
        let rest = s.skip(9);
        let parts = uri_parts(rest);
        let auth = parts.0;
        let route = if auth.len() == 0 {
            Seq::<Seq<char>>::empty()
        } else {
            split_spec(auth, '.')
        };
        if !all_nonempty(route) {
            None
        } else {
            Some(
                UriView {
                    route,
                    gtn: if route.len() > 0 && route.last() == "uk"@ {
                        "uk"@
                    } else {
                        Seq::empty()
                    },
                    res: split_spec(parts.1, '/').filter(|p: Seq<char>| p.len() > 0),
                    query: match parts.2 {
                        None => Seq::empty(),
                        Some(qs) => query_pairs_of(split_spec(qs, '&')),
                    },
                },
            )
        }
    }
}

fn parse_res(path: &str) -> (r: Vec<String>)
    ensures
        r@.map_values(|t: String| t@) == split_spec(path@, '/').filter(
            (|p: Seq<char>| p.len() > 0),
        ),
{
    let ghost pred = |p: Seq<char>| p.len() > 0;
    let parts = split_str(path, '/');
    let ghost partsv = parts@.map_values(|t: String| t@);
    let mut r: Vec<String> = Vec::new();
    let mut i: usize = 0;
    proof {
        assert(partsv.take(0) =~= Seq::<Seq<char>>::empty());
        reveal(Seq::filter);
    }
    while i < parts.len()
        invariant
            0 <= i <= parts@.len(),
            partsv == parts@.map_values(|t: String| t@),
            pred == (|p: Seq<char>| p.len() > 0),
            r@.map_values(|t: String| t@) == partsv.take(i as int).filter(pred),
        decreases parts@.len() - i,
    {
        let ghost prev = r@.map_values(|t: String| t@);
        if parts[i].as_str().unicode_len() > 0 {
            r.push(parts[i].clone());
            proof {
                assert(r@.map_values(|t: String| t@) =~= prev.push(partsv[i as int]));
            }
        }
        i = i + 1;
        proof {
            lemma_filter_take_step(partsv, pred, i - 1);
        }
    }
    proof {
        assert(partsv.take(partsv.len() as int) =~= partsv);
    }
    r
}

fn parse_query(qs: &str) -> (r: Vec<(String, String)>)
    ensures
        r@.map_values(|kv: (String, String)| (kv.0@, kv.1@)) == query_pairs_of(
            split_spec(qs@, '&'),
        ),
{
    let parts = split_str(qs, '&');
    let ghost partsv = parts@.map_values(|t: String| t@);
    let mut r: Vec<(String, String)> = Vec::new();
    let mut i: usize = 0;
    proof {
        assert(partsv.skip(0) =~= partsv);
        assert(r@.map_values(|kv: (String, String)| (kv.0@, kv.1@)) =~= Seq::<(
            Seq<char>,
            Seq<char>,
        )>::empty());
    }
    while i < parts.len()
        invariant
            0 <= i <= parts@.len(),
            partsv == parts@.map_values(|t: String| t@),
            query_pairs_of(partsv) == r@.map_values(|kv: (String, String)| (kv.0@, kv.1@))
                + query_pairs_of(partsv.skip(i as int)),
        decreases parts@.len() - i,
    {
        let ghost pre = r@.map_values(|kv: (String, String)| (kv.0@, kv.1@));
        let part = &parts[i];
        let n = part.as_str().unicode_len();
        if n > 0 {
            proof {
                crate::text::lemma_find_spec(part@, '=');
            }
            let pair = match find_char(part.as_str(), '=') {
                None => (part.clone(), String::new()),
                Some(k) => {
                    let key = part.as_str().substring_char(0, k).to_owned();
                    let val = part.as_str().substring_char(k + 1, n).to_owned();
                    proof {
                        assert(key@ =~= part@.take(k as int));
                        assert(val@ =~= part@.skip(k + 1));
                    }
                    (key, val)
                },
            };
            r.push(pair);
        }
        i = i + 1;
        proof {
            let tail = partsv.skip(i - 1);
            assert(tail[0] == partsv[i - 1]);
            assert(tail.drop_first() =~= partsv.skip(i as int));
            let p = partsv[i - 1];
            if p.len() == 0 {
                assert(r@.map_values(|kv: (String, String)| (kv.0@, kv.1@)) == pre);
            } else {
                let fi = find_spec(p, '=');
                let pair = if fi < 0 {
                    (p, Seq::<char>::empty())
                } else {
                    (p.take(fi), p.skip(fi + 1))
                };
                assert(r@.map_values(|kv: (String, String)| (kv.0@, kv.1@)) =~= pre + seq![pair]);
                assert(pre + seq![pair] + query_pairs_of(partsv.skip(i as int)) =~= pre + (seq![
                    pair,
                ] + query_pairs_of(partsv.skip(i as int))));
            }
        }
    }
    proof {
        assert(partsv.skip(partsv.len() as int) =~= Seq::<Seq<char>>::empty());
        assert(query_pairs_of(partsv) =~= r@.map_values(|kv: (String, String)| (kv.0@, kv.1@)));
    }
    r
}

impl Clone for Uri {
    fn clone(&self) -> (r: Uri)
        ensures
            r@ == self@,
    {
        let mut route: Vec<String> = Vec::new();
        let mut i: usize = 0;
        while i < self.route.len()
            invariant
                0 <= i <= self.route@.len(),
                route@.len() == i,
                forall|j: int| 0 <= j < i ==> route@[j]@ == self.route@[j]@,
            decreases self.route@.len() - i,
        {
            route.push(self.route[i].clone());
            i = i + 1;
        }
        let mut res: Vec<String> = Vec::new();
        let mut k: usize = 0;
        while k < self.res.len()
            invariant
                0 <= k <= self.res@.len(),
                res@.len() == k,
                forall|j: int| 0 <= j < k ==> res@[j]@ == self.res@[j]@,
            decreases self.res@.len() - k,
        {
            res.push(self.res[k].clone());
            k = k + 1;
        }
        let mut query: Vec<(String, String)> = Vec::new();
        let mut m: usize = 0;
        while m < self.query.len()
            invariant
                0 <= m <= self.query@.len(),
                query@.len() == m,
                forall|j: int|
                    0 <= j < m ==> (query@[j].0@, query@[j].1@) == (
                    self.query@[j].0@,
                    self.query@[j].1@,
                    ),
            decreases self.query@.len() - m,
        {
            query.push((self.query[m].0.clone(), self.query[m].1.clone()));
            m = m + 1;
        }
        let r = Uri { route, gtn: self.gtn.clone(), res, query };
        proof {
            assert(r@.route =~= self@.route);
            assert(r@.res =~= self@.res);
            assert(r@.query =~= self@.query);
        }
        r
    }
}

impl Uri {
    /// Parses a hierarchical address.
    pub fn new(s: &str) -> (r: Result<Uri, ParseFailure>)
        ensures
            match r {
                Ok(u) => parse_uri_spec(s@) == Some(u@),
                Err(_) => parse_uri_spec(s@) is None,
            },
    {
        let n = s.unicode_len();
        if n < 9 {
            return Err(ParseFailure::Malformed);
        }
        if !str_eq(s.substring_char(0, 9), "spring://") {
            proof {
                assert(s@.take(9) != "spring://"@);
            }
            return Err(ParseFailure::Malformed);
        }
        let rest = s.substring_char(9, n);
        proof {
            assert(rest@ =~= s@.skip(9));
            lemma_find_spec(rest@, '/');
            lemma_find_spec(rest@, '?');
        }
        let rn = rest.unicode_len();
        let si = find_char(rest, '/');
        let qi = find_char(rest, '?');
        let auth: &str;
        let path: String;
        let query_str: Option<String>;
        match (si, qi) {
            (Some(s_i), Some(q_i)) if s_i < q_i => {
                auth = rest.substring_char(0, s_i);
                let pathq = rest.substring_char(s_i + 1, rn);
                proof {
                    assert(pathq@ =~= rest@.skip(s_i + 1));
                    lemma_find_spec(pathq@, '?');
                }
                let pn = pathq.unicode_len();
                match find_char(pathq, '?') {
                    None => {
                        path = pathq.to_owned();
                        query_str = None;
                    },
                    Some(qj) => {
                        path = pathq.substring_char(0, qj).to_owned();
                        query_str = Some(pathq.substring_char(qj + 1, pn).to_owned());
                        proof {
                            assert(path@ =~= pathq@.take(qj as int));
                            assert(query_str->Some_0@ =~= pathq@.skip(qj + 1));
                        }
                    },
                }
                proof {
                    assert(auth@ =~= rest@.take(si->Some_0 as int));
                }
            },
            (Some(s_i), None) => {
                auth = rest.substring_char(0, s_i);
                let pathq = rest.substring_char(s_i + 1, rn);
                proof {
                    assert(pathq@ =~= rest@.skip(s_i + 1));
                    lemma_find_spec(pathq@, '?');
                }
                let pn = pathq.unicode_len();
                match find_char(pathq, '?') {
                    None => {
                        path = pathq.to_owned();
                        query_str = None;
                    },
                    Some(qj) => {
                        path = pathq.substring_char(0, qj).to_owned();
                        query_str = Some(pathq.substring_char(qj + 1, pn).to_owned());
                        proof {
                            assert(path@ =~= pathq@.take(qj as int));
                            assert(query_str->Some_0@ =~= pathq@.skip(qj + 1));
                        }
                    },
                }
                proof {
                    assert(auth@ =~= rest@.take(si->Some_0 as int));
                }
            },
            (_, Some(q_i)) => {
                auth = rest.substring_char(0, q_i);
                path = String::new();
                query_str = Some(rest.substring_char(q_i + 1, rn).to_owned());
                proof {
                    assert(auth@ =~= rest@.take(qi->Some_0 as int));
                    assert(query_str->Some_0@ =~= rest@.skip(qi->Some_0 + 1));
                }
            },
            (None, None) => {
                auth = rest;
                path = String::new();
                query_str = None;
            },
        }
        let ghost parts = uri_parts(rest@);
        proof {
            assert(auth@ == parts.0);
            assert(path@ == parts.1);
            match parts.2 {
                None => {
                    assert(query_str is None);
                },
                Some(qv) => {
                    assert(query_str matches Some(x) && x@ == qv);
                },
            }
        }
        let route: Vec<String> = if auth.unicode_len() == 0 {
            Vec::new()
        } else {
            split_str(auth, '.')
        };
        let ghost routev = route@.map_values(|t: String| t@);
        proof {
            if auth@.len() == 0 {
                assert(routev =~= Seq::<Seq<char>>::empty());
            }
        }
        let mut all_ok = true;
        let mut li: usize = 0;
        while li < route.len()
            invariant
                0 <= li <= route@.len(),
                routev == route@.map_values(|t: String| t@),
                all_ok == (forall|j: int| 0 <= j < li ==> routev[j].len() > 0),
            decreases route@.len() - li,
        {
            let len_li = route[li].as_str().unicode_len();
            proof {
                assert(routev[li as int] == route@[li as int]@);
            }
            if len_li == 0 {
                all_ok = false;
                proof {
                    assert(routev[li as int].len() == 0);
                }
            }
            li = li + 1;
        }
        if !all_ok {
            proof {
                assert(!all_nonempty(routev));
            }
            return Err(ParseFailure::InvalidNaming);
        }
        let gtn: String = if route.len() > 0 && string_eq(&route[route.len() - 1], "uk") {
            String::from_str("uk")
        } else {
            String::new()
        };
        let res = parse_res(path.as_str());
        let query: Vec<(String, String)> = match query_str {
            None => Vec::new(),
            Some(qs) => parse_query(qs.as_str()),
        };
        let u = Uri { route, gtn, res, query };
        proof {
            let expected = parse_uri_spec(s@)->Some_0;
            assert(u@.route == expected.route);
            assert(u@.gtn == expected.gtn) by {
                if routev.len() > 0 {
                    assert(routev.last() == routev[routev.len() - 1]);
                }
            }
            assert(u@.res == expected.res);
            assert(u@.query == expected.query) by {
                if parts.2 is None {
                    assert(u@.query =~= Seq::<(Seq<char>, Seq<char>)>::empty());
                }
            }
        }
        Ok(u)
    }

    /// The route labels still to be consumed.
    pub fn route(&self) -> (r: &Vec<String>)
        ensures
            r@.map_values(|t: String| t@) == self@.route,
    {
        &self.route
    }

    /// Mutable access to the route; popping consumed labels is how
    /// resolution reduces an address.
    pub fn route_mut(&mut self) -> (r: &mut Vec<String>)
        ensures
            r@ == old(self).route_vec(),
            final(self)@ == (UriView {
                route: final(r)@.map_values(|t: String| t@),
                ..old(self)@
            }),
    {
        &mut self.route
    }

    /// The raw route vector, for relating `route_mut` to the view.
    pub closed spec fn route_vec(&self) -> Seq<String> {
        self.route@
    }

    /// Drops the last (most general) route label: one level of the
    /// hierarchy consumed.
    pub fn route_pop(&mut self)
        requires
            old(self)@.route.len() > 0,
        ensures
            final(self)@ == (UriView { route: old(self)@.route.drop_last(), ..old(self)@ }),
    {
        self.route.pop();
        proof {
            assert(self@.route =~= old(self)@.route.drop_last());
        }
    }

    /// The detected top-level suffix, or the empty string.
    pub fn gtn(&self) -> (r: &str)
        ensures
            r@ == self@.gtn,
    {
        self.gtn.as_str()
    }

    /// Value of the first query parameter of the given key.
    pub fn query_param(&self, key: &str) -> (r: Option<String>)
        ensures
            match r {
                Some(v) => query_lookup(self@.query, key@) == Some(v@),
                None => query_lookup(self@.query, key@) is None,
            },
    {
        let mut i: usize = 0;
        proof {
            assert(self@.query.skip(0) =~= self@.query);
        }
        while i < self.query.len()
            invariant
                0 <= i <= self.query@.len(),
                self@.query.len() == self.query@.len(),
                forall|j: int|
                    0 <= j < self.query@.len() ==> self@.query[j] == (
                    self.query@[j].0@,
                    self.query@[j].1@,
                    ),
                query_lookup(self@.query, key@) == query_lookup(
                    self@.query.skip(i as int),
                    key@,
                ),
            decreases self.query@.len() - i,
        {
            let ghost tail = self@.query.skip(i as int);
            proof {
                assert(tail[0] == self@.query[i as int]);
                assert(tail.drop_first() =~= self@.query.skip(i + 1));
            }
            if string_eq(&self.query[i].0, key) {
                return Some(self.query[i].1.clone());
            }
            i = i + 1;
        }
        proof {
            assert(self@.query.skip(self@.query.len() as int) =~= Seq::<(
                Seq<char>,
                Seq<char>,
            )>::empty());
        }
        None
    }

    /// The resource-path segment at the given position.
    pub fn res_index(&self, i: usize) -> (r: Option<&str>)
        ensures
            match r {
                Some(v) => i < self@.res.len() && v@ == self@.res[i as int],
                None => i >= self@.res.len(),
            },
    {
        if i < self.res.len() {
            Some(self.res[i].as_str())
        } else {
            None
        }
    }

    /// The textual form of the address as it now stands: the remaining
    /// route, then the resource path, then the query.
    pub fn to_string(&self) -> (r: String)
        ensures
            r@ == render_uri_spec(self@),
    {
        let mut r = String::from_str("spring://");
        r.append(join_str(&self.route, ".").as_str());
        if self.res.len() > 0 {
            r.append("/");
            r.append(join_str(&self.res, "/").as_str());
            r.append("/");
        }
        if self.query.len() > 0 {
            let mut qparts: Vec<String> = Vec::new();
            let mut i: usize = 0;
            while i < self.query.len()
                invariant
                    0 <= i <= self.query@.len(),
                    qparts@.len() == i,
                    forall|j: int|
                        0 <= j < i ==> qparts@[j]@ == self.query@[j].0@ + "="@ + self.query@[j].1@,
                decreases self.query@.len() - i,
            {
                let mut part = self.query[i].0.clone();
                part.append("=");
                part.append(self.query[i].1.as_str());
                qparts.push(part);
                i = i + 1;
            }
            r.append("?");
            r.append(join_str(&qparts, "&").as_str());
            proof {
                assert(qparts@.map_values(|t: String| t@) =~= self@.query.map_values(
                    |kv: (Seq<char>, Seq<char>)| kv.0 + "="@ + kv.1,
                ));
            }
        }
        r
    }
}

/// The textual form of an address.
pub open spec fn render_uri_spec(u: UriView) -> Seq<char> {
    "spring://"@ + join_spec(u.route, "."@) + (if u.res.len() > 0 {
        "/"@ + join_spec(u.res, "/"@) + "/"@
    } else {
        Seq::empty()
    }) + (if u.query.len() > 0 {
        "?"@ + join_spec(u.query.map_values(|kv: (Seq<char>, Seq<char>)| kv.0 + "="@ + kv.1), "&"@)
    } else {
        Seq::empty()
    })
}

} // verus!
