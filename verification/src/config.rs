//! Node configuration: the identity values every core call is handed
//! explicitly. The values come as `key=value` lines; reading them from disk
//! is the caller's business.

use vstd::prelude::*;
use vstd::string::*;

use crate::text::{split_spec, split_str};

verus! {

/// The identity accessors a node configuration offers.
pub trait NodeConfig {
    fn springname(&self) -> String;

    fn hostname(&self) -> String;

    fn geosub(&self) -> String;

    fn address(&self) -> String;

    fn uri(&self) -> String;
}

/// Mathematical image of a [`Config`].
pub ghost struct ConfigView {
    pub node: Seq<(Seq<char>, Seq<char>)>,
    pub live_test: bool,
    pub toggle_man: bool,
    pub toggle_offline: bool,
}

/// This node's configuration: identity key-value pairs and run flags.
pub struct Config {
    node: Vec<(String, String)>,
    pub live_test: bool,
    pub toggle_man: bool,
    pub toggle_offline: bool,
}

impl View for Config {
    type V = ConfigView;

    closed spec fn view(&self) -> ConfigView {
        ConfigView {
            node: self.node@.map_values(|kv: (String, String)| (kv.0@, kv.1@)),
            live_test: self.live_test,
            toggle_man: self.toggle_man,
            toggle_offline: self.toggle_offline,
        }
    }
}

impl Clone for Config {
    fn clone(&self) -> (r: Config)
        ensures
            r@ == self@,
    {
        let mut node: Vec<(String, String)> = Vec::new();
        let mut i: usize = 0;
        while i < self.node.len()
            invariant
                0 <= i <= self.node@.len(),
                node@.len() == i,
                forall|j: int|
                    0 <= j < i ==> (node@[j].0@, node@[j].1@) == (
                    self.node@[j].0@,
                    self.node@[j].1@,
                    ),
            decreases self.node@.len() - i,
        {
            node.push((self.node[i].0.clone(), self.node[i].1.clone()));
            i = i + 1;
        }
        let r = Config {
            node,
            live_test: self.live_test,
            toggle_man: self.toggle_man,
            toggle_offline: self.toggle_offline,
        };
        proof {
            assert(r@.node =~= self@.node);
        }
        r
    }
}

/// Value of the last pair carrying `key`, or the empty sequence.
pub open spec fn kv_lookup(kvs: Seq<(Seq<char>, Seq<char>)>, key: Seq<char>) -> Seq<char>
    decreases kvs.len(),
{
    if kvs.len() == 0 {
        Seq::empty()
    } else if kvs.last().0 == key {
        kvs.last().1
    } else {
        kv_lookup(kvs.drop_last(), key)
    }
}

/// The `key=value` pairs read from the given lines; a line without exactly
/// one `=` is skipped.
pub open spec fn pairs_of_lines(lines: Seq<Seq<char>>) -> Seq<(Seq<char>, Seq<char>)>
    decreases lines.len(),
{
    if lines.len() == 0 {
        Seq::empty()
    } else {
        let p = split_spec(lines[0], '=');
        let rest = pairs_of_lines(lines.drop_first());
        if p.len() == 2 {
            seq![(p[0], p[1])] + rest
        } else {
            rest
        }
    }
}

pub open spec fn config_pairs(text: Seq<char>) -> Seq<(Seq<char>, Seq<char>)> {
    pairs_of_lines(split_spec(text, '\n'))
}

impl Config {
    /// A configuration with no identity values and the default run flags.
    pub fn new() -> (r: Config)
        ensures
            r@ == (ConfigView {
                node: Seq::empty(),
                live_test: false,
                toggle_man: true,
                toggle_offline: false,
            }),
    {
        let r = Config { node: Vec::new(), live_test: false, toggle_man: true, toggle_offline: false };
        proof {
            assert(r@.node =~= Seq::<(Seq<char>, Seq<char>)>::empty());
        }
        r
    }

    /// A configuration whose identity values are read from `key=value`
    /// lines, later lines overriding earlier ones.
    pub fn from_text(text: &str) -> (r: Config)
        ensures
            r@ == (ConfigView {
                node: config_pairs(text@),
                live_test: false,
                toggle_man: true,
                toggle_offline: false,
            }),
    {
        let lines = split_str(text, '\n');
        let ghost linesv = lines@.map_values(|t: String| t@);
        let mut node: Vec<(String, String)> = Vec::new();
        let mut i: usize = 0;
        proof {
            assert(linesv.skip(0) =~= linesv);
            assert(pairs_of_lines(linesv) =~= node@.map_values(
                |kv: (String, String)| (kv.0@, kv.1@),
            ) + pairs_of_lines(linesv.skip(0)));
        }
        while i < lines.len()
            invariant
                0 <= i <= lines@.len(),
                linesv == lines@.map_values(|t: String| t@),
                pairs_of_lines(linesv) == node@.map_values(|kv: (String, String)| (kv.0@, kv.1@))
                    + pairs_of_lines(linesv.skip(i as int)),
            decreases lines@.len() - i,
        {
            let ghost pre = node@.map_values(|kv: (String, String)| (kv.0@, kv.1@));
            let parts = split_str(lines[i].as_str(), '=');
            if parts.len() == 2 {
                let k = parts[0].clone();
                let v = parts[1].clone();
                node.push((k, v));
            }
            i = i + 1;
            proof {
                let tail = linesv.skip(i - 1);
                assert(tail[0] == linesv[i - 1]);
                assert(tail.drop_first() =~= linesv.skip(i as int));
                let p = split_spec(linesv[i - 1], '=');
                assert(p == parts@.map_values(|t: String| t@));
                if p.len() == 2 {
                    assert(node@.map_values(|kv: (String, String)| (kv.0@, kv.1@)) =~= pre + seq![
                        (p[0], p[1]),
                    ]);
                    assert(pre + seq![(p[0], p[1])] + pairs_of_lines(linesv.skip(i as int)) =~= pre
                        + (seq![(p[0], p[1])] + pairs_of_lines(linesv.skip(i as int))));
                } else {
                    assert(node@.map_values(|kv: (String, String)| (kv.0@, kv.1@)) == pre);
                }
            }
        }
        proof {
            assert(linesv.skip(linesv.len() as int) =~= Seq::<Seq<char>>::empty());
            assert(pairs_of_lines(linesv) =~= node@.map_values(
                |kv: (String, String)| (kv.0@, kv.1@),
            ));
        }
        Config { node, live_test: false, toggle_man: true, toggle_offline: false }
    }

    /// Value of the given configuration key, or the empty string.
    pub fn get_key(&self, key: &str) -> (r: String)
        ensures
            r@ == kv_lookup(self@.node, key@),
    {
        let mut i: usize = self.node.len();
        proof {
            assert(self@.node.take(self@.node.len() as int) =~= self@.node);
        }
        while i > 0
            invariant
                0 <= i <= self.node@.len(),
                kv_lookup(self@.node, key@) == kv_lookup(self@.node.take(i as int), key@),
            decreases i,
    {
            i = i - 1;
            let ghost pref = self@.node.take(i + 1);
            proof {
                assert(pref.last() == self@.node[i as int]);
                assert(pref.drop_last() =~= self@.node.take(i as int));
            }
            if crate::text::string_eq(&self.node[i].0, key) {
                return self.node[i].1.clone();
            }
        }
        proof {
            assert(self@.node.take(0) =~= Seq::<(Seq<char>, Seq<char>)>::empty());
        }
        String::new()
    }
}

impl NodeConfig for Config {
    fn springname(&self) -> String {
        self.get_key("springname")
    }

    fn hostname(&self) -> String {
        self.get_key("hostname")
    }

    fn geosub(&self) -> String {
        self.get_key("geosub")
    }

    fn address(&self) -> String {
        self.get_key("address")
    }

    fn uri(&self) -> String {
        let mut r = self.get_key("springname");
        r.append(".");
        r.append(self.get_key("geosub").as_str());
        r.append(".uk");
        r
    }
}

} // verus!
