//! Verified text utilities: searching, splitting and joining around a
//! separator character, and decimal rendering and parsing. The protocol and
//! management grammars are all built from these.

use vstd::prelude::*;
use vstd::string::*;

verus! {

/// Index of the first occurrence of `c` in `s`, or -1 when `c` does not occur.
pub open spec fn find_spec(s: Seq<char>, c: char) -> int
    decreases s.len(),
{
    if s.len() == 0 {
        -1
    } else if s[0] == c {
        0
    } else {
        let r = find_spec(s.drop_first(), c);
        if r < 0 {
            -1
        } else {
            r + 1
        }
    }
}

pub proof fn lemma_find_spec(s: Seq<char>, c: char)
    ensures
        find_spec(s, c) >= 0 ==> {
            &&& find_spec(s, c) < s.len()
            &&& s[find_spec(s, c)] == c
            &&& forall|j: int| 0 <= j < find_spec(s, c) ==> s[j] != c
        },
        find_spec(s, c) < 0 ==> forall|j: int| 0 <= j < s.len() ==> s[j] != c,
    decreases s.len(),
{
    if s.len() > 0 && s[0] != c {
        lemma_find_spec(s.drop_first(), c);
        assert forall|j: int| 0 <= j < s.len() && find_spec(s, c) < 0 implies s[j] != c by {
            if j > 0 {
                assert(s.drop_first()[j - 1] == s[j]);
            }
        }
        if find_spec(s, c) >= 0 {
            assert forall|j: int| 0 <= j < find_spec(s, c) implies s[j] != c by {
                if j > 0 {
                    assert(s.drop_first()[j - 1] == s[j]);
                }
            }
        }
    }
}

/// First occurrence of `c` in `s`, as the exec counterpart of `find_spec`.
pub fn find_char(s: &str, c: char) -> (r: Option<usize>)
    ensures
        match r {
            Some(i) => i == find_spec(s@, c),
            None => find_spec(s@, c) < 0,
        },
{
    proof {
        lemma_find_spec(s@, c);
    }
    let n = s.unicode_len();
    let mut i: usize = 0;
    while i < n
        invariant
            n == s@.len(),
            0 <= i <= n,
            forall|j: int| 0 <= j < i ==> s@[j] != c,
        decreases n - i,
    {
        if s.get_char(i) == c {
            proof {
                lemma_find_spec(s@, c);
            }
            return Some(i);
        }
        i = i + 1;
    }
    proof {
        lemma_find_spec(s@, c);
    }
    None
}

/// `s` split at every occurrence of `c`: `n` occurrences give `n + 1` parts,
/// each free of `c`, in order.
pub open spec fn split_spec(s: Seq<char>, c: char) -> Seq<Seq<char>>
    decreases s.len(),
    via split_spec_decreases
{
    let i = find_spec(s, c);
    if i < 0 {
        seq![s]
    } else {
        seq![s.take(i)] + split_spec(s.skip(i + 1), c)
    }
}

#[via_fn]
proof fn split_spec_decreases(s: Seq<char>, c: char) {
    lemma_find_spec(s, c);
}

/// Exec counterpart of `split_spec`.
pub fn split_str(s: &str, c: char) -> (r: Vec<String>)
    ensures
        r@.map_values(|t: String| t@) == split_spec(s@, c),
        r@.len() >= 1,
    decreases s@.len(),
{
    proof {
        lemma_find_spec(s@, c);
    }
    match find_char(s, c) {
        None => {
            let mut v: Vec<String> = Vec::new();
            v.push(s.to_owned());
            proof {
                assert(v@.map_values(|t: String| t@) =~= split_spec(s@, c));
            }
            v
        },
        Some(i) => {
            let n = s.unicode_len();
            let head = s.substring_char(0, i).to_owned();
            let rest = s.substring_char(i + 1, n);
            proof {
                assert(rest@ =~= s@.skip(i + 1));
            }
            let mut v = split_str(rest, c);
            v.insert(0, head);
            proof {
                assert(head@ =~= s@.take(i as int));
                assert(v@.map_values(|t: String| t@) =~= split_spec(s@, c));
            }
            v
        },
    }
}

/// The parts joined with `sep` between neighbours.
pub open spec fn join_spec(parts: Seq<Seq<char>>, sep: Seq<char>) -> Seq<char>
    decreases parts.len(),
{
    if parts.len() == 0 {
        Seq::empty()
    } else if parts.len() == 1 {
        parts[0]
    } else {
        parts[0] + sep + join_spec(parts.drop_first(), sep)
    }
}

fn join_from(v: &Vec<String>, i: usize, sep: &str) -> (r: String)
    requires
        i <= v@.len(),
    ensures
        r@ == join_spec(v@.skip(i as int).map_values(|t: String| t@), sep@),
    decreases v@.len() - i,
{
    let ghost parts = v@.skip(i as int).map_values(|t: String| t@);
    if i == v.len() {
        proof {
            assert(parts.len() == 0);
        }
        String::new()
    } else if i + 1 == v.len() {
        proof {
            assert(parts.len() == 1);
            assert(parts[0] == v@[i as int]@);
        }
        v[i].clone()
    } else {
        let mut r = v[i].clone();
        r.append(sep);
        let tail = join_from(v, i + 1, sep);
        r.append(tail.as_str());
        proof {
            assert(v@.skip(i + 1).map_values(|t: String| t@) =~= parts.drop_first());
            assert(parts[0] == v@[i as int]@);
        }
        r
    }
}

/// Exec counterpart of `join_spec`.
pub fn join_str(v: &Vec<String>, sep: &str) -> (r: String)
    ensures
        r@ == join_spec(v@.map_values(|t: String| t@), sep@),
{
    let r = join_from(v, 0, sep);
    proof {
        assert(v@.skip(0).map_values(|t: String| t@) =~= v@.map_values(|t: String| t@));
    }
    r
}

/// Whether the two slices hold the same characters.
pub fn str_eq(a: &str, b: &str) -> (r: bool)
    ensures
        r == (a@ == b@),
{
    let la = a.unicode_len();
    let lb = b.unicode_len();
    if la != lb {
        return false;
    }
    let mut i: usize = 0;
    while i < la
        invariant
            la == a@.len(),
            lb == b@.len(),
            la == lb,
            0 <= i <= la,
            forall|j: int| 0 <= j < i ==> a@[j] == b@[j],
        decreases la - i,
    {
        if a.get_char(i) != b.get_char(i) {
            return false;
        }
        i = i + 1;
    }
    proof {
        assert(a@ =~= b@);
    }
    true
}

/// Whether the two strings hold the same characters.
pub fn string_eq(a: &String, b: &str) -> (r: bool)
    ensures
        r == (a@ == b@),
{
    str_eq(a.as_str(), b)
}

/// The character for one decimal digit.
pub open spec fn dec_digit(d: int) -> char {
    if d == 0 {
        '0'
    } else if d == 1 {
        '1'
    } else if d == 2 {
        '2'
    } else if d == 3 {
        '3'
    } else if d == 4 {
        '4'
    } else if d == 5 {
        '5'
    } else if d == 6 {
        '6'
    } else if d == 7 {
        '7'
    } else if d == 8 {
        '8'
    } else {
        '9'
    }
}

/// The decimal rendering of a non-negative number, most significant digit
/// first, without leading zeros (a single zero for 0).
pub open spec fn dec_of(n: int) -> Seq<char>
    decreases n,
{
    if n < 10 {
        seq![dec_digit(n)]
    } else {
        dec_of(n / 10) + seq![dec_digit(n % 10)]
    }
}

fn digit_str(d: u64) -> (r: &'static str)
    requires
        d < 10,
    ensures
        r@ == seq![dec_digit(d as int)],
{
    proof {
        reveal_strlit("0");
        reveal_strlit("1");
        reveal_strlit("2");
        reveal_strlit("3");
        reveal_strlit("4");
        reveal_strlit("5");
        reveal_strlit("6");
        reveal_strlit("7");
        reveal_strlit("8");
        reveal_strlit("9");
    }
    let r = if d == 0 {
        "0"
    } else if d == 1 {
        "1"
    } else if d == 2 {
        "2"
    } else if d == 3 {
        "3"
    } else if d == 4 {
        "4"
    } else if d == 5 {
        "5"
    } else if d == 6 {
        "6"
    } else if d == 7 {
        "7"
    } else {
        "9"
    };
    let r = if d == 8 {
        "8"
    } else {
        r
    };
    proof {
        assert(r@ =~= seq![dec_digit(d as int)]);
    }
    r
}

/// Exec counterpart of `dec_of`.
pub fn u64_to_dec(n: u64) -> (r: String)
    ensures
        r@ == dec_of(n as int),
    decreases n,
{
    if n < 10 {
        digit_str(n).to_owned()
    } else {
        let mut s = u64_to_dec(n / 10);
        s.append(digit_str(n % 10));
        s
    }
}

/// Numeric value of one decimal digit character; 10 marks a non-digit.
pub open spec fn digit_val(c: char) -> int {
    if c == '0' {
        0
    } else if c == '1' {
        1
    } else if c == '2' {
        2
    } else if c == '3' {
        3
    } else if c == '4' {
        4
    } else if c == '5' {
        5
    } else if c == '6' {
        6
    } else if c == '7' {
        7
    } else if c == '8' {
        8
    } else if c == '9' {
        9
    } else {
        10
    }
}

pub open spec fn all_digits(s: Seq<char>) -> bool {
    forall|j: int| 0 <= j < s.len() ==> digit_val(s[j]) < 10
}

/// Value of a digit sequence read as decimal, most significant digit first.
pub open spec fn dec_val(s: Seq<char>) -> int
    decreases s.len(),
{
    if s.len() == 0 {
        0
    } else {
        dec_val(s.drop_last()) * 10 + digit_val(s.last())
    }
}

fn digit_of_char(c: char) -> (r: u64)
    ensures
        r == digit_val(c),
{
    if c == '0' {
        0
    } else if c == '1' {
        1
    } else if c == '2' {
        2
    } else if c == '3' {
        3
    } else if c == '4' {
        4
    } else if c == '5' {
        5
    } else if c == '6' {
        6
    } else if c == '7' {
        7
    } else if c == '8' {
        8
    } else if c == '9' {
        9
    } else {
        10
    }
}

proof fn lemma_dec_val_bounds(s: Seq<char>)
    requires
        all_digits(s),
    ensures
        dec_val(s) >= 0,
    decreases s.len(),
{
    if s.len() > 0 {
        assert(all_digits(s.drop_last()));
        lemma_dec_val_bounds(s.drop_last());
    }
}

/// One forward step of `Seq::filter` over a growing prefix.
pub proof fn lemma_filter_take_step<A>(s: Seq<A>, pred: spec_fn(A) -> bool, i: int)
    requires
        0 <= i < s.len(),
    ensures
        s.take(i + 1).filter(pred) == if pred(s[i]) {
            s.take(i).filter(pred).push(s[i])
        } else {
            s.take(i).filter(pred)
        },
{
    reveal(Seq::filter);
    assert(s.take(i + 1).drop_last() =~= s.take(i));
    assert(s.take(i + 1).last() == s[i]);
}

/// Whether one of the strings holds the given characters.
pub fn vec_contains_str(v: &Vec<String>, s: &str) -> (r: bool)
    ensures
        r == v@.map_values(|t: String| t@).contains(s@),
{
    let ghost sv = v@.map_values(|t: String| t@);
    let mut i: usize = 0;
    while i < v.len()
        invariant
            0 <= i <= v@.len(),
            sv == v@.map_values(|t: String| t@),
            forall|j: int| 0 <= j < i ==> sv[j] != s@,
        decreases v@.len() - i,
    {
        if string_eq(&v[i], s) {
            proof {
                assert(sv[i as int] == s@);
            }
            return true;
        }
        i = i + 1;
    }
    proof {
        assert(!sv.contains(s@));
    }
    false
}

/// A sequence whose members all satisfy the predicate is its own filtrate.
pub proof fn lemma_filter_all<A>(s: Seq<A>, pred: spec_fn(A) -> bool)
    requires
        forall|i: int| 0 <= i < s.len() ==> pred(s[i]),
    ensures
        s.filter(pred) == s,
    decreases s.len(),
{
    reveal(Seq::filter);
    if s.len() > 0 {
        lemma_filter_all(s.drop_last(), pred);
        assert(s =~= s.drop_last().push(s.last()));
    }
}

/// Removing the one member that fails the predicate is the same as
/// filtering by it.
pub proof fn lemma_remove_is_filter<A>(s: Seq<A>, pred: spec_fn(A) -> bool, idx: int)
    requires
        0 <= idx < s.len(),
        !pred(s[idx]),
        forall|j: int| 0 <= j < s.len() && j != idx ==> pred(s[j]),
    ensures
        s.remove(idx) == s.filter(pred),
    decreases s.len(),
{
    reveal(Seq::filter);
    if idx == s.len() - 1 {
        lemma_filter_all(s.drop_last(), pred);
        assert(s.remove(idx) =~= s.drop_last());
    } else {
        lemma_remove_is_filter(s.drop_last(), pred, idx);
        assert(s.drop_last().remove(idx).push(s.last()) =~= s.remove(idx));
    }
}

/// Decimal parse: `Some` exactly on non-empty all-digit input whose value
/// fits in a `u64`.
pub fn parse_dec(s: &str) -> (r: Option<u64>)
    ensures
        match r {
            Some(v) => s@.len() > 0 && all_digits(s@) && v == dec_val(s@),
            None => s@.len() == 0 || !all_digits(s@) || dec_val(s@) > u64::MAX,
        },
{
    let n = s.unicode_len();
    if n == 0 {
        return None;
    }
    let mut acc: u64 = 0;
    let mut i: usize = 0;
    while i < n
        invariant
            n == s@.len(),
            0 <= i <= n,
            all_digits(s@.take(i as int)),
            acc == dec_val(s@.take(i as int)),
        decreases n - i,
    {
        let c = s.get_char(i);
        let d = digit_of_char(c);
        if d >= 10 {
            proof {
                assert(digit_val(s@[i as int]) >= 10);
            }
            return None;
        }
        proof {
            lemma_dec_val_bounds(s@.take(i as int));
        }
        if acc > (u64::MAX - d) / 10 {
            proof {
                lemma_dec_val_grows(s@, i as int);
            }
            return None;
        }
        acc = acc * 10 + d;
        proof {
            assert(s@.take(i + 1).drop_last() =~= s@.take(i as int));
            assert(s@.take(i + 1).last() == s@[i as int]);
            assert(all_digits(s@.take(i + 1)));
        }
        i = i + 1;
    }
    proof {
        assert(s@.take(n as int) =~= s@);
    }
    Some(acc)
}

proof fn lemma_dec_val_grows(s: Seq<char>, i: int)
    requires
        0 <= i < s.len(),
        all_digits(s.take(i)),
        digit_val(s[i]) < 10,
        dec_val(s.take(i)) * 10 + digit_val(s[i]) > u64::MAX,
    ensures
        !all_digits(s) || dec_val(s) > u64::MAX,
    decreases s.len() - i,
{
    assert(s.take(i + 1).drop_last() =~= s.take(i));
    assert(s.take(i + 1).last() == s[i]);
    assert(dec_val(s.take(i + 1)) > u64::MAX);
    assert(all_digits(s.take(i + 1)));
    if i + 1 == s.len() {
        assert(s.take(i + 1) =~= s);
    } else {
        if digit_val(s[i + 1]) < 10 {
            assert(dec_val(s.take(i + 2)) == dec_val(s.take(i + 1)) * 10 + digit_val(s[i + 1])) by {
                assert(s.take(i + 2).drop_last() =~= s.take(i + 1));
                assert(s.take(i + 2).last() == s[i + 1]);
            }
            lemma_dec_val_bounds(s.take(i + 1));
            lemma_dec_val_grows_helper(s, i + 1);
        } else {
            assert(!all_digits(s));
        }
    }
}

proof fn lemma_dec_val_grows_helper(s: Seq<char>, i: int)
    requires
        0 < i < s.len(),
        all_digits(s.take(i)),
        digit_val(s[i]) < 10,
        dec_val(s.take(i)) > u64::MAX,
    ensures
        !all_digits(s) || dec_val(s) > u64::MAX,
    decreases s.len() - i,
{
    assert(s.take(i + 1).drop_last() =~= s.take(i));
    assert(s.take(i + 1).last() == s[i]);
    lemma_dec_val_bounds(s.take(i));
    assert(dec_val(s.take(i + 1)) > u64::MAX);
    assert(all_digits(s.take(i + 1)));
    if i + 1 == s.len() {
        assert(s.take(i + 1) =~= s);
    } else {
        if digit_val(s[i + 1]) < 10 {
            lemma_dec_val_grows_helper(s, i + 1);
        } else {
            assert(!all_digits(s));
        }
    }
}

} // verus!
