//! Paths as character sequences, and the directory layout of an installation.

use vstd::prelude::*;

verus! {

/// `pat` occurs in `s` at index `i`.
pub open spec fn occurs_at(s: Seq<char>, pat: Seq<char>, i: int) -> bool {
    0 <= i && i + pat.len() <= s.len() && s.subrange(i, i + pat.len()) == pat
}

/// `pat` occurs somewhere in `s`.
pub open spec fn contains_spec(s: Seq<char>, pat: Seq<char>) -> bool {
    exists|i: int| occurs_at(s, pat, i)
}

/// Whether two texts are the same.
pub fn same_text(a: &str, b: &str) -> (r: bool)
    ensures
        r == (a@ == b@),
{
    let n = a.unicode_len();
    if n != b.unicode_len() {
        return false;
    }
    let mut i: usize = 0;
    while i < n
        invariant
            n == a@.len() == b@.len(),
            i <= n,
            forall|j: int| 0 <= j < i ==> a@[j] == b@[j],
        decreases n - i,
    {
        if a.get_char(i) != b.get_char(i) {
            return false;
        }
        i = i + 1;
    }
    assert(a@ =~= b@);
    true
}

/// Whether `pat` occurs at index `i` of `s`.
fn occurs_at_exec(s: &str, pat: &str, i: usize) -> (r: bool)
    requires
        i + pat@.len() <= s@.len() <= usize::MAX,
    ensures
        r == occurs_at(s@, pat@, i as int),
{
    let m = pat.unicode_len();
    let mut j: usize = 0;
    while j < m
        invariant
            m == pat@.len(),
            i + m <= s@.len() <= usize::MAX,
            j <= m,
            forall|k: int| 0 <= k < j ==> s@[i + k] == pat@[k],
        decreases m - j,
    {
        if s.get_char(i + j) != pat.get_char(j) {
            assert(s@.subrange(i as int, i + m)[j as int] != pat@[j as int]);
            return false;
        }
        j = j + 1;
    }
    assert(s@.subrange(i as int, i + m) =~= pat@);
    true
}

/// Whether `pat` occurs somewhere in `s`.
pub fn contains_text(s: &str, pat: &str) -> (r: bool)
    ensures
        r == contains_spec(s@, pat@),
{
    let n = s.unicode_len();
    let m = pat.unicode_len();
    if m == 0 {
        assert(s@.subrange(0, 0) =~= pat@);
        assert(occurs_at(s@, pat@, 0));
        return true;
    }
    if m > n {
        assert forall|i: int| !occurs_at(s@, pat@, i) by {}
        return false;
    }
    let mut i: usize = 0;
    while i < n - m + 1
        invariant
            n == s@.len(),
            m == pat@.len(),
            1 <= m <= n,
            i <= n - m + 1,
            forall|k: int| 0 <= k < i ==> !occurs_at(s@, pat@, k),
        decreases n - m + 1 - i,
    {
        if occurs_at_exec(s, pat, i) {
            return true;
        }
        i = i + 1;
    }
    assert forall|k: int| !occurs_at(s@, pat@, k) by {
        if 0 <= k < i {
        }
    }
    false
}

/// The decimal digit for `d`.
pub open spec fn digit_char(d: nat) -> char {
    if d == 0 { '0' }
    else if d == 1 { '1' }
    else if d == 2 { '2' }
    else if d == 3 { '3' }
    else if d == 4 { '4' }
    else if d == 5 { '5' }
    else if d == 6 { '6' }
    else if d == 7 { '7' }
    else if d == 8 { '8' }
    else { '9' }
}

/// The decimal digits of `n`.
pub open spec fn digits(n: nat) -> Seq<char>
    decreases n,
{
    if n < 10 {
        seq![digit_char(n)]
    } else {
        digits(n / 10) + seq![digit_char(n % 10)]
    }
}

/// `n` written in decimal, with a leading minus sign where negative.
pub open spec fn decimal(n: int) -> Seq<char> {
    if n < 0 {
        seq!['-'] + digits((-n) as nat)
    } else {
        digits(n as nat)
    }
}

fn digit_text(d: u64) -> (r: &'static str)
    requires
        d < 10,
    ensures
        r@ == seq![digit_char(d as nat)],
{
    proof {
        reveal_strlit("0");
        reveal_strlit("1");
        reveal_strlit("2");
        reveal_strlit("3");
        reveal_strlit("4");
        reveal_strlit("5");
        reveal_strlit("6");
        reveal_strlit("7");
        reveal_strlit("8");
        reveal_strlit("9");
    }
    if d == 0 { "0" }
    else if d == 1 { "1" }
    else if d == 2 { "2" }
    else if d == 3 { "3" }
    else if d == 4 { "4" }
    else if d == 5 { "5" }
    else if d == 6 { "6" }
    else if d == 7 { "7" }
    else if d == 8 { "8" }
    else { "9" }
}

fn append_digits(s: &mut String, n: u64)
    ensures
        final(s)@ == old(s)@ + digits(n as nat),
    decreases n,
{
    if n >= 10 {
        append_digits(s, n / 10);
    }
    s.append(digit_text(n % 10));
    proof {
        if n >= 10 {
            assert(old(s)@ + digits(n as nat) =~= old(s)@ + digits((n / 10) as nat) + seq![digit_char((n % 10) as nat)]);
        }
    }
}

/// An integer in decimal.
pub fn decimal_text(n: i32) -> (r: String)
    ensures
        r@ == decimal(n as int),
{
    let mut r = String::new();
    if n < 0 {
        let minus = "-";
        proof {
            reveal_strlit("-");
        }
        r.append(minus);
        let m: i64 = -(n as i64);
        append_digits(&mut r, m as u64);
    } else {
        append_digits(&mut r, n as u64);
    }
    r
}

/// Two texts one after the other.
pub fn concat_text(a: &str, b: &str) -> (r: String)
    ensures
        r@ == a@ + b@,
{
    let mut r = String::from_str(a);
    r.append(b);
    r
}

/// `dir` and `name` joined by a slash.
pub open spec fn join_spec(dir: Seq<char>, name: Seq<char>) -> Seq<char> {
    dir + seq!['/'] + name
}

/// Index of the last slash of `p`, or -1 where it has none.
pub open spec fn last_slash(p: Seq<char>) -> int
    decreases p.len(),
{
    if p.len() == 0 {
        -1
    } else if p.last() == '/' {
        p.len() - 1
    } else {
        last_slash(p.drop_last())
    }
}

/// The directory part of `p`: what precedes its last slash, where that is not empty.
pub open spec fn parent_dir(p: Seq<char>) -> Option<Seq<char>> {
    let k = last_slash(p);
    if k > 0 {
        Some(p.subrange(0, k))
    } else {
        None
    }
}

proof fn lemma_last_slash_bounds(p: Seq<char>)
    ensures
        -1 <= last_slash(p) < p.len(),
        last_slash(p) >= 0 ==> p[last_slash(p)] == '/',
        forall|j: int| last_slash(p) < j < p.len() ==> p[j] != '/',
    decreases p.len(),
{
    if p.len() > 0 && p.last() != '/' {
        lemma_last_slash_bounds(p.drop_last());
        assert forall|j: int| last_slash(p) < j < p.len() implies p[j] != '/' by {
            if j < p.len() - 1 {
                assert(p[j] == p.drop_last()[j]);
            }
        }
    }
}

/// Joins a directory and a file name with a slash.
pub fn join(dir: &str, name: &str) -> (r: String)
    ensures
        r@ == join_spec(dir@, name@),
{
    let mut r = String::from_str(dir);
    let slash = "/";
    proof {
        reveal_strlit("/");
    }
    r.append(slash);
    r.append(name);
    r
}

/// The directory part of a path, if it has one.
pub fn parent(p: &str) -> (r: Option<String>)
    ensures
        match r {
            Some(d) => parent_dir(p@) == Some(d@),
            None => parent_dir(p@) is None,
        },
{
    let n = p.unicode_len();
    let mut i: usize = n;
    proof {
        lemma_last_slash_bounds(p@);
    }
    while i > 0
        invariant
            i <= n == p@.len(),
            -1 <= last_slash(p@) < p@.len(),
            last_slash(p@) >= 0 ==> p@[last_slash(p@)] == '/',
            forall|j: int| last_slash(p@) < j < p@.len() ==> p@[j] != '/',
            last_slash(p@) < i,
        decreases i,
    {
        if p.get_char(i - 1) == '/' {
            if i - 1 == 0 {
                return None;
            }
            return Some(String::from_str(p.substring_char(0, i - 1)));
        }
        i = i - 1;
    }
    None
}

/// Where an installation keeps its files, relative to the working directory.
#[derive(Debug)]
pub struct Layout {
    /// Fetched executables.
    pub binaries_dir: String,
    /// The fetched runtime artifact.
    pub nodes_dir: String,
    /// The generated chain specification.
    pub chain_specs_dir: String,
}

impl Default for Layout {
    /// The layout `./binaries`, `./nodes`, `./chain-specs`.
    fn default() -> (r: Layout)
        ensures
            r.binaries_dir@ == "./binaries"@,
            r.nodes_dir@ == "./nodes"@,
            r.chain_specs_dir@ == "./chain-specs"@,
    {
        Layout {
            binaries_dir: String::from_str("./binaries"),
            nodes_dir: String::from_str("./nodes"),
            chain_specs_dir: String::from_str("./chain-specs"),
        }
    }
}

} // verus!
