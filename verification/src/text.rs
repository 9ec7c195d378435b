use vstd::prelude::*;

verus! {

/// Whitespace characters that segment trimming removes: the ASCII ones.
pub open spec fn is_ws(c: char) -> bool {
    c == ' ' || c == '\t' || c == '\n' || c == '\r' || c == '\u{b}' || c == '\u{c}'
}

/// Whether `c` is trimmed whitespace.
pub fn is_space(c: char) -> (b: bool)
    ensures
        b == is_ws(c),
{
    c == ' ' || c == '\t' || c == '\n' || c == '\r' || c == '\u{b}' || c == '\u{c}'
}

/// Longest suffix of `s` whose first character is not whitespace.
pub open spec fn trim_start_spec(s: Seq<char>) -> Seq<char>
    decreases s.len(),
{
    if s.len() > 0 && is_ws(s[0]) {
        trim_start_spec(s.drop_first())
    } else {
        s
    }
}

/// Longest prefix of `s` whose last character is not whitespace.
pub open spec fn trim_end_spec(s: Seq<char>) -> Seq<char>
    decreases s.len(),
{
    if s.len() > 0 && is_ws(s[s.len() - 1]) {
        trim_end_spec(s.drop_last())
    } else {
        s
    }
}

/// `s` with leading and trailing whitespace removed.
pub open spec fn trimmed(s: Seq<char>) -> Seq<char> {
    trim_end_spec(trim_start_spec(s))
}

/// The characters of `s`, in order, as a vector.
pub fn chars_of(s: &str) -> (v: Vec<char>)
    ensures
        v@ == s@,
{
    let n = s.unicode_len();
    let mut v: Vec<char> = Vec::new();
    let mut i: usize = 0;
    while i < n
        invariant
            i <= n,
            n == s@.len(),
            v@ == s@.take(i as int),
        decreases n - i,
    {
        let c = s.get_char(i);
        v.push(c);
        proof {
            assert(s@.take(i + 1) =~= s@.take(i as int).push(s@[i as int]));
        }
        i += 1;
    }
    proof {
        assert(v@ =~= s@);
    }
    v
}

/// Collects a character vector back into a `String`.
///
/// Relies on `String`'s `FromIterator<char>` implementation: collecting
/// characters yields the string of exactly those characters, in order.
#[verifier::external_body]
pub fn string_from_chars(v: &Vec<char>) -> (s: String)
    ensures
        s@ == v@,
{
    v.iter().collect()
}

/// Whether the character slice spells exactly the string `s`.
pub fn chars_eq_str(cs: &[char], s: &str) -> (r: bool)
    ensures
        r == (cs@ == s@),
{
    let n = s.unicode_len();
    if cs.len() != n {
        proof {
            assert(cs@ != s@);
        }
        return false;
    }
    let mut i: usize = 0;
    while i < n
        invariant
            i <= n,
            n == s@.len(),
            cs@.len() == n,
            forall|k: int| 0 <= k < i ==> cs@[k] == s@[k],
        decreases n - i,
    {
        if cs[i] != s.get_char(i) {
            proof {
                assert(cs@ != s@);
            }
            return false;
        }
        i += 1;
    }
    proof {
        assert(cs@ =~= s@);
    }
    true
}

/// Index of the first occurrence of `c` in `s`, or `s.len()` if there is none.
pub open spec fn first_ix(s: Seq<char>, c: char) -> nat
    decreases s.len(),
{
    if s.len() == 0 {
        0
    } else if s[0] == c {
        0
    } else {
        1 + first_ix(s.drop_first(), c)
    }
}

pub proof fn lemma_first_ix_at(s: Seq<char>, c: char, i: int)
    requires
        0 <= i <= s.len(),
        forall|k: int| 0 <= k < i ==> s[k] != c,
        i < s.len() ==> s[i] == c,
    ensures
        first_ix(s, c) == i,
    decreases i,
{
    if i > 0 {
        let d = s.drop_first();
        assert forall|k: int| 0 <= k < i - 1 implies d[k] != c by {
            assert(d[k] == s[k + 1]);
        }
        assert(i - 1 < d.len() ==> d[i - 1] == s[i]);
        lemma_first_ix_at(d, c, i - 1);
    }
}

/// Index of the first occurrence of `c` in the slice, or its length.
pub fn find_first(cs: &[char], c: char) -> (i: usize)
    ensures
        i == first_ix(cs@, c),
        i <= cs@.len(),
{
    let n = cs.len();
    let mut i: usize = 0;
    while i < n
        invariant
            i <= n,
            n == cs@.len(),
            forall|k: int| 0 <= k < i ==> cs@[k] != c,
        decreases n - i,
    {
        if cs[i] == c {
            proof {
                lemma_first_ix_at(cs@, c, i as int);
            }
            return i;
        }
        i += 1;
    }
    proof {
        lemma_first_ix_at(cs@, c, n as int);
    }
    n
}

/// A fresh vector holding the characters of `cs`.
pub fn copy_chars(cs: &[char]) -> (v: Vec<char>)
    ensures
        v@ == cs@,
{
    let n = cs.len();
    let mut v: Vec<char> = Vec::new();
    let mut i: usize = 0;
    while i < n
        invariant
            i <= n,
            n == cs@.len(),
            v@ == cs@.take(i as int),
        decreases n - i,
    {
        v.push(cs[i]);
        proof {
            assert(cs@.take(i + 1) =~= cs@.take(i as int).push(cs@[i as int]));
        }
        i += 1;
    }
    proof {
        assert(v@ =~= cs@);
    }
    v
}

/// `cs` with leading whitespace removed.
pub fn trim_start(cs: &[char]) -> (r: &[char])
    ensures
        r@ == trim_start_spec(cs@),
    decreases cs@.len(),
{
    if cs.len() > 0 && is_space(cs[0]) {
        let (_, rest) = cs.split_at(1);
        proof {
            assert(rest@ =~= cs@.drop_first());
        }
        trim_start(rest)
    } else {
        cs
    }
}

/// `cs` with trailing whitespace removed.
pub fn trim_end(cs: &[char]) -> (r: &[char])
    ensures
        r@ == trim_end_spec(cs@),
    decreases cs@.len(),
{
    let n = cs.len();
    if n > 0 && is_space(cs[n - 1]) {
        let (rest, _) = cs.split_at(n - 1);
        proof {
            assert(rest@ =~= cs@.drop_last());
        }
        trim_end(rest)
    } else {
        cs
    }
}

/// `cs` with leading and trailing whitespace removed.
pub fn trim(cs: &[char]) -> (r: &[char])
    ensures
        r@ == trimmed(cs@),
{
    trim_end(trim_start(cs))
}

} // verus!
