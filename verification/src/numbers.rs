use vstd::prelude::*;

verus! {

pub open spec fn is_digit(c: char) -> bool {
    '0' <= c && c <= '9'
}

pub open spec fn digit_val(c: char) -> int {
    c as int - '0' as int
}

pub open spec fn all_digits(s: Seq<char>) -> bool {
    forall|k: int| 0 <= k < s.len() ==> is_digit(#[trigger] s[k])
}

/// Value of a digit string read in base ten.
pub open spec fn digits_val(s: Seq<char>) -> int
    decreases s.len(),
{
    if s.len() == 0 {
        0
    } else {
        digits_val(s.drop_last()) * 10 + digit_val(s.last())
    }
}

/// The integer a string denotes: an optional sign, then one or more digits,
/// and nothing else; any other shape denotes no integer.
pub open spec fn spec_parse_int(s: Seq<char>) -> Option<int> {
    let body = if s.len() > 0 && (s[0] == '+' || s[0] == '-') {
        s.drop_first()
    } else {
        s
    };
    if body.len() > 0 && all_digits(body) {
        if s.len() > 0 && s[0] == '-' {
            Some(-digits_val(body))
        } else {
            Some(digits_val(body))
        }
    } else {
        None
    }
}

proof fn lemma_digits_val_nonneg(s: Seq<char>)
    requires
        all_digits(s),
    ensures
        digits_val(s) >= 0,
    decreases s.len(),
{
    if s.len() > 0 {
        assert(all_digits(s.drop_last())) by {
            assert(forall|k: int|
                0 <= k < s.len() - 1 ==> #[trigger] s.drop_last()[k] == s[k]);
        }
        lemma_digits_val_nonneg(s.drop_last());
    }
}

proof fn lemma_digits_val_prefix(s: Seq<char>, i: int)
    requires
        0 <= i <= s.len(),
        all_digits(s),
    ensures
        digits_val(s) >= digits_val(s.take(i)),
    decreases s.len() - i,
{
    if i < s.len() {
        let t = s.take(i + 1);
        assert(t.drop_last() =~= s.take(i));
        assert(t.last() == s[i]);
        assert(all_digits(s.take(i))) by {
            assert(forall|k: int| 0 <= k < i ==> #[trigger] s.take(i)[k] == s[k]);
        }
        lemma_digits_val_nonneg(s.take(i));
        assert(digits_val(t) == digits_val(s.take(i)) * 10 + digit_val(s[i]));
        assert(digits_val(t) >= digits_val(s.take(i)));
        lemma_digits_val_prefix(s, i + 1);
    } else {
        assert(s.take(i) =~= s);
    }
}

/// Parses the digits-and-sign notation of an `i64` exactly as the integer
/// grammar of [`spec_parse_int`] reads it; a string denoting an integer
/// outside the `i64` range parses to nothing.
pub fn parse_i64(cs: &[char]) -> (r: Option<i64>)
    ensures
        match r {
            Some(v) => spec_parse_int(cs@) == Some(v as int),
            None => match spec_parse_int(cs@) {
                Some(n) => n > i64::MAX || n < i64::MIN,
                None => true,
            },
        },
{
    let negative: bool;
    let body: &[char];
    if cs.len() > 0 && (cs[0] == '+' || cs[0] == '-') {
        negative = cs[0] == '-';
        let (_, rest) = cs.split_at(1);
        proof {
            assert(rest@ =~= cs@.drop_first());
        }
        body = rest;
    } else {
        negative = false;
        body = cs;
    }
    let n = body.len();
    if n == 0 {
        return None;
    }
    // 2^63, the magnitude of the most negative value.
    let bound: u64 = 9223372036854775808;
    let cutoff: u64 = 922337203685477580;
    let mut acc: u64 = 0;
    let mut j: usize = 0;
    while j < n
        invariant
            j <= n,
            n == body@.len(),
            all_digits(body@.take(j as int)),
            acc == digits_val(body@.take(j as int)),
            acc <= bound,
            bound == 9223372036854775808,
            cutoff == 922337203685477580,
            body@ == (if cs@.len() > 0 && (cs@[0] == '+' || cs@[0] == '-') {
                cs@.drop_first()
            } else {
                cs@
            }),
            negative == (cs@.len() > 0 && cs@[0] == '-'),
        decreases n - j,
    {
        let c = body[j];
        if !('0' <= c && c <= '9') {
            proof {
                assert(!all_digits(body@));
            }
            return None;
        }
        let d: u64 = (c as u32 - '0' as u32) as u64;
        proof {
            assert(body@.take(j + 1) =~= body@.take(j as int).push(c));
            assert(body@.take(j + 1).drop_last() =~= body@.take(j as int));
        }
        if acc > cutoff {
            proof {
                let pre = body@.take(j + 1);
                assert(digits_val(pre) == acc * 10 + digit_val(c));
                if all_digits(body@) {
                    lemma_digits_val_prefix(body@, j + 1);
                    assert(digits_val(body@) > 9223372036854775808);
                }
            }
            return None;
        }
        acc = acc * 10 + d;
        if acc > bound {
            proof {
                if all_digits(body@) {
                    lemma_digits_val_prefix(body@, j + 1);
                    assert(digits_val(body@) > 9223372036854775808);
                }
            }
            return None;
        }
        j += 1;
    }
    proof {
        assert(body@.take(n as int) =~= body@);
    }
    if negative {
        if acc == bound {
            Some(i64::MIN)
        } else {
            Some(-(acc as i64))
        }
    } else {
        if acc <= i64::MAX as u64 {
            Some(acc as i64)
        } else {
            None
        }
    }
}

/// Parses an `i16` by the same grammar, rejecting values outside its range.
pub fn parse_i16(cs: &[char]) -> (r: Option<i16>)
    ensures
        match r {
            Some(v) => spec_parse_int(cs@) == Some(v as int),
            None => match spec_parse_int(cs@) {
                Some(n) => n > i16::MAX || n < i16::MIN,
                None => true,
            },
        },
{
    match parse_i64(cs) {
        Some(v) => {
            if -32768 <= v && v <= 32767 {
                Some(v as i16)
            } else {
                None
            }
        },
        None => None,
    }
}

} // verus!
