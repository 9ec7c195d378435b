use vstd::prelude::*;

use crate::text::{chars_eq_str, chars_of, copy_chars, find_first, first_ix, is_ws,
    lemma_first_ix_at, string_from_chars, trim, trimmed};

verus! {

/// Whether the trimmed text of a cookie segment begins with the session key.
pub open spec fn seg_matches(seg: Seq<char>) -> bool {
    trimmed(seg).len() >= 8 && trimmed(seg).take(8) == "session="@
}

/// The token carried by a matching segment: what follows the key, verbatim;
/// an empty remainder carries no token.
pub open spec fn seg_token(seg: Seq<char>) -> Option<Seq<char>> {
    if trimmed(seg).len() > 8 {
        Some(trimmed(seg).skip(8))
    } else {
        None
    }
}

/// The session token in a raw cookie header: the header splits on `';'`
/// into segments, each segment is trimmed, and the first segment whose
/// trimmed text starts with `session=` decides the outcome; its remainder
/// is the token, and an empty remainder means no token.
pub open spec fn spec_extract(s: Seq<char>) -> Option<Seq<char>>
    decreases s.len(),
{
    let i = first_ix(s, ';') as int;
    let seg = s.take(i);
    if seg_matches(seg) {
        seg_token(seg)
    } else if i >= s.len() {
        None
    } else {
        spec_extract(s.skip(i + 1))
    }
}

fn extract_token_chars(cs: &[char]) -> (r: Option<Vec<char>>)
    ensures
        match r {
            Some(t) => spec_extract(cs@) == Some(t@),
            None => spec_extract(cs@) is None,
        },
    decreases cs@.len(),
{
    let i = find_first(cs, ';');
    let (seg, _) = cs.split_at(i);
    proof {
        assert(seg@ =~= cs@.take(i as int));
    }
    let t = trim(seg);
    if t.len() >= 8 {
        let (key, rem) = t.split_at(8);
        if chars_eq_str(key, "session=") {
            proof {
                assert(t@.subrange(0, 8) =~= trimmed(seg@).take(8));
                assert(seg_matches(seg@));
            }
            if rem.len() > 0 {
                proof {
                    assert(rem@ =~= trimmed(seg@).skip(8));
                }
                return Some(copy_chars(rem));
            } else {
                proof {
                    assert(trimmed(seg@).len() == 8);
                }
                return None;
            }
        }
        proof {
            assert(t@.subrange(0, 8) =~= trimmed(seg@).take(8));
            assert(!seg_matches(seg@));
        }
    } else {
        proof {
            assert(!seg_matches(seg@));
        }
    }
    if i == cs.len() {
        None
    } else {
        let (_, after) = cs.split_at(i + 1);
        proof {
            assert(after@ =~= cs@.skip(i + 1));
        }
        extract_token_chars(after)
    }
}

/// Parses a raw `Cookie` header value into the session token, if one is
/// present: tolerant of malformed input, never failing, per the extraction
/// rule of [`spec_extract`].
pub fn extract_session_token(header: &str) -> (r: Option<String>)
    ensures
        match r {
            Some(t) => spec_extract(header@) == Some(t@),
            None => spec_extract(header@) is None,
        },
{
    let cs = chars_of(header);
    match extract_token_chars(cs.as_slice()) {
        Some(t) => Some(string_from_chars(&t)),
        None => None,
    }
}

/// Law: extraction inverts cookie formation. A header that is exactly
/// `session=` followed by a token — as the login response sets it — yields
/// that token back, provided the token is non-empty, holds no `';'`, and
/// does not end in whitespace.
pub proof fn lemma_cookie_round_trip(t: Seq<char>)
    requires
        t.len() > 0,
        forall|k: int| 0 <= k < t.len() ==> t[k] != ';',
        !is_ws(t[t.len() - 1]),
    ensures
        spec_extract("session="@ + t) == Some(t),
{
    reveal_strlit("session=");
    let h = "session="@ + t;
    assert forall|k: int| 0 <= k < h.len() implies h[k] != ';' by {
        if k >= 8 {
            assert(h[k] == t[k - 8]);
        }
    }
    lemma_first_ix_at(h, ';', h.len() as int);
    assert(h.take(h.len() as int) =~= h);
    assert(!is_ws(h[0]));
    assert(crate::text::trim_start_spec(h) == h);
    assert(h[h.len() - 1] == t[t.len() - 1]);
    assert(crate::text::trim_end_spec(h) == h);
    assert(trimmed(h) == h);
    assert(h.take(8) =~= "session="@);
    assert(h.skip(8) =~= t);
    assert(seg_matches(h));
    assert(seg_token(h) == Some(t));
}

} // verus!
