use vstd::prelude::*;

use crate::text::{chars_eq_str, chars_of, copy_chars, find_first, first_ix, string_from_chars};

verus! {

/// The key/value pair a raw `key=value` piece denotes; a piece without a
/// `'='` denotes none and is dropped.
pub open spec fn pair_of(kv: Seq<char>) -> Option<(Seq<char>, Seq<char>)> {
    let i = first_ix(kv, '=') as int;
    if i >= kv.len() {
        None
    } else {
        Some((kv.take(i), kv.skip(i + 1)))
    }
}

/// The pairs of a form-encoded body: pieces split on `'&'`, each read as
/// `key=value`, keys and values still percent-encoded.
pub open spec fn spec_form_pairs(s: Seq<char>) -> Seq<(Seq<char>, Seq<char>)>
    decreases s.len(),
{
    let i = first_ix(s, '&') as int;
    let head = match pair_of(s.take(i)) {
        Some(p) => seq![p],
        None => Seq::empty(),
    };
    if i >= s.len() {
        head
    } else {
        head + spec_form_pairs(s.skip(i + 1))
    }
}

/// First occurrence wins: the value of the first pair whose key is `name`.
pub open spec fn spec_lookup(
    pairs: Seq<(Seq<char>, Seq<char>)>,
    name: Seq<char>,
) -> Option<Seq<char>>
    decreases pairs.len(),
{
    if pairs.len() == 0 {
        None
    } else if pairs[0].0 == name {
        Some(pairs[0].1)
    } else {
        spec_lookup(pairs.drop_first(), name)
    }
}

/// The still-encoded value of field `name` in a form body.
pub open spec fn spec_field(body: Seq<char>, name: Seq<char>) -> Option<Seq<char>> {
    spec_lookup(spec_form_pairs(body), name)
}

fn field_chars(cs: &[char], name: &str) -> (r: Option<Vec<char>>)
    ensures
        match r {
            Some(v) => spec_field(cs@, name@) == Some(v@),
            None => spec_field(cs@, name@) is None,
        },
    decreases cs@.len(),
{
    let i = find_first(cs, '&');
    let (kv, _) = cs.split_at(i);
    proof {
        assert(kv@ =~= cs@.take(i as int));
    }
    let j = find_first(kv, '=');
    if j < kv.len() {
        let (key, restkv) = kv.split_at(j);
        let (_, value) = restkv.split_at(1);
        proof {
            assert(key@ =~= kv@.take(j as int));
            assert(value@ =~= kv@.skip(j + 1));
        }
        if chars_eq_str(key, name) {
            proof {
                let p = (key@, value@);
                assert(pair_of(kv@) == Some(p));
                if i < cs@.len() {
                    let rest = spec_form_pairs(cs@.skip(i + 1));
                    assert((seq![p] + rest)[0] == p);
                    assert(spec_lookup(seq![p] + rest, name@) == Some(value@));
                }
            }
            return Some(copy_chars(value));
        }
        proof {
            let p = (key@, value@);
            assert(pair_of(kv@) == Some(p));
            if i < cs@.len() {
                let rest = spec_form_pairs(cs@.skip(i + 1));
                assert((seq![p] + rest)[0] == p);
                assert((seq![p] + rest).drop_first() =~= rest);
                assert(spec_lookup(seq![p] + rest, name@) == spec_lookup(rest, name@));
            } else {
                assert(seq![p][0] == p);
                assert(seq![p].drop_first() =~= Seq::<(Seq<char>, Seq<char>)>::empty());
                assert(spec_lookup(Seq::<(Seq<char>, Seq<char>)>::empty(), name@) is None);
                assert(spec_lookup(seq![p], name@) is None);
            }
        }
    } else {
        proof {
            assert(pair_of(kv@) is None);
            if i < cs@.len() {
                let rest = spec_form_pairs(cs@.skip(i + 1));
                assert(Seq::empty() + rest =~= rest);
            }
        }
    }
    if i == cs.len() {
        None
    } else {
        let (_, after) = cs.split_at(i + 1);
        proof {
            assert(after@ =~= cs@.skip(i + 1));
        }
        field_chars(after, name)
    }
}

/// What `urlencoding::decode` makes of a piece of text, or the empty
/// sequence where the decoded bytes are no longer text.
pub uninterp spec fn form_decoded(s: Seq<char>) -> Seq<char>;

/// Relies on `urlencoding::decode`: percent-decoding is a function of the
/// input text alone, and input free of `'%'` passes through unchanged; a
/// decoding that leaves invalid text reads as empty.
#[verifier::external_body]
fn percent_decode(s: &String) -> (r: String)
    ensures
        r@ == form_decoded(s@),
        (forall|k: int| 0 <= k < s@.len() ==> s@[k] != '%') ==> r@ == s@,
{
    match urlencoding::decode(s.as_str()) {
        Ok(d) => d.into_owned(),
        Err(_) => String::new(),
    }
}

/// The decoded value of field `name` in a form body: the first-wins
/// lookup, percent-decoded, with a missing field reading as empty.
pub open spec fn spec_form_value(body: Seq<char>, name: Seq<char>) -> Seq<char> {
    match spec_field(body, name) {
        Some(v) => form_decoded(v),
        None => Seq::empty(),
    }
}

/// The decoded value of field `name`: the first-wins lookup of the raw
/// pair, percent-decoded, a missing field reading as empty — the way the
/// public mutation routes read their credential fields.
pub fn decoded_form_field(body: &str, name: &str) -> (r: String)
    ensures
        r@ == spec_form_value(body@, name@),
{
    let cs = chars_of(body);
    match field_chars(cs.as_slice(), name) {
        Some(v) => {
            let raw = string_from_chars(&v);
            percent_decode(&raw)
        },
        None => String::new(),
    }
}

} // verus!
