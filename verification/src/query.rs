use vstd::prelude::*;

use crate::numbers::{parse_i64, spec_parse_int};
use crate::text::{chars_eq_str, chars_of};

verus! {

/// The key/value view of decoded query pairs.
pub open spec fn pairs_view(v: Seq<(String, String)>) -> Seq<(Seq<char>, Seq<char>)> {
    v.map(|k: int, p: (String, String)| (p.0@, p.1@))
}

/// The pairs the address parser reads from the query of a request target
/// rooted at a fixed authority, keys and values form-decoded.
pub uninterp spec fn url_query_pairs(target: Seq<char>) -> Seq<(Seq<char>, Seq<char>)>;

/// Relies on `url::Url::parse` and `Url::query_pairs`, applied to the
/// target under a fixed scheme and authority: the pairs are a function of
/// the target text alone, and a target that does not parse carries none.
#[verifier::external_body]
pub(crate) fn query_pairs(target: &str) -> (r: Vec<(String, String)>)
    ensures
        pairs_view(r@) == url_query_pairs(target@),
{
    let full = format!("http://localhost{}", target);
    match url::Url::parse(&full) {
        Ok(u) => u.query_pairs().map(|(k, v)| (k.into_owned(), v.into_owned())).collect(),
        Err(_) => Vec::new(),
    }
}

/// Whether the query asks for favorites only: some `favorites=true` pair.
pub open spec fn spec_favorites(pairs: Seq<(Seq<char>, Seq<char>)>) -> bool {
    exists|k: int|
        0 <= k < pairs.len() && (#[trigger] pairs[k]).0 == "favorites"@ && pairs[k].1 == "true"@
}

/// The last `limit` value of the query, still unparsed.
pub open spec fn spec_limit_raw(pairs: Seq<(Seq<char>, Seq<char>)>) -> Option<Seq<char>>
    decreases pairs.len(),
{
    if pairs.len() == 0 {
        None
    } else if pairs.last().0 == "limit"@ {
        Some(pairs.last().1)
    } else {
        spec_limit_raw(pairs.drop_last())
    }
}

/// The row cap the query asks for: the last `limit` value read as an
/// integer, a value that does not read capping nothing.
pub open spec fn spec_limit(pairs: Seq<(Seq<char>, Seq<char>)>) -> Option<i64> {
    match spec_limit_raw(pairs) {
        None => None,
        Some(v) => match spec_parse_int(v) {
            Some(n) => if i64::MIN <= n && n <= i64::MAX {
                Some(n as i64)
            } else {
                None
            },
            None => None,
        },
    }
}

/// Reads the listing refinements out of the decoded query pairs.
pub fn list_params(pairs: &Vec<(String, String)>) -> (r: (bool, Option<i64>))
    ensures
        r.0 == spec_favorites(pairs_view(pairs@)),
        r.1 == spec_limit(pairs_view(pairs@)),
{
    let ghost pv = pairs_view(pairs@);
    let mut fav = false;
    let mut limit: Option<i64> = None;
    let n = pairs.len();
    let mut i: usize = 0;
    while i < n
        invariant
            i <= n,
            n == pairs@.len(),
            pv == pairs_view(pairs@),
            pv.len() == n,
            fav == spec_favorites(pv.take(i as int)),
            limit == spec_limit(pv.take(i as int)),
        decreases n - i,
    {
        let ghost pre = pv.take(i as int);
        let ghost cur = pv.take(i + 1);
        proof {
            reveal_strlit("favorites");
            reveal_strlit("limit");
            assert(pv[i as int] == (pairs@[i as int].0@, pairs@[i as int].1@));
            assert(cur.drop_last() =~= pre);
            assert(cur.last() == pv[i as int]);
        }
        let p = &pairs[i];
        let kcs = chars_of(p.0.as_str());
        let mut is_fav_pair = false;
        if chars_eq_str(kcs.as_slice(), "favorites") {
            let vcs = chars_of(p.1.as_str());
            if chars_eq_str(vcs.as_slice(), "true") {
                fav = true;
                is_fav_pair = true;
            }
            proof {
                reveal_strlit("favorites");
                reveal_strlit("limit");
                assert(kcs@ == "favorites"@);
                assert(kcs@ == pairs@[i as int].0@);
                assert(pv[i as int].0 == kcs@);
                assert("favorites"@ != "limit"@);
                assert(pv[i as int].0 != "limit"@);
                assert(spec_limit_raw(cur) == spec_limit_raw(pre));
                assert(limit == spec_limit(cur));
            }
        } else if chars_eq_str(kcs.as_slice(), "limit") {
            let vcs = chars_of(p.1.as_str());
            limit = parse_i64(vcs.as_slice());
            proof {
                assert(vcs@ == pv[i as int].1);
                assert(spec_limit_raw(cur) == Some(pv[i as int].1));
                assert(limit == spec_limit(cur));
            }
        } else {
            proof {
                reveal_strlit("favorites");
                reveal_strlit("limit");
                assert(pv[i as int].0 != "limit"@);
                assert(spec_limit_raw(cur) == spec_limit_raw(pre));
                assert(limit == spec_limit(cur));
            }
        }
        proof {
            let hit = pv[i as int].0 == "favorites"@ && pv[i as int].1 == "true"@;
            assert(is_fav_pair == hit);
            if hit {
                assert(cur[i as int] == pv[i as int]);
                assert(spec_favorites(cur));
            } else {
                if spec_favorites(pre) {
                    let k = choose|k: int|
                        0 <= k < pre.len() && (#[trigger] pre[k]).0 == "favorites"@ && pre[k].1
                            == "true"@;
                    assert(cur[k] == pre[k]);
                    assert(spec_favorites(cur));
                }
                if spec_favorites(cur) {
                    let k = choose|k: int|
                        0 <= k < cur.len() && (#[trigger] cur[k]).0 == "favorites"@ && cur[k].1
                            == "true"@;
                    assert(k != i);
                    assert(pre[k] == cur[k]);
                    assert(spec_favorites(pre));
                }
            }
        }
        i += 1;
    }
    proof {
        assert(pv.take(n as int) =~= pv);
    }
    (fav, limit)
}

} // verus!
