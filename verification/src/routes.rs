use vstd::prelude::*;

use crate::text::{chars_eq_str, chars_of, copy_chars, find_first, first_ix, string_from_chars};

verus! {

/// Request methods the router distinguishes.
#[derive(Clone, Copy, PartialEq, Eq, Structural, Debug)]
pub enum Method {
    Get,
    Post,
    Other,
}

/// Handler classes of the router, decided from the request path alone.
#[derive(Debug)]
pub enum Route {
    /// `/`: the index document.
    Root,
    /// `/static/...`: a public asset; `file` is the path without its leading slash.
    StaticAsset { file: String },
    /// `/api/...`: the structured-data routes.
    Api,
    /// `/dashboard`: the identity-gated document.
    Dashboard,
    /// Any other path ending in `.html`: a public document.
    HtmlPage { page: String },
    /// Everything else.
    NotFound,
}

/// Exact API routes, matched on the full path.
#[derive(Clone, Copy, PartialEq, Eq, Structural, Debug)]
pub enum ApiRoute {
    Userinfo,
    Register,
    Login,
    Logout,
    Restaurants,
    Unknown,
}

pub open spec fn starts(s: Seq<char>, p: Seq<char>) -> bool {
    s.len() >= p.len() && s.take(p.len() as int) == p
}

pub open spec fn ends(s: Seq<char>, p: Seq<char>) -> bool {
    s.len() >= p.len() && s.skip(s.len() - p.len()) == p
}

/// Whether `cs` begins with the characters of `p`.
pub fn starts_with_str(cs: &[char], p: &str) -> (r: bool)
    ensures
        r == starts(cs@, p@),
{
    let n = p.unicode_len();
    if cs.len() < n {
        return false;
    }
    let (head, _) = cs.split_at(n);
    proof {
        assert(head@ =~= cs@.take(p@.len() as int));
    }
    chars_eq_str(head, p)
}

/// Whether `cs` ends with the characters of `p`.
pub fn ends_with_str(cs: &[char], p: &str) -> (r: bool)
    ensures
        r == ends(cs@, p@),
{
    let n = p.unicode_len();
    if cs.len() < n {
        return false;
    }
    let (_, tail) = cs.split_at(cs.len() - n);
    proof {
        assert(tail@ =~= cs@.skip(cs@.len() - p@.len()));
    }
    chars_eq_str(tail, p)
}

pub open spec fn spec_path_of(s: Seq<char>) -> Seq<char> {
    s.take(first_ix(s, '?') as int)
}

/// The path part of a request target, cut off at the query separator.
pub fn path_of(target: &str) -> (r: String)
    ensures
        r@ == spec_path_of(target@),
{
    let cs = chars_of(target);
    let i = find_first(cs.as_slice(), '?');
    let (head, _) = cs.as_slice().split_at(i);
    proof {
        assert(head@ =~= cs@.take(i as int));
    }
    let v = copy_chars(head);
    string_from_chars(&v)
}

/// Maps a request path to its handler class, first match deciding, in the
/// order: index, static assets, API, dashboard, public documents, not found.
pub fn classify(path: &str) -> (r: Route)
    ensures
        ({
            let p = path@;
            if p == "/"@ {
                r is Root
            } else if starts(p, "/static/"@) {
                r matches Route::StaticAsset { file } && file@ == p.skip(1)
            } else if starts(p, "/api/"@) {
                r is Api
            } else if p == "/dashboard"@ {
                r is Dashboard
            } else if ends(p, ".html"@) {
                r matches Route::HtmlPage { page } && page@ == p
            } else {
                r is NotFound
            }
        }),
{
    let cs = chars_of(path);
    let s = cs.as_slice();
    if chars_eq_str(s, "/") {
        Route::Root
    } else if starts_with_str(s, "/static/") {
        proof {
            reveal_strlit("/static/");
        }
        let (_, file) = s.split_at(1);
        proof {
            assert(file@ =~= path@.skip(1));
        }
        let v = copy_chars(file);
        Route::StaticAsset { file: string_from_chars(&v) }
    } else if starts_with_str(s, "/api/") {
        Route::Api
    } else if chars_eq_str(s, "/dashboard") {
        Route::Dashboard
    } else if ends_with_str(s, ".html") {
        Route::HtmlPage { page: string_from_chars(&cs) }
    } else {
        Route::NotFound
    }
}

/// Maps an API path to its route, each matched exactly.
pub fn classify_api(path: &str) -> (r: ApiRoute)
    ensures
        ({
            let p = path@;
            if p == "/api/userinfo"@ {
                r == ApiRoute::Userinfo
            } else if p == "/api/register"@ {
                r == ApiRoute::Register
            } else if p == "/api/login"@ {
                r == ApiRoute::Login
            } else if p == "/api/logout"@ {
                r == ApiRoute::Logout
            } else if p == "/api/restaurants"@ {
                r == ApiRoute::Restaurants
            } else {
                r == ApiRoute::Unknown
            }
        }),
{
    let cs = chars_of(path);
    let s = cs.as_slice();
    if chars_eq_str(s, "/api/userinfo") {
        ApiRoute::Userinfo
    } else if chars_eq_str(s, "/api/register") {
        ApiRoute::Register
    } else if chars_eq_str(s, "/api/login") {
        ApiRoute::Login
    } else if chars_eq_str(s, "/api/logout") {
        ApiRoute::Logout
    } else if chars_eq_str(s, "/api/restaurants") {
        ApiRoute::Restaurants
    } else {
        ApiRoute::Unknown
    }
}

} // verus!
