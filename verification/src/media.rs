use vstd::prelude::*;

use crate::routes::{ends, ends_with_str};
use crate::text::chars_of;

verus! {

/// Whether the path's file name carries the dotted extension: the path
/// ends with it, and the dot does not begin the name.
pub open spec fn has_ext(p: Seq<char>, dotext: Seq<char>) -> bool {
    &&& ends(p, dotext)
    &&& p.len() > dotext.len()
    &&& p[p.len() - dotext.len() - 1] != '/'
}

fn check_ext(cs: &[char], dotext: &str) -> (b: bool)
    ensures
        b == has_ext(cs@, dotext@),
{
    let n = dotext.unicode_len();
    if cs.len() <= n {
        return false;
    }
    if !ends_with_str(cs, dotext) {
        return false;
    }
    cs[cs.len() - n - 1] != '/'
}

/// Whether an asset path could climb out of the asset directory: any two
/// adjacent dots are refused, a guard slightly stricter than refusing only
/// whole `..` segments.
pub open spec fn spec_escapes(p: Seq<char>) -> bool {
    exists|i: int| 0 <= i && i + 1 < p.len() && #[trigger] p[i] == '.' && p[i + 1] == '.'
}

/// Whether the asset path holds two adjacent dots and must not be served.
pub fn path_escapes(file: &str) -> (b: bool)
    ensures
        b == spec_escapes(file@),
{
    let cs = chars_of(file);
    let n = cs.len();
    if n < 2 {
        return false;
    }
    let mut i: usize = 0;
    while i + 1 < n
        invariant
            n == cs@.len(),
            cs@ == file@,
            i + 1 <= n,
            forall|k: int| 0 <= k && k + 1 < i + 1 ==> !(#[trigger] cs@[k] == '.' && cs@[k + 1]
                == '.'),
        decreases n - i,
    {
        if cs[i] == '.' && cs[i + 1] == '.' {
            proof {
                assert(spec_escapes(file@));
            }
            return true;
        }
        i += 1;
    }
    false
}

/// What the media-type table names a path, written as text, with
/// `application/octet-stream` where it names none.
pub uninterp spec fn mime_of(path: Seq<char>) -> Seq<char>;

/// Relies on `mime_guess::from_path` and `MimeGuess::first_or_octet_stream`:
/// the guess reads only the path text, so it is a function of the path
/// alone, and falls back to `application/octet-stream`.
#[verifier::external_body]
fn guess_mime(path: &str) -> (r: String)
    ensures
        r@ == mime_of(path@),
{
    let m = mime_guess::from_path(path).first_or_octet_stream();
    let s: &str = m.as_ref();
    s.to_owned()
}

/// The content type a static asset is served with: the four extensions
/// the server names itself, and the media-type table's guess for the rest.
pub fn static_content_type(file: &str) -> (r: String)
    ensures
        ({
            let p = file@;
            if has_ext(p, ".js"@) {
                r@ == "application/javascript"@
            } else if has_ext(p, ".css"@) {
                r@ == "text/css"@
            } else if has_ext(p, ".html"@) {
                r@ == "text/html"@
            } else if has_ext(p, ".ico"@) {
                r@ == "image/x-icon"@
            } else {
                r@ == mime_of(p)
            }
        }),
{
    let cs = chars_of(file);
    let s = cs.as_slice();
    if check_ext(s, ".js") {
        "application/javascript".to_owned()
    } else if check_ext(s, ".css") {
        "text/css".to_owned()
    } else if check_ext(s, ".html") {
        "text/html".to_owned()
    } else if check_ext(s, ".ico") {
        "image/x-icon".to_owned()
    } else {
        guess_mime(file)
    }
}

} // verus!
