use vstd::prelude::*;

use crate::numbers::{parse_i16, spec_parse_int};
use crate::text::{chars_eq_str, chars_of};

verus! {

/// How the create payload's rating field reads: an absent or empty field
/// stores no rating; any other text must denote an integer that fits the
/// rating column, and a text that does not is a malformed payload.
pub fn rating_from_field(field: Option<&String>) -> (r: Result<Option<i16>, ()>)
    ensures
        match field {
            None => r == Ok::<Option<i16>, ()>(None),
            Some(s) => {
                if s@.len() == 0 {
                    r == Ok::<Option<i16>, ()>(None)
                } else {
                    match spec_parse_int(s@) {
                        Some(n) => {
                            if i16::MIN <= n && n <= i16::MAX {
                                r == Ok::<Option<i16>, ()>(Some(n as i16))
                            } else {
                                r is Err
                            }
                        },
                        None => r is Err,
                    }
                }
            },
        },
{
    match field {
        None => Ok(None),
        Some(s) => {
            if s.as_str().is_empty() {
                Ok(None)
            } else {
                let cs = chars_of(s.as_str());
                match parse_i16(cs.as_slice()) {
                    Some(v) => Ok(Some(v)),
                    None => Err(()),
                }
            }
        },
    }
}

/// How the create payload's favorite field reads: exactly `"true"` or
/// `"on"` mean favored; absence, or any other text, means not.
pub fn favorite_from_field(field: Option<&String>) -> (r: bool)
    ensures
        r == match field {
            None => false,
            Some(s) => s@ == "true"@ || s@ == "on"@,
        },
{
    match field {
        None => false,
        Some(s) => {
            let cs = chars_of(s.as_str());
            if chars_eq_str(cs.as_slice(), "true") {
                true
            } else {
                chars_eq_str(cs.as_slice(), "on")
            }
        },
    }
}

} // verus!
