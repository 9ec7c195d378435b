use vstd::prelude::*;

use crate::text::{chars_eq_str, chars_of};
use crate::{StoreError, UserId};

verus! {

/// What resolving a token finds: the user bound by the first entry
/// carrying the token, or nothing for a token never issued.
pub open spec fn spec_resolve(entries: Seq<(String, UserId)>, token: Seq<char>) -> Option<UserId>
    decreases entries.len(),
{
    if entries.len() == 0 {
        None
    } else if entries[0].0@ == token {
        Some(entries[0].1)
    } else {
        spec_resolve(entries.drop_first(), token)
    }
}

/// The characters a session token is written in.
pub open spec fn is_token_char(c: char) -> bool {
    ('0' <= c && c <= '9') || ('a' <= c && c <= 'f') || c == '-'
}

/// Relies on `uuid::Uuid::new_v4` and its display form: a fresh random
/// identifier written as 36 hyphenated lowercase hexadecimal characters.
/// The draw is random: nothing relates one call's result to another's.
#[verifier::external_body]
fn fresh_token() -> (t: String)
    ensures
        t@.len() == 36,
        forall|k: int| 0 <= k < t@.len() ==> is_token_char(#[trigger] t@[k]),
{
    uuid::Uuid::new_v4().to_string()
}

/// The session table: opaque tokens bound to user identities. Records are
/// only ever added; a client ends its session by dropping the cookie.
pub struct SessionStore {
    pub entries: Vec<(String, UserId)>,
}

impl SessionStore {
    /// An empty table.
    pub fn new() -> (s: SessionStore)
        ensures
            s.entries@.len() == 0,
    {
        SessionStore { entries: Vec::new() }
    }

    /// The user a token identifies, or nothing for an unknown token.
    pub fn resolve(&self, token: &str) -> (r: Option<UserId>)
        ensures
            r == spec_resolve(self.entries@, token@),
    {
        let cs = chars_of(token);
        let n = self.entries.len();
        proof {
            assert(self.entries@.skip(0) =~= self.entries@);
        }
        let mut i: usize = 0;
        while i < n
            invariant
                i <= n,
                n == self.entries@.len(),
                cs@ == token@,
                spec_resolve(self.entries@, token@) == spec_resolve(
                    self.entries@.skip(i as int),
                    token@,
                ),
            decreases n - i,
        {
            proof {
                assert(self.entries@.skip(i as int)[0] == self.entries@[i as int]);
            }
            let e = &self.entries[i];
            if chars_eq_str(cs.as_slice(), e.0.as_str()) {
                return Some(e.1);
            }
            proof {
                assert(self.entries@.skip(i as int).drop_first() =~= self.entries@.skip(i + 1));
            }
            i += 1;
        }
        proof {
            assert(self.entries@.skip(n as int) =~= Seq::<(String, UserId)>::empty());
        }
        None
    }

    /// Opens a session for `user`: draws a fresh token, binds it, and hands
    /// it back. A draw that collides with an issued token is refused as a
    /// store failure rather than rebinding it.
    pub fn create(&mut self, user: UserId) -> (r: Result<String, StoreError>)
        ensures
            match r {
                Ok(t) => {
                    &&& spec_resolve(old(self).entries@, t@) is None
                    &&& final(self).entries@ == old(self).entries@.push((t, user))
                    &&& spec_resolve(final(self).entries@, t@) == Some(user)
                    &&& t@.len() == 36
                    &&& forall|k: int| 0 <= k < t@.len() ==> is_token_char(#[trigger] t@[k])
                },
                Err(_) => *final(self) == *old(self),
            },
    {
        let t = fresh_token();
        let stored = t.clone();
        match self.bind_if_fresh(stored, user) {
            Ok(_) => Ok(t),
            Err(e) => Err(e),
        }
    }

    /// Binds `token` to `user` if the token is fresh: it succeeds exactly
    /// when no entry carries the token, and then the token resolves to
    /// `user`; an issued token is refused and nothing changes.
    pub fn bind_if_fresh(&mut self, token: String, user: UserId) -> (r: Result<(), StoreError>)
        ensures
            r is Ok <==> spec_resolve(old(self).entries@, token@) is None,
            r matches Ok(u) ==> final(self).entries@ == old(self).entries@.push((token, user))
                && spec_resolve(final(self).entries@, token@) == Some(user),
            r is Err ==> *final(self) == *old(self),
    {
        if self.resolve(token.as_str()).is_some() {
            return Err(StoreError);
        }
        self.entries.push((token, user));
        proof {
            lemma_resolve_after_create(old(self).entries@, token, user);
        }
        Ok(())
    }
}

/// Law: a token just issued resolves to its user — binding a fresh token
/// makes the table answer that token with exactly the bound identity.
pub proof fn lemma_resolve_after_create(entries: Seq<(String, UserId)>, t: String, user: UserId)
    requires
        spec_resolve(entries, t@) is None,
    ensures
        spec_resolve(entries.push((t, user)), t@) == Some(user),
    decreases entries.len(),
{
    if entries.len() == 0 {
        assert(entries.push((t, user))[0] == (t, user));
    } else {
        assert(entries[0].0@ != t@);
        assert(entries.push((t, user))[0] == entries[0]);
        assert(entries.push((t, user)).drop_first() =~= entries.drop_first().push((t, user)));
        lemma_resolve_after_create(entries.drop_first(), t, user);
    }
}

/// Law: a token never issued resolves to no user — a table none of whose
/// entries carry the token answers it with nothing.
pub proof fn lemma_resolve_unknown(entries: Seq<(String, UserId)>, t: Seq<char>)
    requires
        forall|k: int| 0 <= k < entries.len() ==> #[trigger] entries[k].0@ != t,
    ensures
        spec_resolve(entries, t) is None,
    decreases entries.len(),
{
    if entries.len() > 0 {
        assert(entries[0].0@ != t);
        assert forall|k: int| 0 <= k < entries.drop_first().len() implies #[trigger] entries.drop_first()[k].0@
            != t by {
            assert(entries.drop_first()[k] == entries[k + 1]);
        }
        lemma_resolve_unknown(entries.drop_first(), t);
    }
}

} // verus!
