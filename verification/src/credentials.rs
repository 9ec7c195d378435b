use vstd::prelude::*;

use crate::text::{chars_eq_str, chars_of};
use crate::{AccountError, StoreError, UserId};

verus! {

/// A registered account: the identity, its unique username, and the digest
/// of its password — never the password itself. Registration records the
/// username as the e-mail address too, so the one field answers a lookup
/// by either.
pub struct Account {
    pub id: UserId,
    pub username: String,
    pub digest: String,
}

/// What `bcrypt::verify` answers for a password and a digest: whether the
/// digest derives from that password.
pub uninterp spec fn bcrypt_accepts(password: Seq<char>, digest: Seq<char>) -> bool;

/// Whether bcrypt reads the text as one of its digests: the shape it
/// parses, with an allowed cost — a function of the text alone, and true
/// of every digest bcrypt itself produces.
pub uninterp spec fn bcrypt_digest_wf(digest: Seq<char>) -> bool;

/// Relies on `bcrypt::hash`: a digest it returns is well-formed and is one
/// `bcrypt::verify` accepts for the hashed password; it fails only when
/// the system randomness source does, the salt being drawn from it.
#[verifier::external_body]
fn hash_password(password: &String) -> (r: Result<String, StoreError>)
    ensures
        r matches Ok(digest) ==> bcrypt_accepts(password@, digest@) && bcrypt_digest_wf(digest@),
{
    match bcrypt::hash(password.as_str(), bcrypt::DEFAULT_COST) {
        Ok(digest) => Ok(digest),
        Err(_) => Err(StoreError),
    }
}

/// Relies on `bcrypt::verify`: its answer is a function of the password
/// and the digest alone, and it fails exactly on a digest bcrypt does not
/// read — the whole call is deterministic, no randomness is drawn.
#[verifier::external_body]
fn verify_password(password: &String, digest: &String) -> (r: Result<bool, StoreError>)
    ensures
        r is Ok <==> bcrypt_digest_wf(digest@),
        r matches Ok(b) ==> b == bcrypt_accepts(password@, digest@),
        r matches Err(e) ==> e == StoreError,
{
    match bcrypt::verify(password.as_str(), digest.as_str()) {
        Ok(b) => Ok(b),
        Err(_) => Err(StoreError),
    }
}

/// Whether some account carries the username.
pub open spec fn spec_has_user(accounts: Seq<Account>, username: Seq<char>) -> bool {
    exists|k: int| 0 <= k < accounts.len() && #[trigger] accounts[k].username@ == username
}

/// The account registered under `username`, by first match.
pub open spec fn spec_account_of(accounts: Seq<Account>, username: Seq<char>) -> Option<Account>
    decreases accounts.len(),
{
    if accounts.len() == 0 {
        None
    } else if accounts[0].username@ == username {
        Some(accounts[0])
    } else {
        spec_account_of(accounts.drop_first(), username)
    }
}

/// The account registered under an identity, by first match.
pub open spec fn spec_account_by_id(accounts: Seq<Account>, id: UserId) -> Option<Account>
    decreases accounts.len(),
{
    if accounts.len() == 0 {
        None
    } else if accounts[0].id == id {
        Some(accounts[0])
    } else {
        spec_account_by_id(accounts.drop_first(), id)
    }
}

/// The account table: usernames unique, identities handed out in sequence.
pub struct CredStore {
    pub accounts: Vec<Account>,
    pub next_id: i32,
}

impl CredStore {
    /// No two accounts share a username, and identities stay below the
    /// next free one.
    pub open spec fn wf(&self) -> bool {
        &&& 1 <= self.next_id
        &&& forall|k: int| 0 <= k < self.accounts@.len() ==> 1 <= #[trigger] self.accounts@[k].id
            < self.next_id
        &&& forall|k: int, j: int|
            #![trigger self.accounts@[k].username, self.accounts@[j].username]
            0 <= k < j < self.accounts@.len() ==> self.accounts@[k].username@
                != self.accounts@[j].username@
    }

    /// An empty table.
    pub fn new() -> (s: CredStore)
        ensures
            s.wf(),
            s.accounts@.len() == 0,
            s.next_id == 1,
    {
        CredStore { accounts: Vec::new(), next_id: 1 }
    }

    /// The identity and digest registered under `username`.
    fn lookup(&self, username: &str) -> (r: Option<(UserId, String)>)
        ensures
            match spec_account_of(self.accounts@, username@) {
                None => r is None,
                Some(acc) => r matches Some(p) && p.0 == acc.id && p.1@ == acc.digest@,
            },
    {
        let cs = chars_of(username);
        let n = self.accounts.len();
        proof {
            assert(self.accounts@.skip(0) =~= self.accounts@);
        }
        let mut i: usize = 0;
        while i < n
            invariant
                i <= n,
                n == self.accounts@.len(),
                cs@ == username@,
                spec_account_of(self.accounts@, username@) == spec_account_of(
                    self.accounts@.skip(i as int),
                    username@,
                ),
            decreases n - i,
        {
            proof {
                assert(self.accounts@.skip(i as int)[0] == self.accounts@[i as int]);
            }
            let acc = &self.accounts[i];
            if chars_eq_str(cs.as_slice(), acc.username.as_str()) {
                return Some((acc.id, acc.digest.clone()));
            }
            proof {
                assert(self.accounts@.skip(i as int).drop_first() =~= self.accounts@.skip(i + 1));
            }
            i += 1;
        }
        proof {
            assert(self.accounts@.skip(n as int) =~= Seq::<Account>::empty());
        }
        None
    }

    /// Whether `username` is registered — to the caller only; login never
    /// distinguishes this from a wrong password.
    fn contains(&self, username: &str) -> (r: bool)
        ensures
            r == spec_has_user(self.accounts@, username@),
    {
        let cs = chars_of(username);
        let n = self.accounts.len();
        let mut i: usize = 0;
        while i < n
            invariant
                i <= n,
                n == self.accounts@.len(),
                cs@ == username@,
                forall|k: int| 0 <= k < i ==> #[trigger] self.accounts@[k].username@ != username@,
            decreases n - i,
        {
            let acc = &self.accounts[i];
            if chars_eq_str(cs.as_slice(), acc.username.as_str()) {
                assert(self.accounts@[i as int].username@ == username@);
                return true;
            }
            i += 1;
        }
        false
    }

    /// Registers an account: a taken username is refused with `Conflict`
    /// and exactly then; otherwise the password is hashed and only the
    /// digest is stored, under a fresh identity.
    pub fn create_account(&mut self, username: String, password: &String) -> (r: Result<
        UserId,
        AccountError,
    >)
        requires
            old(self).wf(),
        ensures
            final(self).wf(),
            spec_has_user(old(self).accounts@, username@) <==> r == Err::<UserId, AccountError>(
                AccountError::Conflict,
            ),
            r is Err ==> *final(self) == *old(self),
            match r {
                Ok(id) => {
                    &&& id == old(self).next_id
                    &&& final(self).next_id == old(self).next_id + 1
                    &&& final(self).accounts@.len() == old(self).accounts@.len() + 1
                    &&& final(self).accounts@ == old(self).accounts@.push(
                        final(self).accounts@.last(),
                    )
                    &&& final(self).accounts@.last().username == username
                    &&& final(self).accounts@.last().id == id
                    &&& bcrypt_accepts(password@, final(self).accounts@.last().digest@)
                    &&& bcrypt_digest_wf(final(self).accounts@.last().digest@)
                },
                Err(_) => true,
            },
    {
        if self.contains(username.as_str()) {
            return Err(AccountError::Conflict);
        }
        let digest = match hash_password(password) {
            Ok(d) => d,
            Err(_) => {
                return Err(AccountError::Unavailable);
            },
        };
        match self.insert_account(username, digest) {
            Ok(id) => Ok(id),
            Err(AccountError::Conflict) => {
                proof {
                    assert(false);
                }
                Err(AccountError::Unavailable)
            },
            Err(AccountError::Unavailable) => Err(AccountError::Unavailable),
        }
    }

    /// Stores an account under `username` carrying the digest the hasher
    /// returned: it succeeds, under a fresh identity, exactly when the
    /// username is free and an identity remains.
    pub fn insert_account(&mut self, username: String, digest: String) -> (r: Result<
        UserId,
        AccountError,
    >)
        requires
            old(self).wf(),
        ensures
            final(self).wf(),
            r is Ok <==> !spec_has_user(old(self).accounts@, username@) && old(self).next_id
                < i32::MAX,
            spec_has_user(old(self).accounts@, username@) <==> r == Err::<UserId, AccountError>(
                AccountError::Conflict,
            ),
            r is Err ==> *final(self) == *old(self),
            r matches Ok(id) ==> {
                &&& id == old(self).next_id
                &&& final(self).next_id == old(self).next_id + 1
                &&& final(self).accounts@ == old(self).accounts@.push(
                    (Account { id, username, digest }),
                )
            },
    {
        if self.contains(username.as_str()) {
            return Err(AccountError::Conflict);
        }
        if self.next_id == i32::MAX {
            return Err(AccountError::Unavailable);
        }
        let id = self.next_id;
        self.accounts.push(Account { id, username, digest });
        self.next_id = self.next_id + 1;
        Ok(id)
    }

    /// Whether the credentials match a registered account. An unknown
    /// username and a wrong password deliberately read the same: `false`,
    /// never an error.
    pub fn verify(&self, username: &str, password: &String) -> (r: Result<bool, StoreError>)
        ensures
            match spec_account_of(self.accounts@, username@) {
                None => r == Ok::<bool, StoreError>(false),
                Some(acc) => {
                    if bcrypt_digest_wf(acc.digest@) {
                        r == Ok::<bool, StoreError>(bcrypt_accepts(password@, acc.digest@))
                    } else {
                        r == Err::<bool, StoreError>(StoreError)
                    }
                },
            },
    {
        match self.lookup(username) {
            None => Ok(false),
            Some((_, digest)) => verify_password(password, &digest),
        }
    }

    /// The username registered under an identity, by first match.
    pub fn username_of(&self, id: UserId) -> (r: Option<String>)
        ensures
            match spec_account_by_id(self.accounts@, id) {
                None => r is None,
                Some(acc) => r matches Some(u) && u@ == acc.username@,
            },
    {
        let n = self.accounts.len();
        proof {
            assert(self.accounts@.skip(0) =~= self.accounts@);
        }
        let mut i: usize = 0;
        while i < n
            invariant
                i <= n,
                n == self.accounts@.len(),
                spec_account_by_id(self.accounts@, id) == spec_account_by_id(
                    self.accounts@.skip(i as int),
                    id,
                ),
            decreases n - i,
        {
            proof {
                assert(self.accounts@.skip(i as int)[0] == self.accounts@[i as int]);
            }
            let acc = &self.accounts[i];
            if acc.id == id {
                return Some(acc.username.clone());
            }
            proof {
                assert(self.accounts@.skip(i as int).drop_first() =~= self.accounts@.skip(i + 1));
            }
            i += 1;
        }
        proof {
            assert(self.accounts@.skip(n as int) =~= Seq::<Account>::empty());
        }
        None
    }

    /// The identity registered under `username`.
    pub fn user_id_of(&self, username: &str) -> (r: Option<UserId>)
        ensures
            match spec_account_of(self.accounts@, username@) {
                None => r is None,
                Some(acc) => r == Some(acc.id),
            },
    {
        match self.lookup(username) {
            None => None,
            Some((id, _)) => Some(id),
        }
    }
}

/// Law: registration is exclusive. Once one of two racing registrations
/// lands its account in the table, the table carries that username, so the
/// other — serialized after it at the store — meets the conflict condition
/// and is refused.
pub proof fn lemma_duplicate_registration_conflicts(accounts: Seq<Account>, a: Account)
    ensures
        spec_has_user(accounts.push(a), a.username@),
{
    assert(accounts.push(a)[accounts.len() as int] == a);
}

/// Law: login follows registration. A freshly registered account is found
/// under its username, and its stored digest accepts the password it was
/// registered with.
pub proof fn lemma_login_after_register(accounts: Seq<Account>, a: Account, password: Seq<char>)
    requires
        !spec_has_user(accounts, a.username@),
        bcrypt_accepts(password, a.digest@),
        bcrypt_digest_wf(a.digest@),
    ensures
        match spec_account_of(accounts.push(a), a.username@) {
            Some(acc) => bcrypt_accepts(password, acc.digest@) && bcrypt_digest_wf(acc.digest@),
            None => false,
        },
    decreases accounts.len(),
{
    if accounts.len() == 0 {
        assert(accounts.push(a)[0] == a);
    } else {
        assert(accounts[0].username@ != a.username@);
        assert(accounts.push(a)[0] == accounts[0]);
        assert(accounts.push(a).drop_first() =~= accounts.drop_first().push(a));
        assert forall|k: int| 0 <= k < accounts.drop_first().len() implies #[trigger] accounts.drop_first()[k].username@
            != a.username@ by {
            assert(accounts.drop_first()[k] == accounts[k + 1]);
        }
        lemma_login_after_register(accounts.drop_first(), a, password);
    }
}

} // verus!
