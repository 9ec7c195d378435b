use vstd::prelude::*;

use crate::{StoreError, UserId};

verus! {

/// A persisted restaurant row, owned by exactly one user.
#[derive(Debug)]
pub struct Restaurant {
    pub id: i32,
    pub owner_id: i32,
    pub name: String,
    pub city: String,
    pub rating: Option<i16>,
    pub description: Option<String>,
    pub is_favorite: bool,
}

impl Restaurant {
    /// A field-for-field copy of the row.
    pub fn duplicate(&self) -> (r: Restaurant)
        ensures
            r == *self,
    {
        Restaurant {
            id: self.id,
            owner_id: self.owner_id,
            name: self.name.clone(),
            city: self.city.clone(),
            rating: self.rating,
            description: match &self.description {
                Some(d) => Some(d.clone()),
                None => None,
            },
            is_favorite: self.is_favorite,
        }
    }
}

/// The validated payload of a create request: what a row holds before the
/// store has assigned it an identifier and an owner.
#[derive(Debug)]
pub struct NewRestaurant {
    pub name: String,
    pub city: String,
    pub description: Option<String>,
    pub rating: Option<i16>,
    pub is_favorite: bool,
}

/// A create request as the structured-payload codec delivers it.
#[derive(Debug)]
pub struct ApiRequest {
    pub data: NewRestaurant,
}

/// Whether a row belongs to the listing `user` asked for.
pub open spec fn row_matches(r: Restaurant, user: UserId, favorites_only: bool) -> bool {
    r.owner_id == user && (favorites_only ==> r.is_favorite)
}

/// The rows of `user`, newest first: creation order reversed, filtered by
/// ownership and, when asked, by the favorite flag.
pub open spec fn spec_filtered(
    rows: Seq<Restaurant>,
    user: UserId,
    favorites_only: bool,
) -> Seq<Restaurant>
    decreases rows.len(),
{
    if rows.len() == 0 {
        Seq::empty()
    } else {
        let head = if row_matches(rows.last(), user, favorites_only) {
            seq![rows.last()]
        } else {
            Seq::empty()
        };
        head + spec_filtered(rows.drop_last(), user, favorites_only)
    }
}

/// `s` cut to at most `limit` rows.
pub open spec fn spec_limited(s: Seq<Restaurant>, limit: Option<i64>) -> Seq<Restaurant> {
    match limit {
        None => s,
        Some(l) => if l <= s.len() {
            s.take(l as int)
        } else {
            s
        },
    }
}

proof fn lemma_filtered_front(s: Seq<Restaurant>, user: UserId, fav: bool)
    requires
        s.len() > 0,
    ensures
        spec_filtered(s, user, fav) == spec_filtered(s.drop_first(), user, fav) + (
        if row_matches(s[0], user, fav) {
            seq![s[0]]
        } else {
            Seq::empty()
        }),
    decreases s.len(),
{
    let tail = if row_matches(s[0], user, fav) {
        seq![s[0]]
    } else {
        Seq::<Restaurant>::empty()
    };
    if s.len() == 1 {
        assert(s.drop_last() =~= s.drop_first());
        assert(s.last() == s[0]);
        assert(spec_filtered(s.drop_last(), user, fav) == Seq::<Restaurant>::empty());
        assert(spec_filtered(s, user, fav) =~= spec_filtered(s.drop_first(), user, fav) + tail);
    } else {
        let dl = s.drop_last();
        let df = s.drop_first();
        lemma_filtered_front(dl, user, fav);
        assert(dl[0] == s[0]);
        assert(df.last() == s.last());
        assert(df.drop_last() =~= dl.drop_first());
        let head = if row_matches(s.last(), user, fav) {
            seq![s.last()]
        } else {
            Seq::<Restaurant>::empty()
        };
        assert(spec_filtered(s, user, fav) == head + spec_filtered(dl, user, fav));
        assert(spec_filtered(df, user, fav) == head + spec_filtered(df.drop_last(), user, fav));
        assert(head + (spec_filtered(dl.drop_first(), user, fav) + tail) =~= (head
            + spec_filtered(dl.drop_first(), user, fav)) + tail);
    }
}

/// Law: a filtered listing shows only rows of the asking user, and only
/// favorite rows when the favorites filter is on.
pub proof fn lemma_filtered_rows_match(rows: Seq<Restaurant>, user: UserId, fav: bool)
    ensures
        forall|k: int|
            0 <= k < spec_filtered(rows, user, fav).len() ==> row_matches(
                #[trigger] spec_filtered(rows, user, fav)[k],
                user,
                fav,
            ),
    decreases rows.len(),
{
    if rows.len() > 0 {
        lemma_filtered_rows_match(rows.drop_last(), user, fav);
        let f = spec_filtered(rows, user, fav);
        let head = if row_matches(rows.last(), user, fav) {
            seq![rows.last()]
        } else {
            Seq::<Restaurant>::empty()
        };
        let rest = spec_filtered(rows.drop_last(), user, fav);
        assert forall|k: int| 0 <= k < f.len() implies row_matches(#[trigger] f[k], user, fav) by {
            if k < head.len() {
                assert(f[k] == rows.last());
            } else {
                assert(f[k] == rest[k - head.len()]);
            }
        }
    }
}

/// Law: a listing asked to show favorites only never shows a row whose
/// favorite flag is off, nor a row of another user, whatever the cap —
/// for any cap the store accepts.
pub proof fn lemma_favorites_only(rows: Seq<Restaurant>, user: UserId, limit: Option<i64>)
    requires
        limit matches Some(l) ==> l >= 0,
    ensures
        forall|k: int|
            0 <= k < spec_limited(spec_filtered(rows, user, true), limit).len() ==> (
            #[trigger] spec_limited(spec_filtered(rows, user, true), limit)[k]).is_favorite
                && spec_limited(spec_filtered(rows, user, true), limit)[k].owner_id == user,
{
    lemma_filtered_rows_match(rows, user, true);
    let f = spec_filtered(rows, user, true);
    let l = spec_limited(f, limit);
    assert forall|k: int| 0 <= k < l.len() implies (#[trigger] l[k]).is_favorite && l[k].owner_id
        == user by {
        assert(l[k] == f[k]);
        assert(row_matches(f[k], user, true));
    }
}

/// The restaurant table: rows in creation order, identifiers handed out in
/// sequence, so that later rows always carry larger identifiers.
pub struct RestaurantStore {
    pub rows: Vec<Restaurant>,
    pub next_id: i32,
}

impl RestaurantStore {
    /// Identifiers are positive, below the next free one, and increase
    /// along creation order — no two rows share one.
    pub open spec fn wf(&self) -> bool {
        &&& 1 <= self.next_id
        &&& forall|k: int| 0 <= k < self.rows@.len() ==> 1 <= #[trigger] self.rows@[k].id
            < self.next_id
        &&& forall|k: int, j: int|
            #![trigger self.rows@[k].id, self.rows@[j].id]
            0 <= k < j < self.rows@.len() ==> self.rows@[k].id < self.rows@[j].id
    }

    /// An empty table.
    pub fn new() -> (s: RestaurantStore)
        ensures
            s.wf(),
            s.rows@.len() == 0,
            s.next_id == 1,
    {
        RestaurantStore { rows: Vec::new(), next_id: 1 }
    }

    /// Persists a row for `owner` from the validated payload, returning the
    /// created row; fails only when the identifier space is exhausted.
    pub fn create(&mut self, owner: UserId, nr: NewRestaurant) -> (r: Result<
        Restaurant,
        StoreError,
    >)
        requires
            old(self).wf(),
        ensures
            final(self).wf(),
            match r {
                Ok(row) => {
                    &&& row.id == old(self).next_id
                    &&& row.owner_id == owner
                    &&& row.name == nr.name
                    &&& row.city == nr.city
                    &&& row.rating == nr.rating
                    &&& row.description == nr.description
                    &&& row.is_favorite == nr.is_favorite
                    &&& final(self).rows@ == old(self).rows@.push(row)
                    &&& final(self).next_id == old(self).next_id + 1
                },
                Err(_) => *final(self) == *old(self) && old(self).next_id == i32::MAX,
            },
    {
        if self.next_id == i32::MAX {
            return Err(StoreError);
        }
        let row = Restaurant {
            id: self.next_id,
            owner_id: owner,
            name: nr.name,
            city: nr.city,
            rating: nr.rating,
            description: nr.description,
            is_favorite: nr.is_favorite,
        };
        let stored = row.duplicate();
        self.rows.push(stored);
        self.next_id = self.next_id + 1;
        Ok(row)
    }

    /// The caller's rows, newest first, only favorites when so asked, cut
    /// to `limit` rows; the store refuses a negative limit.
    pub fn list_for_user(&self, user: UserId, favorites_only: bool, limit: Option<i64>) -> (r:
        Result<Vec<Restaurant>, StoreError>)
        ensures
            match r {
                Ok(v) => (match limit {
                    Some(l) => l >= 0,
                    None => true,
                }) && v@ == spec_limited(spec_filtered(self.rows@, user, favorites_only), limit),
                Err(_) => limit matches Some(l) && l < 0,
            },
    {
        if let Some(l) = limit {
            if l < 0 {
                return Err(StoreError);
            }
        }
        let mut v: Vec<Restaurant> = Vec::new();
        let n = self.rows.len();
        let mut i: usize = n;
        while i > 0
            invariant
                i <= n,
                n == self.rows@.len(),
                v@ == spec_filtered(self.rows@.skip(i as int), user, favorites_only),
            decreases i,
        {
            i = i - 1;
            let ghost vpre = v@;
            let row = &self.rows[i];
            if row.owner_id == user && (!favorites_only || row.is_favorite) {
                v.push(row.duplicate());
            }
            proof {
                let s = self.rows@.skip(i as int);
                assert(s[0] == self.rows@[i as int]);
                assert(s.drop_first() =~= self.rows@.skip(i + 1));
                lemma_filtered_front(s, user, favorites_only);
                if row_matches(self.rows@[i as int], user, favorites_only) {
                    assert(vpre.push(self.rows@[i as int]) =~= vpre + seq![s[0]]);
                } else {
                    assert(vpre + Seq::<Restaurant>::empty() =~= vpre);
                }
            }
        }
        proof {
            assert(self.rows@.skip(0) =~= self.rows@);
        }
        match limit {
            None => Ok(v),
            Some(l) => {
                if (l as u64) < (v.len() as u64) {
                    v.truncate(l as usize);
                    proof {
                        assert(v@ =~= spec_limited(
                            spec_filtered(self.rows@, user, favorites_only),
                            limit,
                        ));
                    }
                } else {
                    proof {
                        assert(v@ =~= spec_limited(
                            spec_filtered(self.rows@, user, favorites_only),
                            limit,
                        ));
                    }
                }
                Ok(v)
            },
        }
    }
}

} // verus!
