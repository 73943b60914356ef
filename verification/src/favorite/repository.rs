//! The store interface the favorite service depends on: one atomic
//! insert-or-return-existing operation, so a pair is stored at most once and
//! its original creation time survives re-adds.

use vstd::prelude::*;

use super::entity::{AddFavoriteRequest, Favorite};
use crate::errors::{Error, ErrorCode};

verus! {

/// The first favorite of `(user_id, product_id)`, if any; under
/// `favorites_unique` there is at most one.
pub open spec fn favorite_for(favs: Seq<Favorite>, user_id: i64, product_id: i64) -> Option<
    Favorite,
>
    decreases favs.len(),
{
    if favs.len() == 0 {
        None
    } else if favs[0].user_id == user_id && favs[0].product_id == product_id {
        Some(favs[0])
    } else {
        favorite_for(favs.drop_first(), user_id, product_id)
    }
}

/// No two rows share a (user, product) pair.
pub open spec fn favorites_unique(favs: Seq<Favorite>) -> bool {
    forall|i: int, j: int|
        0 <= i < j < favs.len() ==> !(favs[i].user_id == favs[j].user_id && favs[i].product_id
            == favs[j].product_id)
}

/// `favorite_for` finds nothing exactly when no row matches.
pub proof fn lemma_favorite_for_none(favs: Seq<Favorite>, user_id: i64, product_id: i64)
    ensures
        favorite_for(favs, user_id, product_id) is None <==> (forall|i: int|
            0 <= i < favs.len() ==> !(favs[i].user_id == user_id && favs[i].product_id
                == product_id)),
    decreases favs.len(),
{
    if favs.len() > 0 {
        lemma_favorite_for_none(favs.drop_first(), user_id, product_id);
        if favorite_for(favs, user_id, product_id) is None {
            assert forall|i: int|
                0 <= i < favs.len() implies !(favs[i].user_id == user_id && favs[i].product_id
                == product_id) by {
                if i > 0 {
                    assert(favs.drop_first()[i - 1] == favs[i]);
                }
            }
        }
    }
}

/// `favorite_for` finds the first matching position.
pub proof fn lemma_favorite_for_first(favs: Seq<Favorite>, user_id: i64, product_id: i64, i: int)
    requires
        0 <= i < favs.len(),
        favs[i].user_id == user_id,
        favs[i].product_id == product_id,
        forall|j: int|
            0 <= j < i ==> !(favs[j].user_id == user_id && favs[j].product_id == product_id),
    ensures
        favorite_for(favs, user_id, product_id) == Some(favs[i]),
    decreases favs.len(),
{
    if i > 0 {
        lemma_favorite_for_first(favs.drop_first(), user_id, product_id, i - 1);
    }
}

/// Idempotence of the favorite add, at the level of the stored rows: once a
/// pair has been inserted, it is the row every later lookup returns, the
/// store still holds at most one row per pair, and a re-add that finds it
/// leaves the store unchanged and hands back the original creation time.
pub proof fn lemma_favorite_readd(favs: Seq<Favorite>, f: Favorite)
    requires
        favorites_unique(favs),
        favorite_for(favs, f.user_id, f.product_id) is None,
    ensures
        favorite_for(favs.push(f), f.user_id, f.product_id) == Some(f),
        favorites_unique(favs.push(f)),
{
    lemma_favorite_for_none(favs, f.user_id, f.product_id);
    lemma_favorite_for_first(favs.push(f), f.user_id, f.product_id, favs.len() as int);
    assert forall|i: int, j: int|
        0 <= i < j < favs.push(f).len() implies !(favs.push(f)[i].user_id == favs.push(
        f,
    )[j].user_id && favs.push(f)[i].product_id == favs.push(f)[j].product_id) by {
        if j == favs.len() {
            assert(favs.push(f)[i] == favs[i]);
        }
    }
}

/// The store interface of the favorite aggregate. The one operation is an
/// atomic insert-or-ignore that always hands back the canonical stored row.
pub trait FavoriteRepository: Sized {
    /// The stored favorites, in insertion order.
    spec fn favorites(&self) -> Seq<Favorite>;

    /// Whether the product exists in the catalog the store checks against.
    spec fn has_product(&self, product_id: i64) -> bool;

    /// The store's internal invariant.
    spec fn wf(&self) -> bool;

    /// A well-formed store holds at most one row per pair.
    proof fn wf_facts(&self)
        requires
            self.wf(),
        ensures
            favorites_unique(self.favorites()),
    ;

    /// Atomic insert-or-return-existing: verify the product, then insert the
    /// pair unless it exists; either way return the stored row, with the
    /// creation time of the original insert.
    fn add(&mut self, req: AddFavoriteRequest) -> (r: Result<Favorite, Error>)
        requires
            old(self).wf(),
        ensures
            final(self).wf(),
            forall|p: i64| final(self).has_product(p) == old(self).has_product(p),
            r matches Err(_) ==> final(self).favorites() == old(self).favorites(),
            r matches Err(e) ==> (e.code == ErrorCode::ResourceNotFound || e.code
                == ErrorCode::DatabaseError),
            r matches Err(e) && e.code == ErrorCode::ResourceNotFound ==> !old(self).has_product(
                req.product_id,
            ),
            !old(self).has_product(req.product_id) ==> (r matches Err(e) && (e.code
                == ErrorCode::ResourceNotFound || e.code == ErrorCode::DatabaseError)),
            r matches Ok(f) ==> old(self).has_product(req.product_id) && f.user_id == req.user_id
                && f.product_id == req.product_id && match favorite_for(
                old(self).favorites(),
                req.user_id,
                req.product_id,
            ) {
                Some(prev) => f == prev && final(self).favorites() == old(self).favorites(),
                None => final(self).favorites() == old(self).favorites().push(f),
            },
    ;
}

} // verus!
