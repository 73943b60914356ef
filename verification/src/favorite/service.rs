//! The favorite service: verifies the product and records the pair
//! idempotently, always answering with the canonical stored row.

use vstd::prelude::*;

use super::entity::{AddFavoriteRequest, AddFavoriteResponse, Favorite};
use super::repository::{favorite_for, FavoriteRepository};
use crate::errors::{Error, ErrorCode};

verus! {

pub struct FavoriteService<R: FavoriteRepository> {
    pub repo: R,
}

impl<R: FavoriteRepository> FavoriteService<R> {
    pub fn new(repo: R) -> (r: FavoriteService<R>)
        ensures
            r.repo == repo,
    {
        FavoriteService { repo }
    }

    /// Record that the caller favors a product. A missing product fails with
    /// not-found and inserts nothing; re-adding an existing pair is a no-op
    /// that answers with the creation time of the original insert.
    pub fn add(&mut self, req: AddFavoriteRequest) -> (r: Result<AddFavoriteResponse, Error>)
        requires
            old(self).repo.wf(),
        ensures
            final(self).repo.wf(),
            forall|p: i64| final(self).repo.has_product(p) == old(self).repo.has_product(p),
            r matches Err(_) ==> final(self).repo.favorites() == old(self).repo.favorites(),
            r matches Err(e) ==> (e.code == ErrorCode::ResourceNotFound || e.code
                == ErrorCode::DatabaseError),
            r matches Err(e) && e.code == ErrorCode::ResourceNotFound ==> !old(
                self,
            ).repo.has_product(req.product_id),
            !old(self).repo.has_product(req.product_id) ==> (r matches Err(e) && (e.code
                == ErrorCode::ResourceNotFound || e.code == ErrorCode::DatabaseError)),
            r matches Ok(resp) ==> old(self).repo.has_product(req.product_id) && resp.user_id
                == req.user_id && resp.product_id == req.product_id && resp.message@
                == "Added to favorites"@ && match favorite_for(
                old(self).repo.favorites(),
                req.user_id,
                req.product_id,
            ) {
                Some(prev) => resp.created_at == prev.created_at && final(self).repo.favorites()
                    == old(self).repo.favorites(),
                None => final(self).repo.favorites() == old(self).repo.favorites().push(
                    (Favorite {
                        user_id: req.user_id,
                        product_id: req.product_id,
                        created_at: resp.created_at,
                    }),
                ),
            },
    {
        let fav = match self.repo.add(req) {
            Ok(f) => f,
            Err(e) => {
                return Err(e);
            },
        };
        Ok(AddFavoriteResponse {
            user_id: fav.user_id,
            product_id: fav.product_id,
            created_at: fav.created_at,
            message: "Added to favorites".to_owned(),
        })
    }
}

} // verus!
