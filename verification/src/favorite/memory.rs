//! A verified in-memory implementation of the favorite store.

use vstd::prelude::*;

use super::entity::{AddFavoriteRequest, Favorite};
use super::repository::{
    favorites_unique, lemma_favorite_for_first, lemma_favorite_for_none, FavoriteRepository,
};
use crate::errors::{Error, ErrorCode};

verus! {

pub struct MemoryFavoriteRepository {
    favorites: Vec<Favorite>,
    products: Vec<i64>,
}

impl MemoryFavoriteRepository {
    pub fn new() -> (r: MemoryFavoriteRepository)
        ensures
            r.wf(),
            r.favorites().len() == 0,
            forall|p: i64| !r.has_product(p),
    {
        MemoryFavoriteRepository { favorites: Vec::new(), products: Vec::new() }
    }

    /// Record an existing product, as the catalog side of the schema does.
    pub fn insert_product(&mut self, product_id: i64)
        requires
            old(self).wf(),
        ensures
            final(self).wf(),
            final(self).favorites() == old(self).favorites(),
            final(self).has_product(product_id),
            forall|p: i64| old(self).has_product(p) ==> final(self).has_product(p),
            forall|p: i64|
                p != product_id && final(self).has_product(p) ==> old(self).has_product(p),
    {
        self.products.push(product_id);
        proof {
            let s0 = old(self).products@;
            let s1 = self.products@;
            assert(s1[s0.len() as int] == product_id);
            assert(s1.contains(product_id));
            assert forall|p: i64| s0.contains(p) implies s1.contains(p) by {
                let i = choose|i: int| 0 <= i < s0.len() && s0[i] == p;
                assert(s1[i] == p);
            }
            assert forall|p: i64| p != product_id && s1.contains(p) implies s0.contains(p) by {
                let i = choose|i: int| 0 <= i < s1.len() && s1[i] == p;
                assert(s0[i] == p);
            }
        }
    }

    /// The stored favorites, for inspection from outside.
    pub fn favorites_vec(&self) -> (r: &Vec<Favorite>)
        ensures
            r@ == self.favorites(),
    {
        &self.favorites
    }
}

impl FavoriteRepository for MemoryFavoriteRepository {
    closed spec fn favorites(&self) -> Seq<Favorite> {
        self.favorites@
    }

    closed spec fn has_product(&self, product_id: i64) -> bool {
        self.products@.contains(product_id)
    }

    closed spec fn wf(&self) -> bool {
        favorites_unique(self.favorites@)
    }

    proof fn wf_facts(&self) {
    }

    #[verifier::loop_isolation(false)]
    fn add(&mut self, req: AddFavoriteRequest) -> (r: Result<Favorite, Error>) {
        // The product must exist, as the schema's reference enforces.
        let np = self.products.len();
        let mut found_product = false;
        let mut i: usize = 0;
        while i < np
            invariant
                np == self.products@.len(),
                0 <= i <= np,
                found_product ==> self.products@.contains(req.product_id),
                !found_product ==> forall|j: int|
                    0 <= j < i ==> self.products@[j] != req.product_id,
            decreases np - i,
        {
            if self.products[i] == req.product_id {
                found_product = true;
            }
            i += 1;
        }
        if !found_product {
            return Err(Error::with_message(
                ErrorCode::ResourceNotFound,
                "Product not found".to_owned(),
            ));
        }
        let nf = self.favorites.len();
        let mut k: usize = 0;
        while k < nf
            invariant
                nf == self.favorites@.len(),
                0 <= k <= nf,
                forall|j: int|
                    0 <= j < k ==> !(self.favorites@[j].user_id == req.user_id
                        && self.favorites@[j].product_id == req.product_id),
            decreases nf - k,
        {
            if self.favorites[k].user_id == req.user_id && self.favorites[k].product_id
                == req.product_id {
                proof {
                    lemma_favorite_for_first(self.favorites@, req.user_id, req.product_id, k as int);
                }
                return Ok(self.favorites[k]);
            }
            k += 1;
        }
        proof {
            lemma_favorite_for_none(self.favorites@, req.user_id, req.product_id);
        }
        let created_at = crate::auth::current_timestamp();
        let f = Favorite { user_id: req.user_id, product_id: req.product_id, created_at };
        self.favorites.push(f);
        proof {
            let s0 = old(self).favorites@;
            let s1 = self.favorites@;
            assert forall|a: int, b: int|
                0 <= a < b < s1.len() implies !(s1[a].user_id == s1[b].user_id && s1[a].product_id
                == s1[b].product_id) by {
                if b == s0.len() {
                    assert(!(s0[a].user_id == req.user_id && s0[a].product_id == req.product_id));
                }
            }
        }
        Ok(f)
    }
}

} // verus!
