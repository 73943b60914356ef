//! The cart service: validates the requested quantity, lazily creates the
//! caller's cart, and idempotently accumulates the item quantity.

use vstd::prelude::*;

use super::entity::{AddToCartRequest, AddToCartResponse, Cart};
use super::repository::{cart_for, item_for, CartRepository};
use crate::errors::{Error, ErrorCode};

verus! {

pub struct CartService<R: CartRepository> {
    pub repo: R,
}

impl<R: CartRepository> CartService<R> {
    pub fn new(repo: R) -> (r: CartService<R>)
        ensures
            r.repo == repo,
    {
        CartService { repo }
    }

    /// Add `quantity` of a variant to the caller's cart. A non-positive
    /// quantity is rejected outright with a validation error and nothing is
    /// persisted; otherwise the caller's cart is fetched or created and the
    /// item row is inserted or incremented in one atomic store step.
    pub fn add_to_cart(&mut self, req: AddToCartRequest) -> (r: Result<AddToCartResponse, Error>)
        requires
            old(self).repo.wf(),
        ensures
            final(self).repo.wf(),
            forall|v: i64| final(self).repo.has_variant(v) == old(self).repo.has_variant(v),
            // a rejected quantity changes nothing, and nothing else is ever
            // rejected for validation
            req.quantity <= 0 ==> (r matches Err(e) && e.code == ErrorCode::ValidationError
                && final(self).repo == old(self).repo),
            r matches Err(e) && e.code == ErrorCode::ValidationError ==> req.quantity <= 0,
            r matches Err(e) ==> (e.code == ErrorCode::ValidationError || e.code
                == ErrorCode::ResourceNotFound || e.code == ErrorCode::DatabaseError),
            // no failure ever changes the stored items
            r matches Err(_) ==> final(self).repo.items() == old(self).repo.items(),
            r matches Err(e) && e.code == ErrorCode::ResourceNotFound ==> !old(
                self,
            ).repo.has_variant(req.variant_id),
            req.quantity > 0 && !old(self).repo.has_variant(req.variant_id) ==> (r matches Err(e)
                && (e.code == ErrorCode::ResourceNotFound || e.code == ErrorCode::DatabaseError)),
            // on failure the carts are unchanged, except that the caller's
            // cart may have been created before the item step failed
            r matches Err(_) ==> final(self).repo.carts() == old(self).repo.carts() || (exists|cid: i64|
                final(self).repo.carts() == old(self).repo.carts().push(
                    (Cart { cart_id: cid, user_id: req.user_id }),
                )),
            // on success: the caller's cart is the existing one or a fresh
            // one, and the item row accumulates
            r matches Ok(resp) ==> req.quantity > 0 && old(self).repo.has_variant(req.variant_id)
                && resp.message@ == "Item added to cart"@ && resp.item.variant_id == req.variant_id
                && resp.item.quantity > 0 && (match cart_for(old(self).repo.carts(), req.user_id) {
                Some(c) => resp.item.cart_id == c.cart_id && final(self).repo.carts() == old(
                    self,
                ).repo.carts(),
                None => final(self).repo.carts() == old(self).repo.carts().push(
                    (Cart { cart_id: resp.item.cart_id, user_id: req.user_id }),
                ) && (forall|v: i64|
                    item_for(old(self).repo.items(), resp.item.cart_id, v) is None),
            }) && (match item_for(old(self).repo.items(), resp.item.cart_id, req.variant_id) {
                Some(prev) => resp.item.item_id == prev.item_id && resp.item.quantity
                    == prev.quantity + req.quantity && (exists|j: int|
                    0 <= j < old(self).repo.items().len() && old(self).repo.items()[j] == prev
                        && final(self).repo.items() == old(self).repo.items().update(j, resp.item)),
                None => resp.item.quantity == req.quantity && final(self).repo.items() == old(
                    self,
                ).repo.items().push(resp.item),
            }),
    {
        proof {
            old(self).repo.wf_facts();
        }
        if req.quantity <= 0 {
            return Err(Error::with_message(
                ErrorCode::ValidationError,
                "Quantity must be greater than 0".to_owned(),
            ));
        }
        let cart_id = match self.repo.get_or_create_cart_id(req.user_id) {
            Ok(cid) => cid,
            Err(e) => {
                return Err(e);
            },
        };
        let item = match self.repo.add_or_increment_item(cart_id, req.variant_id, req.quantity) {
            Ok(item) => item,
            Err(e) => {
                return Err(e);
            },
        };
        proof {
            self.repo.wf_facts();
        }
        Ok(AddToCartResponse { item, message: "Item added to cart".to_owned() })
    }
}

} // verus!
