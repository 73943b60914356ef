//! A verified in-memory implementation of the cart store: it meets the
//! atomicity contracts trivially (one call is one step) and backs the tests.

use vstd::prelude::*;

use super::entity::{Cart, CartItem};
use super::repository::{
    carts_unique, item_for, items_positive, items_unique, lemma_cart_for_first,
    lemma_cart_for_none, lemma_item_for_first, lemma_item_for_none, CartRepository,
};
use crate::errors::{Error, ErrorCode};

verus! {

pub struct MemoryCartRepository {
    carts: Vec<Cart>,
    items: Vec<CartItem>,
    variants: Vec<i64>,
    next_cart_id: i64,
    next_item_id: i64,
}

impl MemoryCartRepository {
    pub fn new() -> (r: MemoryCartRepository)
        ensures
            r.wf(),
            r.carts().len() == 0,
            r.items().len() == 0,
            forall|v: i64| !r.has_variant(v),
    {
        MemoryCartRepository {
            carts: Vec::new(),
            items: Vec::new(),
            variants: Vec::new(),
            next_cart_id: 1,
            next_item_id: 1,
        }
    }

    /// Record a purchasable variant, as the catalog side of the schema does.
    pub fn insert_variant(&mut self, variant_id: i64)
        requires
            old(self).wf(),
        ensures
            final(self).wf(),
            final(self).carts() == old(self).carts(),
            final(self).items() == old(self).items(),
            final(self).has_variant(variant_id),
            forall|v: i64| old(self).has_variant(v) ==> final(self).has_variant(v),
            forall|v: i64| v != variant_id && final(self).has_variant(v) ==> old(self).has_variant(v),
    {
        self.variants.push(variant_id);
        proof {
            let s0 = old(self).variants@;
            let s1 = self.variants@;
            assert(s1[s0.len() as int] == variant_id);
            assert(s1.contains(variant_id));
            assert forall|v: i64| s0.contains(v) implies s1.contains(v) by {
                let i = choose|i: int| 0 <= i < s0.len() && s0[i] == v;
                assert(s1[i] == v);
            }
            assert forall|v: i64| v != variant_id && s1.contains(v) implies s0.contains(v) by {
                let i = choose|i: int| 0 <= i < s1.len() && s1[i] == v;
                assert(s0[i] == v);
            }
        }
    }

    /// The stored items, for inspection from outside.
    pub fn items_vec(&self) -> (r: &Vec<CartItem>)
        ensures
            r@ == self.items(),
    {
        &self.items
    }

    /// The stored carts, for inspection from outside.
    pub fn carts_vec(&self) -> (r: &Vec<Cart>)
        ensures
            r@ == self.carts(),
    {
        &self.carts
    }
}

impl CartRepository for MemoryCartRepository {
    closed spec fn carts(&self) -> Seq<Cart> {
        self.carts@
    }

    closed spec fn items(&self) -> Seq<CartItem> {
        self.items@
    }

    closed spec fn has_variant(&self, variant_id: i64) -> bool {
        self.variants@.contains(variant_id)
    }

    closed spec fn wf(&self) -> bool {
        &&& carts_unique(self.carts@)
        &&& items_unique(self.items@)
        &&& items_positive(self.items@)
        &&& forall|i: int|
            0 <= i < self.carts@.len() ==> self.carts@[i].cart_id < self.next_cart_id
        &&& forall|i: int|
            0 <= i < self.items@.len() ==> self.items@[i].cart_id < self.next_cart_id
    }

    proof fn wf_facts(&self) {
    }

    #[verifier::loop_isolation(false)]
    fn get_or_create_cart_id(&mut self, user_id: i64) -> (r: Result<i64, Error>) {
        let n = self.carts.len();
        let mut i: usize = 0;
        while i < n
            invariant
                n == self.carts@.len(),
                0 <= i <= n,
                forall|j: int| 0 <= j < i ==> self.carts@[j].user_id != user_id,
            decreases n - i,
        {
            if self.carts[i].user_id == user_id {
                proof {
                    lemma_cart_for_first(self.carts@, user_id, i as int);
                }
                return Ok(self.carts[i].cart_id);
            }
            i += 1;
        }
        proof {
            lemma_cart_for_none(self.carts@, user_id);
        }
        if self.next_cart_id == i64::MAX {
            return Err(Error::with_message(
                ErrorCode::DatabaseError,
                "Failed to create cart".to_owned(),
            ));
        }
        let cid = self.next_cart_id;
        self.next_cart_id = self.next_cart_id + 1;
        self.carts.push(Cart { cart_id: cid, user_id });
        proof {
            assert forall|v: i64| item_for(old(self).items(), cid, v) is None by {
                lemma_item_for_none(old(self).items(), cid, v);
            }
        }
        Ok(cid)
    }

    #[verifier::loop_isolation(false)]
    fn add_or_increment_item(&mut self, cart_id: i64, variant_id: i64, quantity: i32) -> (r:
        Result<CartItem, Error>) {
        if quantity <= 0 {
            return Err(Error::with_message(
                ErrorCode::ValidationError,
                "Quantity must be greater than 0".to_owned(),
            ));
        }
        // The variant must exist, as the catalog schema enforces by reference.
        let nv = self.variants.len();
        let mut found_variant = false;
        let mut i: usize = 0;
        while i < nv
            invariant
                nv == self.variants@.len(),
                0 <= i <= nv,
                found_variant ==> self.variants@.contains(variant_id),
                !found_variant ==> forall|j: int| 0 <= j < i ==> self.variants@[j] != variant_id,
            decreases nv - i,
        {
            if self.variants[i] == variant_id {
                found_variant = true;
            }
            i += 1;
        }
        if !found_variant {
            return Err(Error::with_message(
                ErrorCode::ResourceNotFound,
                "Variant not found".to_owned(),
            ));
        }
        // The cart row must exist, as the foreign key enforces.
        let nc = self.carts.len();
        let mut cart_exists = false;
        let mut c: usize = 0;
        while c < nc
            invariant
                nc == self.carts@.len(),
                0 <= c <= nc,
                cart_exists ==> exists|j: int|
                    0 <= j < self.carts@.len() && self.carts@[j].cart_id == cart_id,
            decreases nc - c,
        {
            if self.carts[c].cart_id == cart_id {
                cart_exists = true;
            }
            c += 1;
        }
        if !cart_exists {
            return Err(Error::with_message(
                ErrorCode::DatabaseError,
                "Failed to add item: no such cart".to_owned(),
            ));
        }
        let ni = self.items.len();
        let mut k: usize = 0;
        while k < ni
            invariant
                self == old(self),
                ni == self.items@.len(),
                0 <= k <= ni,
                forall|j: int|
                    0 <= j < k ==> !(self.items@[j].cart_id == cart_id
                        && self.items@[j].variant_id == variant_id),
            decreases ni - k,
        {
            if self.items[k].cart_id == cart_id && self.items[k].variant_id == variant_id {
                let prev = self.items[k];
                proof {
                    lemma_item_for_first(self.items@, cart_id, variant_id, k as int);
                }
                if prev.quantity > i32::MAX - quantity {
                    return Err(Error::with_message(
                        ErrorCode::DatabaseError,
                        "Failed to update item: quantity out of range".to_owned(),
                    ));
                }
                let updated = CartItem {
                    item_id: prev.item_id,
                    cart_id,
                    variant_id,
                    quantity: prev.quantity + quantity,
                };
                self.items.set(k, updated);
                proof {
                    assert(items_unique(self.items@)) by {
                        assert(forall|a: int|
                            0 <= a < self.items@.len() ==> self.items@[a].cart_id == old(
                                self,
                            ).items@[a].cart_id && self.items@[a].variant_id == old(
                                self,
                            ).items@[a].variant_id);
                    }
                }
                return Ok(updated);
            }
            k += 1;
        }
        proof {
            lemma_item_for_none(self.items@, cart_id, variant_id);
        }
        if self.next_item_id == i64::MAX {
            return Err(Error::with_message(
                ErrorCode::DatabaseError,
                "Failed to add item".to_owned(),
            ));
        }
        let item = CartItem { item_id: self.next_item_id, cart_id, variant_id, quantity };
        self.next_item_id = self.next_item_id + 1;
        self.items.push(item);
        proof {
            let s0 = old(self).items@;
            let s1 = self.items@;
            assert forall|a: int, b: int|
                0 <= a < b < s1.len() implies !(s1[a].cart_id == s1[b].cart_id
                && s1[a].variant_id == s1[b].variant_id) by {
                if b == s0.len() {
                    assert(!(s0[a].cart_id == cart_id && s0[a].variant_id == variant_id));
                }
            }
            assert forall|a: int| 0 <= a < s1.len() implies s1[a].cart_id
                < self.next_cart_id by {
                if a < s0.len() {
                    assert(s0[a].cart_id < old(self).next_cart_id);
                } else {
                    let j = choose|j: int|
                        0 <= j < self.carts@.len() && self.carts@[j].cart_id == cart_id;
                    assert(self.carts@[j].cart_id < self.next_cart_id);
                }
            }
        }
        Ok(item)
    }
}

} // verus!
