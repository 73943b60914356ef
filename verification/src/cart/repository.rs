//! The store interface the cart service depends on. Both operations must be
//! atomic at the storage boundary: get-or-create is an "insert if absent,
//! else fetch existing id", and add-or-increment is a conditional upsert, so
//! concurrent callers never lose updates or duplicate rows.

use vstd::prelude::*;

use super::entity::{Cart, CartItem};
use crate::errors::{Error, ErrorCode};

verus! {

/// The first cart of `user_id` in `carts`, if any; under `carts_unique`
/// there is at most one.
pub open spec fn cart_for(carts: Seq<Cart>, user_id: i64) -> Option<Cart>
    decreases carts.len(),
{
    if carts.len() == 0 {
        None
    } else if carts[0].user_id == user_id {
        Some(carts[0])
    } else {
        cart_for(carts.drop_first(), user_id)
    }
}

/// The first item of `(cart_id, variant_id)` in `items`, if any; under
/// `items_unique` there is at most one.
pub open spec fn item_for(items: Seq<CartItem>, cart_id: i64, variant_id: i64) -> Option<CartItem>
    decreases items.len(),
{
    if items.len() == 0 {
        None
    } else if items[0].cart_id == cart_id && items[0].variant_id == variant_id {
        Some(items[0])
    } else {
        item_for(items.drop_first(), cart_id, variant_id)
    }
}

/// No two carts share a user or an id: at most one cart per user.
pub open spec fn carts_unique(carts: Seq<Cart>) -> bool {
    forall|i: int, j: int|
        0 <= i < j < carts.len() ==> carts[i].user_id != carts[j].user_id && carts[i].cart_id
            != carts[j].cart_id
}

/// No two items share a (cart, variant) pair: at most one row per pair.
pub open spec fn items_unique(items: Seq<CartItem>) -> bool {
    forall|i: int, j: int|
        0 <= i < j < items.len() ==> !(items[i].cart_id == items[j].cart_id
            && items[i].variant_id == items[j].variant_id)
}

/// Every stored quantity is positive.
pub open spec fn items_positive(items: Seq<CartItem>) -> bool {
    forall|i: int| 0 <= i < items.len() ==> items[i].quantity > 0
}

/// If `carts` holds no cart of `user_id`, `cart_for` finds none.
pub proof fn lemma_cart_for_none(carts: Seq<Cart>, user_id: i64)
    requires
        forall|i: int| 0 <= i < carts.len() ==> carts[i].user_id != user_id,
    ensures
        cart_for(carts, user_id) is None,
    decreases carts.len(),
{
    if carts.len() > 0 {
        lemma_cart_for_none(carts.drop_first(), user_id);
    }
}

/// `cart_for` finds the first matching position.
pub proof fn lemma_cart_for_first(carts: Seq<Cart>, user_id: i64, i: int)
    requires
        0 <= i < carts.len(),
        carts[i].user_id == user_id,
        forall|j: int| 0 <= j < i ==> carts[j].user_id != user_id,
    ensures
        cart_for(carts, user_id) == Some(carts[i]),
    decreases carts.len(),
{
    if i > 0 {
        lemma_cart_for_first(carts.drop_first(), user_id, i - 1);
    }
}

/// If `items` holds no row of the pair, `item_for` finds none.
pub proof fn lemma_item_for_none(items: Seq<CartItem>, cart_id: i64, variant_id: i64)
    requires
        forall|i: int|
            0 <= i < items.len() ==> !(items[i].cart_id == cart_id && items[i].variant_id
                == variant_id),
    ensures
        item_for(items, cart_id, variant_id) is None,
    decreases items.len(),
{
    if items.len() > 0 {
        lemma_item_for_none(items.drop_first(), cart_id, variant_id);
    }
}

/// `item_for` finds nothing exactly when no row matches.
pub proof fn lemma_item_for_none_iff(items: Seq<CartItem>, cart_id: i64, variant_id: i64)
    ensures
        item_for(items, cart_id, variant_id) is None <==> (forall|i: int|
            0 <= i < items.len() ==> !(items[i].cart_id == cart_id && items[i].variant_id
                == variant_id)),
    decreases items.len(),
{
    if items.len() > 0 {
        lemma_item_for_none_iff(items.drop_first(), cart_id, variant_id);
        if item_for(items, cart_id, variant_id) is None {
            assert forall|i: int|
                0 <= i < items.len() implies !(items[i].cart_id == cart_id && items[i].variant_id
                == variant_id) by {
                if i > 0 {
                    assert(items.drop_first()[i - 1] == items[i]);
                }
            }
        }
    }
}

/// Accumulation of repeated adds, at the level of the stored rows: when a
/// pair is first inserted as `it1` and a later add replaces it with `it2`,
/// the store ends with exactly one row for the pair — `it2`, one element
/// longer than it began — so quantities accumulate into a single row.
pub proof fn lemma_cart_item_accumulates(s0: Seq<CartItem>, it1: CartItem, it2: CartItem, j: int)
    requires
        items_unique(s0),
        item_for(s0, it1.cart_id, it1.variant_id) is None,
        it2.cart_id == it1.cart_id,
        it2.variant_id == it1.variant_id,
        0 <= j < s0.push(it1).len(),
        s0.push(it1)[j] == it1,
    ensures
        item_for(s0.push(it1), it1.cart_id, it1.variant_id) == Some(it1),
        s0.push(it1).update(j, it2) =~= s0.push(it2),
        item_for(s0.push(it1).update(j, it2), it1.cart_id, it1.variant_id) == Some(it2),
        items_unique(s0.push(it1).update(j, it2)),
        s0.push(it1).update(j, it2).len() == s0.len() + 1,
{
    let c = it1.cart_id;
    let v = it1.variant_id;
    lemma_item_for_none_iff(s0, c, v);
    lemma_item_for_first(s0.push(it1), c, v, s0.len() as int);
    if j < s0.len() {
        assert(s0[j] == it1);
        assert(false);
    }
    assert(s0.push(it1).update(j, it2) =~= s0.push(it2));
    lemma_item_for_first(s0.push(it2), c, v, s0.len() as int);
    assert forall|a: int, b: int|
        0 <= a < b < s0.push(it2).len() implies !(s0.push(it2)[a].cart_id == s0.push(
        it2,
    )[b].cart_id && s0.push(it2)[a].variant_id == s0.push(it2)[b].variant_id) by {
        if b == s0.len() {
            assert(s0.push(it2)[a] == s0[a]);
        }
    }
}

/// `item_for` finds the first matching position.
pub proof fn lemma_item_for_first(items: Seq<CartItem>, cart_id: i64, variant_id: i64, i: int)
    requires
        0 <= i < items.len(),
        items[i].cart_id == cart_id,
        items[i].variant_id == variant_id,
        forall|j: int|
            0 <= j < i ==> !(items[j].cart_id == cart_id && items[j].variant_id == variant_id),
    ensures
        item_for(items, cart_id, variant_id) == Some(items[i]),
    decreases items.len(),
{
    if i > 0 {
        lemma_item_for_first(items.drop_first(), cart_id, variant_id, i - 1);
    }
}

/// The store interface of the cart aggregate. An implementation must make
/// each operation atomic: the contract relates the state after the call to
/// the state before as one step.
pub trait CartRepository: Sized {
    /// The stored carts, in insertion order.
    spec fn carts(&self) -> Seq<Cart>;

    /// The stored cart items, in insertion order.
    spec fn items(&self) -> Seq<CartItem>;

    /// Whether the variant exists in the catalog the store checks against.
    spec fn has_variant(&self, variant_id: i64) -> bool;

    /// The store's internal invariant.
    spec fn wf(&self) -> bool;

    /// A well-formed store keeps the uniqueness and positivity invariants.
    proof fn wf_facts(&self)
        requires
            self.wf(),
        ensures
            carts_unique(self.carts()),
            items_unique(self.items()),
            items_positive(self.items()),
    ;

    /// Atomic "insert a cart if the user has none, else return the existing
    /// id": exactly one cart per user ever exists, whatever the interleaving.
    fn get_or_create_cart_id(&mut self, user_id: i64) -> (r: Result<i64, Error>)
        requires
            old(self).wf(),
        ensures
            final(self).wf(),
            final(self).items() == old(self).items(),
            forall|v: i64| final(self).has_variant(v) == old(self).has_variant(v),
            r matches Ok(cid) ==> match cart_for(old(self).carts(), user_id) {
                Some(c) => cid == c.cart_id && final(self).carts() == old(self).carts(),
                None => final(self).carts() == old(self).carts().push(
                    (Cart { cart_id: cid, user_id }),
                ) && (forall|i: int|
                    0 <= i < old(self).carts().len() ==> old(self).carts()[i].cart_id != cid) && (
                forall|v: i64| item_for(old(self).items(), cid, v) is None),
            },
            r matches Err(e) ==> final(self).carts() == old(self).carts() && e.code
                == ErrorCode::DatabaseError,
    ;

    /// Atomic conditional upsert: verify the variant, then either insert a
    /// new row with the incoming quantity or replace the existing row's
    /// quantity with stored + incoming, as one unit.
    fn add_or_increment_item(&mut self, cart_id: i64, variant_id: i64, quantity: i32) -> (r:
        Result<CartItem, Error>)
        requires
            old(self).wf(),
        ensures
            final(self).wf(),
            final(self).carts() == old(self).carts(),
            forall|v: i64| final(self).has_variant(v) == old(self).has_variant(v),
            r matches Err(_) ==> final(self).items() == old(self).items(),
            r matches Err(e) ==> (e.code == ErrorCode::ValidationError || e.code
                == ErrorCode::ResourceNotFound || e.code == ErrorCode::DatabaseError),
            quantity <= 0 ==> (r matches Err(e) && e.code == ErrorCode::ValidationError),
            r matches Err(e) && e.code == ErrorCode::ValidationError ==> quantity <= 0,
            r matches Err(e) && e.code == ErrorCode::ResourceNotFound ==> !old(self).has_variant(
                variant_id,
            ),
            quantity > 0 && !old(self).has_variant(variant_id) ==> (r matches Err(e) && (e.code
                == ErrorCode::ResourceNotFound || e.code == ErrorCode::DatabaseError)),
            r matches Ok(item) ==> quantity > 0 && old(self).has_variant(variant_id)
                && item.cart_id == cart_id && item.variant_id == variant_id && match item_for(
                old(self).items(),
                cart_id,
                variant_id,
            ) {
                Some(prev) => item.item_id == prev.item_id && item.quantity == prev.quantity
                    + quantity && (exists|j: int|
                    0 <= j < old(self).items().len() && old(self).items()[j] == prev
                        && final(self).items() == old(self).items().update(j, item)),
                None => item.quantity == quantity && final(self).items() == old(self).items().push(item),
            },
    ;
}

} // verus!
