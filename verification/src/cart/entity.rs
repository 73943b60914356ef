//! The cart aggregate: a per-user cart, its items, and the request and
//! response shapes of the cart mutation.

use vstd::prelude::*;

verus! {

#[derive(Debug, Clone, Copy, PartialEq, Eq, Structural)]
pub struct Cart {
    pub cart_id: i64,
    pub user_id: i64,
}

#[derive(Debug, Clone, Copy, PartialEq, Eq, Structural)]
pub struct CartItem {
    pub item_id: i64,
    pub cart_id: i64,
    pub variant_id: i64,
    pub quantity: i32,
}

#[derive(Debug, Clone, Copy, PartialEq, Eq, Structural)]
pub struct AddToCartRequest {
    pub user_id: i64,
    pub variant_id: i64,
    pub quantity: i32,
}

#[derive(Debug)]
pub struct AddToCartResponse {
    pub item: CartItem,
    pub message: String,
}

} // verus!
