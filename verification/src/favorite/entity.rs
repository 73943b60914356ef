//! The favorite aggregate: a user-to-product "liked" relation with a
//! composite key, and the request and response shapes of adding one.

use vstd::prelude::*;

verus! {

#[derive(Debug, Clone, Copy, PartialEq, Eq, Structural)]
pub struct FavoriteKey {
    pub user_id: i64,
    pub product_id: i64,
}

/// A stored favorite row; `created_at` is a Unix timestamp in seconds.
#[derive(Debug, Clone, Copy, PartialEq, Eq, Structural)]
pub struct Favorite {
    pub user_id: i64,
    pub product_id: i64,
    pub created_at: i64,
}

#[derive(Debug, Clone, Copy, PartialEq, Eq, Structural)]
pub struct AddFavoriteRequest {
    pub user_id: i64,
    pub product_id: i64,
}

#[derive(Debug)]
pub struct AddFavoriteResponse {
    pub user_id: i64,
    pub product_id: i64,
    pub created_at: i64,
    pub message: String,
}

} // verus!
