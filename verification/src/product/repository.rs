//! The store interface the catalog service depends on. The stored products
//! are modelled as a sequence ordered by id descending — newest first — which
//! is the order listings and searches return.

use vstd::prelude::*;
use vstd::utf8::encode_utf8;

use super::entity::{
    list_item_of, patched, product_of_new, Product, ProductListItem, ProductListItemM, ProductM,
    NewProduct, UpdateProduct,
};
use crate::errors::{Error, ErrorCode};
use crate::strings::ci_contains;

verus! {

/// The first product of `product_id`, if any; under `ids_descending` there
/// is at most one.
pub open spec fn product_for(products: Seq<ProductM>, product_id: int) -> Option<ProductM>
    decreases products.len(),
{
    if products.len() == 0 {
        None
    } else if products[0].product_id == product_id {
        Some(products[0])
    } else {
        product_for(products.drop_first(), product_id)
    }
}

/// Ids strictly decrease along the sequence: newest first, and no two rows
/// share an id.
pub open spec fn ids_descending(products: Seq<ProductM>) -> bool {
    forall|i: int, j: int|
        0 <= i < j < products.len() ==> products[i].product_id > products[j].product_id
}

/// Whether a stored name matches a search pattern: the pattern occurs in the
/// name, compared byte for byte with ASCII case folded.
pub open spec fn name_matches(name: Seq<char>, pattern: Seq<char>) -> bool {
    ci_contains(encode_utf8(name), encode_utf8(pattern))
}

/// The products whose names match the pattern, keeping their order.
pub open spec fn matching(products: Seq<ProductM>, pattern: Seq<char>) -> Seq<ProductM>
    decreases products.len(),
{
    if products.len() == 0 {
        Seq::empty()
    } else {
        let rest = matching(products.drop_last(), pattern);
        if name_matches(products.last().name, pattern) {
            rest.push(products.last())
        } else {
            rest
        }
    }
}

/// The listing projection of a whole sequence.
pub open spec fn list_items_of(products: Seq<ProductM>) -> Seq<ProductListItemM> {
    products.map_values(|p: ProductM| list_item_of(p))
}

/// The page of `s` that starts at `offset` and holds at most `limit`
/// elements, for non-negative `offset` and `limit`.
pub open spec fn page_of<T>(s: Seq<T>, offset: int, limit: int) -> Seq<T> {
    if offset >= s.len() || offset < 0 || limit < 0 {
        Seq::empty()
    } else if offset + limit >= s.len() {
        s.subrange(offset, s.len() as int)
    } else {
        s.subrange(offset, offset + limit)
    }
}

/// A name filter never yields more rows than it was given.
pub proof fn lemma_matching_len(products: Seq<ProductM>, pattern: Seq<char>)
    ensures
        matching(products, pattern).len() <= products.len(),
    decreases products.len(),
{
    if products.len() > 0 {
        lemma_matching_len(products.drop_last(), pattern);
    }
}

/// `product_for` finds nothing exactly when no row carries the id.
pub proof fn lemma_product_for_none(products: Seq<ProductM>, product_id: int)
    ensures
        product_for(products, product_id) is None <==> (forall|i: int|
            0 <= i < products.len() ==> products[i].product_id != product_id),
    decreases products.len(),
{
    if products.len() > 0 {
        lemma_product_for_none(products.drop_first(), product_id);
        if product_for(products, product_id) is None {
            assert forall|i: int|
                0 <= i < products.len() implies products[i].product_id != product_id by {
                if i > 0 {
                    assert(products.drop_first()[i - 1] == products[i]);
                }
            }
        }
    }
}

/// What `product_for` finds carries the id it was asked for.
pub proof fn lemma_product_for_id(products: Seq<ProductM>, product_id: int)
    ensures
        product_for(products, product_id) matches Some(p) ==> p.product_id == product_id,
    decreases products.len(),
{
    if products.len() > 0 {
        lemma_product_for_id(products.drop_first(), product_id);
    }
}

/// `product_for` finds the first matching position.
pub proof fn lemma_product_for_first(products: Seq<ProductM>, product_id: int, i: int)
    requires
        0 <= i < products.len(),
        products[i].product_id == product_id,
        forall|j: int| 0 <= j < i ==> products[j].product_id != product_id,
    ensures
        product_for(products, product_id) == Some(products[i]),
    decreases products.len(),
{
    if i > 0 {
        lemma_product_for_first(products.drop_first(), product_id, i - 1);
    }
}

/// The store interface of the catalog aggregate.
pub trait ProductRepository: Sized {
    /// The stored products, ordered by id descending (newest first).
    spec fn products(&self) -> Seq<ProductM>;

    /// The store's internal invariant.
    spec fn wf(&self) -> bool;

    /// A well-formed store keeps ids positive, strictly descending, and the
    /// row count within the count type.
    proof fn wf_facts(&self)
        requires
            self.wf(),
        ensures
            ids_descending(self.products()),
            forall|i: int| 0 <= i < self.products().len() ==> self.products()[i].product_id > 0,
            self.products().len() <= 0x7fff_ffff_ffff_ffff,
    ;

    /// Insert a new row under a fresh id, newest first.
    fn create(&mut self, new_product: NewProduct) -> (r: Result<Product, Error>)
        requires
            old(self).wf(),
        ensures
            final(self).wf(),
            r matches Ok(p) ==> p.product_id > 0 && (forall|i: int|
                0 <= i < old(self).products().len() ==> old(self).products()[i].product_id
                    < p.product_id as int) && p.deep_view() == product_of_new(
                new_product.deep_view(),
                p.product_id as int,
            ) && final(self).products() == old(self).products().insert(0, p.deep_view()),
            r matches Err(e) ==> final(self).products() == old(self).products() && e.code
                == ErrorCode::DatabaseError,
    ;

    /// Look a row up by id.
    fn find_by_id(&self, product_id: i64) -> (r: Result<Product, Error>)
        requires
            self.wf(),
        ensures
            r matches Ok(p) ==> product_for(self.products(), product_id as int) == Some(
                p.deep_view(),
            ),
            r matches Err(e) ==> (e.code == ErrorCode::ResourceNotFound || e.code
                == ErrorCode::DatabaseError),
            r matches Err(e) && e.code == ErrorCode::ResourceNotFound ==> product_for(
                self.products(),
                product_id as int,
            ) is None,
            product_for(self.products(), product_id as int) is None ==> (r matches Err(e) && (
            e.code == ErrorCode::ResourceNotFound || e.code == ErrorCode::DatabaseError)),
    ;

    /// The page of the listing that starts at `offset`, newest first.
    fn find_all(&self, offset: i64, limit: i64) -> (r: Result<Vec<ProductListItem>, Error>)
        requires
            self.wf(),
            0 <= offset,
            0 <= limit,
        ensures
            r matches Ok(v) ==> v.deep_view() == page_of(
                list_items_of(self.products()),
                offset as int,
                limit as int,
            ),
            r matches Err(e) ==> e.code == ErrorCode::DatabaseError,
    ;

    /// Apply a partial update to the row of `product_id`.
    fn update(&mut self, product_id: i64, update_product: UpdateProduct) -> (r: Result<
        Product,
        Error,
    >)
        requires
            old(self).wf(),
        ensures
            final(self).wf(),
            r matches Err(_) ==> final(self).products() == old(self).products(),
            r matches Err(e) ==> (e.code == ErrorCode::ResourceNotFound || e.code
                == ErrorCode::DatabaseError),
            r matches Err(e) && e.code == ErrorCode::ResourceNotFound ==> product_for(
                old(self).products(),
                product_id as int,
            ) is None,
            product_for(old(self).products(), product_id as int) is None ==> (r matches Err(e)
                && (e.code == ErrorCode::ResourceNotFound || e.code == ErrorCode::DatabaseError)),
            r matches Ok(p) ==> (match product_for(old(self).products(), product_id as int) {
                Some(prev) => p.deep_view() == patched(prev, update_product.deep_view()) && (
                exists|j: int|
                    0 <= j < old(self).products().len() && old(self).products()[j] == prev
                        && final(self).products() == old(self).products().update(
                        j,
                        p.deep_view(),
                    )),
                None => false,
            }),
    ;

    /// Hard-delete the row of `product_id`.
    fn delete(&mut self, product_id: i64) -> (r: Result<(), Error>)
        requires
            old(self).wf(),
        ensures
            final(self).wf(),
            r matches Err(_) ==> final(self).products() == old(self).products(),
            r matches Err(e) ==> (e.code == ErrorCode::ResourceNotFound || e.code
                == ErrorCode::DatabaseError),
            r matches Err(e) && e.code == ErrorCode::ResourceNotFound ==> product_for(
                old(self).products(),
                product_id as int,
            ) is None,
            product_for(old(self).products(), product_id as int) is None ==> (r matches Err(e)
                && (e.code == ErrorCode::ResourceNotFound || e.code == ErrorCode::DatabaseError)),
            r matches Ok(_) ==> (exists|j: int|
                0 <= j < old(self).products().len() && old(self).products()[j].product_id
                    == product_id as int && final(self).products() == old(self).products().remove(
                    j,
                )),
    ;

    /// The page of the rows whose names contain `name`, ignoring ASCII case,
    /// newest first.
    fn search_by_name(&self, name: &str, offset: i64, limit: i64) -> (r: Result<
        Vec<ProductListItem>,
        Error,
    >)
        requires
            self.wf(),
            0 <= offset,
            0 <= limit,
        ensures
            r matches Ok(v) ==> v.deep_view() == page_of(
                list_items_of(matching(self.products(), name@)),
                offset as int,
                limit as int,
            ),
            r matches Err(e) ==> e.code == ErrorCode::DatabaseError,
    ;

    /// The number of stored rows.
    fn count_total(&self) -> (r: Result<i64, Error>)
        requires
            self.wf(),
        ensures
            r matches Ok(n) ==> n as int == self.products().len(),
            r matches Err(e) ==> e.code == ErrorCode::DatabaseError,
    ;
}

} // verus!
