//! A verified in-memory implementation of the product store: rows are kept
//! ordered by id descending (newest first), the order listings return.

use vstd::prelude::*;
use vstd::string::StringSliceAdditionalSpecFns;

use super::entity::{list_item_of, NewProduct, Product, ProductListItem, ProductStatus, UpdateProduct};
use super::repository::{
    ids_descending, lemma_matching_len, lemma_product_for_first, lemma_product_for_none,
    list_items_of, matching, page_of, ProductRepository,
};
use crate::errors::{Error, ErrorCode};
use crate::strings::{clone_opt_string, clone_string, clone_string_list, str_contains_ci};

verus! {

pub struct MemoryProductRepository {
    products: Vec<Product>,
    next_id: i64,
}

impl MemoryProductRepository {
    pub fn new() -> (r: MemoryProductRepository)
        ensures
            r.wf(),
            r.products().len() == 0,
    {
        MemoryProductRepository { products: Vec::new(), next_id: 1 }
    }

    /// The stored products, for inspection from outside.
    pub fn products_vec(&self) -> (r: &Vec<Product>)
        ensures
            r.deep_view() == self.products(),
    {
        &self.products
    }

    /// The page of `v` that starts at `offset` and holds at most `limit`
    /// entries.
    fn page_items(v: &Vec<ProductListItem>, offset: i64, limit: i64) -> (r: Vec<ProductListItem>)
        requires
            0 <= offset,
            0 <= limit,
            v@.len() <= 0x7fff_ffff_ffff_ffff,
        ensures
            r.deep_view() == page_of(v.deep_view(), offset as int, limit as int),
    {
        let mut out: Vec<ProductListItem> = Vec::new();
        let len = v.len();
        if offset >= len as i64 {
            proof {
                assert(out.deep_view() =~= page_of(v.deep_view(), offset as int, limit as int));
            }
            return out;
        }
        let off = offset as usize;
        let end: usize = if limit >= (len - off) as i64 {
            len
        } else {
            off + (limit as usize)
        };
        let mut i: usize = off;
        #[verifier::loop_isolation(false)]
        while i < end
            invariant
                off <= i <= end <= len,
                out@.len() == i - off,
                forall|j: int|
                    0 <= j < out@.len() ==> out.deep_view()[j] == v.deep_view()[off + j],
            decreases end - i,
        {
            let item = v[i].duplicate();
            let ghost pre = out@;
            let ghost pre_dv = out.deep_view();
            out.push(item);
            proof {
                assert forall|j: int|
                    0 <= j < out@.len() implies out.deep_view()[j] == v.deep_view()[off + j] by {
                    assert(out.deep_view()[j] == out@[j].deep_view());
                    if j < pre.len() {
                        assert(out@[j] == pre[j]);
                        assert(pre_dv[j] == pre[j].deep_view());
                    } else {
                        assert(out@[j] == item);
                        assert(item.deep_view() == v.deep_view()[i as int]);
                    }
                }
            }
            i += 1;
        }
        proof {
            assert(out.deep_view() =~= page_of(v.deep_view(), offset as int, limit as int));
        }
        out
    }

    /// The listing projection of every stored row, newest first.
    fn all_list_items(&self) -> (r: Vec<ProductListItem>)
        ensures
            r.deep_view() == list_items_of(self.products()),
    {
        let n = self.products.len();
        let mut out: Vec<ProductListItem> = Vec::new();
        let mut i: usize = 0;
        #[verifier::loop_isolation(false)]
        while i < n
            invariant
                0 <= i <= n,
                n == self.products@.len(),
                out@.len() == i,
                forall|j: int|
                    0 <= j < i ==> out.deep_view()[j] == list_items_of(self.products())[j],
            decreases n - i,
        {
            let item = self.products[i].to_list_item();
            let ghost pre = out@;
            let ghost pre_dv = out.deep_view();
            out.push(item);
            proof {
                assert forall|j: int|
                    0 <= j < out@.len() implies out.deep_view()[j] == list_items_of(
                    self.products(),
                )[j] by {
                    assert(out.deep_view()[j] == out@[j].deep_view());
                    if j < pre.len() {
                        assert(out@[j] == pre[j]);
                        assert(pre_dv[j] == pre[j].deep_view());
                    } else {
                        assert(out@[j] == item);
                        assert(item.deep_view() == list_items_of(self.products())[j]);
                    }
                }
            }
            i += 1;
        }
        proof {
            assert(out.deep_view() =~= list_items_of(self.products()));
        }
        out
    }
}

impl ProductRepository for MemoryProductRepository {
    closed spec fn products(&self) -> Seq<super::entity::ProductM> {
        self.products.deep_view()
    }

    closed spec fn wf(&self) -> bool {
        &&& ids_descending(self.products.deep_view())
        &&& 1 <= self.next_id
        &&& self.products@.len() < self.next_id as int
        &&& forall|i: int|
            0 <= i < self.products@.len() ==> 0 < (#[trigger] self.products.deep_view()[i].product_id)
                && self.products.deep_view()[i].product_id < self.next_id as int
    }

    proof fn wf_facts(&self) {
    }

    fn create(&mut self, new_product: NewProduct) -> (r: Result<Product, Error>) {
        if self.next_id == i64::MAX {
            return Err(Error::with_message(
                ErrorCode::DatabaseError,
                "Failed to create product".to_owned(),
            ));
        }
        let id = self.next_id;
        let status = match new_product.status {
            Some(s) => s,
            None => ProductStatus::InStock,
        };
        let p = Product {
            product_id: id,
            name: new_product.name,
            description: new_product.description,
            base_price: new_product.base_price,
            status,
            category: new_product.category,
            stock_quantity: new_product.stock_quantity,
            preview_image: new_product.preview_image,
            preview_video: new_product.preview_video,
            shipping: new_product.shipping,
        };
        let ret = p.duplicate();
        self.next_id = id + 1;
        self.products.insert(0, p);
        proof {
            let s0 = old(self).products.deep_view();
            let s1 = self.products.deep_view();
            assert(s1 =~= s0.insert(0, p.deep_view()));
            assert forall|a: int, b: int|
                0 <= a < b < s1.len() implies s1[a].product_id > s1[b].product_id by {
                if a == 0 {
                    assert(s1[b] == s0[b - 1]);
                } else {
                    assert(s1[a] == s0[a - 1]);
                    assert(s1[b] == s0[b - 1]);
                }
            }
        }
        Ok(ret)
    }

    #[verifier::loop_isolation(false)]
    fn find_by_id(&self, product_id: i64) -> (r: Result<Product, Error>) {
        let n = self.products.len();
        let mut i: usize = 0;
        while i < n
            invariant
                0 <= i <= n,
                n == self.products@.len(),
                forall|j: int|
                    0 <= j < i ==> self.products.deep_view()[j].product_id != product_id as int,
            decreases n - i,
        {
            if self.products[i].product_id == product_id {
                proof {
                    lemma_product_for_first(self.products.deep_view(), product_id as int, i as int);
                }
                return Ok(self.products[i].duplicate());
            }
            i += 1;
        }
        proof {
            lemma_product_for_none(self.products.deep_view(), product_id as int);
        }
        Err(Error::with_message(ErrorCode::ResourceNotFound, "Product not found".to_owned()))
    }

    fn find_all(&self, offset: i64, limit: i64) -> (r: Result<Vec<ProductListItem>, Error>) {
        let all = self.all_list_items();
        Ok(Self::page_items(&all, offset, limit))
    }

    fn count_total(&self) -> (r: Result<i64, Error>) {
        Ok(self.products.len() as i64)
    }

    #[verifier::loop_isolation(false)]
    fn update(&mut self, product_id: i64, update_product: UpdateProduct) -> (r: Result<
        Product,
        Error,
    >) {
        let n = self.products.len();
        let mut i: usize = 0;
        while i < n
            invariant
                self == old(self),
                0 <= i <= n,
                n == self.products@.len(),
                forall|j: int|
                    0 <= j < i ==> self.products.deep_view()[j].product_id != product_id as int,
            decreases n - i,
        {
            if self.products[i].product_id == product_id {
                proof {
                    lemma_product_for_first(self.products.deep_view(), product_id as int, i as int);
                }
                let updated = {
                    let cur = &self.products[i];
                    Product {
                        product_id: cur.product_id,
                        name: match update_product.name {
                            Some(v) => v,
                            None => clone_string(&cur.name),
                        },
                        description: match update_product.description {
                            Some(v) => Some(v),
                            None => clone_opt_string(&cur.description),
                        },
                        base_price: match update_product.base_price {
                            Some(v) => v,
                            None => cur.base_price,
                        },
                        status: match update_product.status {
                            Some(v) => v,
                            None => cur.status,
                        },
                        category: match update_product.category {
                            Some(v) => Some(v),
                            None => clone_opt_string(&cur.category),
                        },
                        stock_quantity: match update_product.stock_quantity {
                            Some(v) => Some(v),
                            None => cur.stock_quantity,
                        },
                        preview_image: match update_product.preview_image {
                            Some(v) => Some(v),
                            None => clone_string_list(&cur.preview_image),
                        },
                        preview_video: match update_product.preview_video {
                            Some(v) => Some(v),
                            None => clone_string_list(&cur.preview_video),
                        },
                        shipping: match update_product.shipping {
                            Some(v) => Some(v),
                            None => clone_string_list(&cur.shipping),
                        },
                    }
                };
                let ret = updated.duplicate();
                self.products.set(i, updated);
                proof {
                    let s0 = old(self).products.deep_view();
                    let s1 = self.products.deep_view();
                    assert(s1 =~= s0.update(i as int, ret.deep_view()));
                    assert forall|a: int|
                        0 <= a < s1.len() implies s1[a].product_id == s0[a].product_id by {}
                }
                return Ok(ret);
            }
            i += 1;
        }
        proof {
            lemma_product_for_none(self.products.deep_view(), product_id as int);
        }
        Err(Error::with_message(ErrorCode::ResourceNotFound, "Product not found".to_owned()))
    }

    #[verifier::loop_isolation(false)]
    fn delete(&mut self, product_id: i64) -> (r: Result<(), Error>) {
        let n = self.products.len();
        let mut i: usize = 0;
        while i < n
            invariant
                self == old(self),
                0 <= i <= n,
                n == self.products@.len(),
                forall|j: int|
                    0 <= j < i ==> self.products.deep_view()[j].product_id != product_id as int,
            decreases n - i,
        {
            if self.products[i].product_id == product_id {
                proof {
                    lemma_product_for_first(self.products.deep_view(), product_id as int, i as int);
                }
                self.products.remove(i);
                proof {
                    let s0 = old(self).products.deep_view();
                    let s1 = self.products.deep_view();
                    assert(s1 =~= s0.remove(i as int));
                    assert forall|a: int, b: int|
                        0 <= a < b < s1.len() implies s1[a].product_id > s1[b].product_id by {
                        if a < i as int {
                            assert(s1[a] == s0[a]);
                        } else {
                            assert(s1[a] == s0[a + 1]);
                        }
                        if b < i as int {
                            assert(s1[b] == s0[b]);
                        } else {
                            assert(s1[b] == s0[b + 1]);
                        }
                    }
                }
                return Ok(());
            }
            i += 1;
        }
        proof {
            lemma_product_for_none(self.products.deep_view(), product_id as int);
        }
        Err(Error::with_message(ErrorCode::ResourceNotFound, "Product not found".to_owned()))
    }

    #[verifier::loop_isolation(false)]
    fn search_by_name(&self, name: &str, offset: i64, limit: i64) -> (r: Result<
        Vec<ProductListItem>,
        Error,
    >) {
        let n = self.products.len();
        let mut matched: Vec<ProductListItem> = Vec::new();
        let mut i: usize = 0;
        while i < n
            invariant
                0 <= i <= n,
                n == self.products@.len(),
                matched.deep_view() == list_items_of(
                    matching(self.products().take(i as int), name@),
                ),
                matched@.len() <= i,
            decreases n - i,
        {
            let is_match = str_contains_ci(self.products[i].name.as_str(), name);
            proof {
                let s = self.products();
                assert(s.take(i + 1).drop_last() =~= s.take(i as int));
                assert(s.take(i + 1).last() == s[i as int]);
            }
            if is_match {
                let item = self.products[i].to_list_item();
                let ghost pre = matched@;
                let ghost pre_dv = matched.deep_view();
                matched.push(item);
                proof {
                    let s = self.products();
                    let prev = matching(s.take(i as int), name@);
                    assert(matching(s.take(i + 1), name@) == prev.push(s[i as int]));
                    assert forall|j: int|
                        0 <= j < matched@.len() implies matched.deep_view()[j] == list_items_of(
                        prev.push(s[i as int]),
                    )[j] by {
                        assert(matched.deep_view()[j] == matched@[j].deep_view());
                        if j < pre.len() {
                            assert(matched@[j] == pre[j]);
                            assert(pre_dv[j] == pre[j].deep_view());
                            assert(pre_dv[j] == list_items_of(prev)[j]);
                        } else {
                            assert(matched@[j] == item);
                            assert(item.deep_view() == list_item_of(s[i as int]));
                        }
                    }
                    assert(matched.deep_view() =~= list_items_of(prev.push(s[i as int])));
                }
            }
            i += 1;
        }
        proof {
            assert(self.products().take(n as int) =~= self.products());
            lemma_matching_len(self.products(), name@);
        }
        Ok(Self::page_items(&matched, offset, limit))
    }
}

} // verus!
