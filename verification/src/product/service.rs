//! The catalog service: validation of product input, a uniqueness pre-check
//! on creation, pagination with clamping, partial updates and deletion.

use vstd::prelude::*;
use vstd::string::StringSliceAdditionalSpecFns;
use vstd::utf8::encode_utf8;

use super::entity::{patched, product_of_new, NewProduct, Product, ProductListItem, UpdateProduct};
use super::repository::{
    lemma_product_for_id, list_items_of, matching, page_of, product_for, ProductRepository,
};
use crate::errors::{Error, ErrorCode};
use crate::strings::{is_blank, str_is_blank, str_longer_than};

verus! {

/// Acceptable product input: a name that is not blank and at most 150
/// characters long, and a strictly positive price.
pub open spec fn valid_product_input(name: Seq<char>, price: int) -> bool {
    &&& !is_blank(encode_utf8(name))
    &&& name.len() <= 150
    &&& price > 0
}

/// The page number actually served: pages are counted from 1.
pub open spec fn clamped_page(page: u32) -> int {
    if page < 1 {
        1
    } else {
        page as int
    }
}

/// The page size actually served: clamped into 1..=100.
pub open spec fn clamped_page_size(page_size: u32) -> int {
    if page_size < 1 {
        1
    } else if page_size > 100 {
        100
    } else {
        page_size as int
    }
}

/// How many pages of `size` rows cover `total` rows: the ceiling of
/// total / size, and zero when nothing is stored.
pub open spec fn pages_needed(total: int, size: int) -> int {
    if total <= 0 {
        0
    } else {
        (total - 1) / size + 1
    }
}

/// `pages_needed`, saturated into the u32 the response carries.
pub open spec fn pages_needed_u32(total: int, size: int) -> int {
    if pages_needed(total, size) > u32::MAX as int {
        u32::MAX as int
    } else {
        pages_needed(total, size)
    }
}

pub struct ProductListResponse {
    pub products: Vec<ProductListItem>,
    pub total: i64,
    pub page: u32,
    pub page_size: u32,
    pub total_pages: u32,
}

pub struct ProductService<R: ProductRepository> {
    pub repository: R,
}

impl<R: ProductRepository> ProductService<R> {
    pub fn new(repository: R) -> (r: ProductService<R>)
        ensures
            r.repository == repository,
    {
        ProductService { repository }
    }

    fn validate_product_data(&self, name: &str, base_price: i64) -> (r: Result<(), Error>)
        ensures
            r is Ok <==> valid_product_input(name@, base_price as int),
            r matches Err(e) ==> e.code == ErrorCode::ValidationError,
    {
        if str_is_blank(name) {
            return Err(Error::with_message(
                ErrorCode::ValidationError,
                "Product name is required".to_owned(),
            ));
        }
        if str_longer_than(name, 150) {
            return Err(Error::with_message(
                ErrorCode::ValidationError,
                "Product name must be 150 characters or less".to_owned(),
            ));
        }
        if base_price <= 0 {
            return Err(Error::with_message(
                ErrorCode::ValidationError,
                "Product price must be greater than 0".to_owned(),
            ));
        }
        proof {
            assert(name.spec_bytes() == encode_utf8(name@));
        }
        Ok(())
    }

    /// Create a product: reject invalid input outright, refuse a name that
    /// an existing product's name already contains (case-insensitively), and
    /// otherwise persist the row, newest first, with a defaulted status.
    /// The uniqueness pre-check and the insert are two store calls, not one
    /// atomic step; under concurrent creators the store's own constraints
    /// must hold the line.
    pub fn create_product(&mut self, new_product: NewProduct) -> (r: Result<Product, Error>)
        requires
            old(self).repository.wf(),
        ensures
            final(self).repository.wf(),
            r matches Err(_) ==> final(self).repository.products() == old(
                self,
            ).repository.products(),
            r matches Err(e) ==> (e.code == ErrorCode::ValidationError || e.code
                == ErrorCode::ResourceAlreadyExists || e.code == ErrorCode::DatabaseError),
            !valid_product_input(new_product.name@, new_product.base_price as int) ==> (r matches
                Err(e) && e.code == ErrorCode::ValidationError),
            r matches Err(e) && e.code == ErrorCode::ValidationError ==> !valid_product_input(
                new_product.name@,
                new_product.base_price as int,
            ),
            r matches Err(e) && e.code == ErrorCode::ResourceAlreadyExists ==> matching(
                old(self).repository.products(),
                new_product.name@,
            ).len() > 0,
            valid_product_input(new_product.name@, new_product.base_price as int) && matching(
                old(self).repository.products(),
                new_product.name@,
            ).len() > 0 ==> (r matches Err(e) && (e.code == ErrorCode::ResourceAlreadyExists
                || e.code == ErrorCode::DatabaseError)),
            r matches Ok(p) ==> valid_product_input(new_product.name@, new_product.base_price as int)
                && matching(old(self).repository.products(), new_product.name@).len() == 0
                && p.product_id > 0 && p.deep_view() == product_of_new(
                new_product.deep_view(),
                p.product_id as int,
            ) && final(self).repository.products() == old(self).repository.products().insert(
                0,
                p.deep_view(),
            ),
    {
        match self.validate_product_data(new_product.name.as_str(), new_product.base_price) {
            Ok(_) => (),
            Err(e) => {
                return Err(e);
            },
        }
        let found = match self.repository.search_by_name(new_product.name.as_str(), 0, 1) {
            Ok(v) => v,
            Err(e) => {
                return Err(e);
            },
        };
        if found.len() > 0 {
            proof {
                assert(found.deep_view().len() == found@.len());
            }
            return Err(Error::with_message(
                ErrorCode::ResourceAlreadyExists,
                "Product with this name already exists".to_owned(),
            ));
        }
        proof {
            let m = list_items_of(matching(self.repository.products(), new_product.name@));
            assert(found.deep_view().len() == found@.len());
            if m.len() > 0 {
                assert(page_of(m, 0, 1).len() > 0);
            }
        }
        self.repository.create(new_product)
    }

    /// Look a product up by its id; a non-positive id is rejected.
    pub fn get_product(&self, product_id: i64) -> (r: Result<Product, Error>)
        requires
            self.repository.wf(),
        ensures
            product_id <= 0 ==> (r matches Err(e) && e.code == ErrorCode::ValidationError),
            r matches Err(e) && e.code == ErrorCode::ValidationError ==> product_id <= 0,
            r matches Err(e) ==> (e.code == ErrorCode::ValidationError || e.code
                == ErrorCode::ResourceNotFound || e.code == ErrorCode::DatabaseError),
            r matches Ok(p) ==> product_id > 0 && product_for(
                self.repository.products(),
                product_id as int,
            ) == Some(p.deep_view()),
            r matches Err(e) && e.code == ErrorCode::ResourceNotFound ==> product_for(
                self.repository.products(),
                product_id as int,
            ) is None,
            product_id > 0 && product_for(self.repository.products(), product_id as int) is None
                ==> (r matches Err(e) && (e.code == ErrorCode::ResourceNotFound || e.code
                == ErrorCode::DatabaseError)),
    {
        if product_id <= 0 {
            return Err(Error::with_message(
                ErrorCode::ValidationError,
                "Invalid product ID".to_owned(),
            ));
        }
        self.repository.find_by_id(product_id)
    }

    /// One page of the catalog, newest first: the page number is clamped to
    /// at least 1, the page size into 1..=100, and the response carries the
    /// total row count and the number of pages it takes at this size.
    pub fn list_products(&self, page: u32, page_size: u32) -> (r: Result<
        ProductListResponse,
        Error,
    >)
        requires
            self.repository.wf(),
        ensures
            r matches Ok(resp) ==> resp.page as int == clamped_page(page) && resp.page_size as int
                == clamped_page_size(page_size) && resp.total as int
                == self.repository.products().len() && resp.total_pages as int == pages_needed_u32(
                self.repository.products().len() as int,
                clamped_page_size(page_size),
            ) && resp.products.deep_view() == page_of(
                list_items_of(self.repository.products()),
                (clamped_page(page) - 1) * clamped_page_size(page_size),
                clamped_page_size(page_size),
            ),
            r matches Err(e) ==> e.code == ErrorCode::DatabaseError,
    {
        let page_c: u32 = if page < 1 {
            1
        } else {
            page
        };
        let size_c: u32 = if page_size < 1 {
            1
        } else if page_size > 100 {
            100
        } else {
            page_size
        };
        let pm1: i64 = (page_c as i64) - 1;
        let sz: i64 = size_c as i64;
        proof {
            assert(pm1 * sz <= 0xffff_ffff * 100 && pm1 * sz >= 0) by (nonlinear_arith)
                requires
                    0 <= pm1 <= 0xffff_ffff,
                    1 <= sz <= 100,
            ;
        }
        let offset: i64 = pm1 * sz;
        let limit: i64 = sz;
        let products = match self.repository.find_all(offset, limit) {
            Ok(v) => v,
            Err(e) => {
                return Err(e);
            },
        };
        let total = match self.repository.count_total() {
            Ok(n) => n,
            Err(e) => {
                return Err(e);
            },
        };
        proof {
            self.repository.wf_facts();
        }
        let tp: i64 = if total <= 0 {
            0
        } else {
            (total - 1) / (size_c as i64) + 1
        };
        let total_pages: u32 = if tp > (u32::MAX as i64) {
            u32::MAX
        } else {
            tp as u32
        };
        Ok(
            ProductListResponse {
                products,
                total,
                page: page_c,
                page_size: size_c,
                total_pages,
            },
        )
    }

    /// Apply a partial update: when both a new name and a new price are
    /// present they are validated as a creation would be; the product must
    /// exist before the patch is applied.
    pub fn update_product(&mut self, product_id: i64, update_product: UpdateProduct) -> (r: Result<
        Product,
        Error,
    >)
        requires
            old(self).repository.wf(),
        ensures
            final(self).repository.wf(),
            r matches Err(_) ==> final(self).repository.products() == old(
                self,
            ).repository.products(),
            product_id <= 0 ==> (r matches Err(e) && e.code == ErrorCode::ValidationError),
            update_product.name matches Some(n) && update_product.base_price matches Some(b)
                && !valid_product_input(n@, b as int) ==> (r matches Err(e) && e.code
                == ErrorCode::ValidationError),
            r matches Err(e) && e.code == ErrorCode::ValidationError ==> product_id <= 0 || (
            update_product.name matches Some(n) && update_product.base_price matches Some(b)
                && !valid_product_input(n@, b as int)),
            r matches Err(e) ==> (e.code == ErrorCode::ValidationError || e.code
                == ErrorCode::ResourceNotFound || e.code == ErrorCode::DatabaseError),
            r matches Err(e) && e.code == ErrorCode::ResourceNotFound ==> product_for(
                old(self).repository.products(),
                product_id as int,
            ) is None,
            r matches Ok(p) ==> product_id > 0 && p.product_id == product_id && (match product_for(
                old(self).repository.products(),
                product_id as int,
            ) {
                Some(prev) => p.deep_view() == patched(prev, update_product.deep_view()) && (
                exists|j: int|
                    0 <= j < old(self).repository.products().len() && old(
                        self,
                    ).repository.products()[j] == prev && final(self).repository.products() == old(
                        self,
                    ).repository.products().update(j, p.deep_view())),
                None => false,
            }),
    {
        if product_id <= 0 {
            return Err(Error::with_message(
                ErrorCode::ValidationError,
                "Invalid product ID".to_owned(),
            ));
        }
        match (&update_product.name, &update_product.base_price) {
            (Some(name), Some(base_price)) => {
                match self.validate_product_data(name.as_str(), *base_price) {
                    Ok(_) => (),
                    Err(e) => {
                        return Err(e);
                    },
                }
            },
            _ => (),
        }
        match self.repository.find_by_id(product_id) {
            Ok(_) => (),
            Err(e) => {
                return Err(e);
            },
        }
        let r = self.repository.update(product_id, update_product);
        proof {
            lemma_product_for_id(old(self).repository.products(), product_id as int);
        }
        r
    }

    /// Delete a product by id; the row must exist, and afterwards it is gone.
    pub fn delete_product(&mut self, product_id: i64) -> (r: Result<(), Error>)
        requires
            old(self).repository.wf(),
        ensures
            final(self).repository.wf(),
            r matches Err(_) ==> final(self).repository.products() == old(
                self,
            ).repository.products(),
            product_id <= 0 ==> (r matches Err(e) && e.code == ErrorCode::ValidationError),
            r matches Err(e) && e.code == ErrorCode::ValidationError ==> product_id <= 0,
            r matches Err(e) ==> (e.code == ErrorCode::ValidationError || e.code
                == ErrorCode::ResourceNotFound || e.code == ErrorCode::DatabaseError),
            r matches Err(e) && e.code == ErrorCode::ResourceNotFound ==> product_for(
                old(self).repository.products(),
                product_id as int,
            ) is None,
            r matches Ok(_) ==> product_id > 0 && (exists|j: int|
                0 <= j < old(self).repository.products().len() && old(
                    self,
                ).repository.products()[j].product_id == product_id as int && final(self).repository.products() == old(self).repository.products().remove(j)),
    {
        if product_id <= 0 {
            return Err(Error::with_message(
                ErrorCode::ValidationError,
                "Invalid product ID".to_owned(),
            ));
        }
        match self.repository.find_by_id(product_id) {
            Ok(_) => (),
            Err(e) => {
                return Err(e);
            },
        }
        self.repository.delete(product_id)
    }

    /// One page of the products whose names contain `name`, ignoring ASCII
    /// case, newest first; a blank search is rejected and pagination is
    /// clamped as a listing's is.
    pub fn search_products(&self, name: &str, page: u32, page_size: u32) -> (r: Result<
        Vec<ProductListItem>,
        Error,
    >)
        requires
            self.repository.wf(),
        ensures
            is_blank(name.spec_bytes()) ==> (r matches Err(e) && e.code
                == ErrorCode::ValidationError),
            r matches Err(e) && e.code == ErrorCode::ValidationError ==> is_blank(
                name.spec_bytes(),
            ),
            r matches Err(e) ==> (e.code == ErrorCode::ValidationError || e.code
                == ErrorCode::DatabaseError),
            r matches Ok(v) ==> !is_blank(name.spec_bytes()) && v.deep_view() == page_of(
                list_items_of(matching(self.repository.products(), name@)),
                (clamped_page(page) - 1) * clamped_page_size(page_size),
                clamped_page_size(page_size),
            ),
    {
        if str_is_blank(name) {
            return Err(Error::with_message(
                ErrorCode::ValidationError,
                "Search name cannot be empty".to_owned(),
            ));
        }
        let page_c: u32 = if page < 1 {
            1
        } else {
            page
        };
        let size_c: u32 = if page_size < 1 {
            1
        } else if page_size > 100 {
            100
        } else {
            page_size
        };
        let pm1: i64 = (page_c as i64) - 1;
        let sz: i64 = size_c as i64;
        proof {
            assert(pm1 * sz <= 0xffff_ffff * 100 && pm1 * sz >= 0) by (nonlinear_arith)
                requires
                    0 <= pm1 <= 0xffff_ffff,
                    1 <= sz <= 100,
            ;
        }
        let offset: i64 = pm1 * sz;
        let limit: i64 = sz;
        self.repository.search_by_name(name, offset, limit)
    }
}

} // verus!
