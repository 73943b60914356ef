//! The product aggregate: catalog entities and their mathematical values.
//! Prices are carried in minor units (an integer count of cents).

use vstd::prelude::*;

use crate::strings::{clone_opt_string, clone_string, clone_string_list};

verus! {

#[derive(Debug, Clone, Copy, PartialEq, Eq, Structural)]
pub enum ProductStatus {
    Preorder,
    InStock,
    OutOfStock,
}

/// A stored catalog row.
#[derive(Debug)]
pub struct Product {
    pub product_id: i64,
    pub name: String,
    pub description: Option<String>,
    pub base_price: i64,
    pub status: ProductStatus,
    pub category: Option<String>,
    pub stock_quantity: Option<i32>,
    pub preview_image: Option<Vec<Option<String>>>,
    pub preview_video: Option<Vec<Option<String>>>,
    pub shipping: Option<Vec<Option<String>>>,
}

/// The mathematical value of a stored catalog row.
pub ghost struct ProductM {
    pub product_id: int,
    pub name: Seq<char>,
    pub description: Option<Seq<char>>,
    pub base_price: int,
    pub status: ProductStatus,
    pub category: Option<Seq<char>>,
    pub stock_quantity: Option<int>,
    pub preview_image: Option<Seq<Option<Seq<char>>>>,
    pub preview_video: Option<Seq<Option<Seq<char>>>>,
    pub shipping: Option<Seq<Option<Seq<char>>>>,
}

impl DeepView for Product {
    type V = ProductM;

    open spec fn deep_view(&self) -> ProductM {
        ProductM {
            product_id: self.product_id as int,
            name: self.name@,
            description: self.description.deep_view(),
            base_price: self.base_price as int,
            status: self.status,
            category: self.category.deep_view(),
            stock_quantity: (match self.stock_quantity {
                Some(q) => Some(q as int),
                None => None,
            }),
            preview_image: self.preview_image.deep_view(),
            preview_video: self.preview_video.deep_view(),
            shipping: self.shipping.deep_view(),
        }
    }
}

/// A catalog row to be created; the store assigns the id, and a missing
/// status defaults to in-stock.
#[derive(Debug)]
pub struct NewProduct {
    pub name: String,
    pub description: Option<String>,
    pub base_price: i64,
    pub status: Option<ProductStatus>,
    pub category: Option<String>,
    pub stock_quantity: Option<i32>,
    pub preview_image: Option<Vec<Option<String>>>,
    pub preview_video: Option<Vec<Option<String>>>,
    pub shipping: Option<Vec<Option<String>>>,
}

/// The mathematical value of a catalog row to be created.
pub ghost struct NewProductM {
    pub name: Seq<char>,
    pub description: Option<Seq<char>>,
    pub base_price: int,
    pub status: Option<ProductStatus>,
    pub category: Option<Seq<char>>,
    pub stock_quantity: Option<int>,
    pub preview_image: Option<Seq<Option<Seq<char>>>>,
    pub preview_video: Option<Seq<Option<Seq<char>>>>,
    pub shipping: Option<Seq<Option<Seq<char>>>>,
}

impl DeepView for NewProduct {
    type V = NewProductM;

    open spec fn deep_view(&self) -> NewProductM {
        NewProductM {
            name: self.name@,
            description: self.description.deep_view(),
            base_price: self.base_price as int,
            status: self.status,
            category: self.category.deep_view(),
            stock_quantity: (match self.stock_quantity {
                Some(q) => Some(q as int),
                None => None,
            }),
            preview_image: self.preview_image.deep_view(),
            preview_video: self.preview_video.deep_view(),
            shipping: self.shipping.deep_view(),
        }
    }
}

/// A partial update: a present field replaces the stored one, an absent
/// field leaves it as it is.
#[derive(Debug)]
pub struct UpdateProduct {
    pub name: Option<String>,
    pub description: Option<String>,
    pub base_price: Option<i64>,
    pub status: Option<ProductStatus>,
    pub category: Option<String>,
    pub stock_quantity: Option<i32>,
    pub preview_image: Option<Vec<Option<String>>>,
    pub preview_video: Option<Vec<Option<String>>>,
    pub shipping: Option<Vec<Option<String>>>,
}

/// The mathematical value of a partial update.
pub ghost struct UpdateProductM {
    pub name: Option<Seq<char>>,
    pub description: Option<Seq<char>>,
    pub base_price: Option<int>,
    pub status: Option<ProductStatus>,
    pub category: Option<Seq<char>>,
    pub stock_quantity: Option<int>,
    pub preview_image: Option<Seq<Option<Seq<char>>>>,
    pub preview_video: Option<Seq<Option<Seq<char>>>>,
    pub shipping: Option<Seq<Option<Seq<char>>>>,
}

impl DeepView for UpdateProduct {
    type V = UpdateProductM;

    open spec fn deep_view(&self) -> UpdateProductM {
        UpdateProductM {
            name: self.name.deep_view(),
            description: self.description.deep_view(),
            base_price: (match self.base_price {
                Some(b) => Some(b as int),
                None => None,
            }),
            status: self.status,
            category: self.category.deep_view(),
            stock_quantity: (match self.stock_quantity {
                Some(q) => Some(q as int),
                None => None,
            }),
            preview_image: self.preview_image.deep_view(),
            preview_video: self.preview_video.deep_view(),
            shipping: self.shipping.deep_view(),
        }
    }
}

/// The slice of a product that listings and search results carry.
#[derive(Debug)]
pub struct ProductListItem {
    pub product_id: i64,
    pub name: String,
    pub base_price: i64,
    pub status: ProductStatus,
    pub category: Option<String>,
    pub preview_image: Option<Vec<Option<String>>>,
}

/// The mathematical value of a listing entry.
pub ghost struct ProductListItemM {
    pub product_id: int,
    pub name: Seq<char>,
    pub base_price: int,
    pub status: ProductStatus,
    pub category: Option<Seq<char>>,
    pub preview_image: Option<Seq<Option<Seq<char>>>>,
}

impl DeepView for ProductListItem {
    type V = ProductListItemM;

    open spec fn deep_view(&self) -> ProductListItemM {
        ProductListItemM {
            product_id: self.product_id as int,
            name: self.name@,
            base_price: self.base_price as int,
            status: self.status,
            category: self.category.deep_view(),
            preview_image: self.preview_image.deep_view(),
        }
    }
}

/// A concrete purchasable configuration of a product.
#[derive(Debug)]
pub struct Variant {
    pub variant_id: i64,
    pub product_id: i64,
    pub size: Option<String>,
    pub color: Option<String>,
    pub stock_quantity: Option<i32>,
}

/// The listing projection of a stored product.
pub open spec fn list_item_of(p: ProductM) -> ProductListItemM {
    ProductListItemM {
        product_id: p.product_id,
        name: p.name,
        base_price: p.base_price,
        status: p.status,
        category: p.category,
        preview_image: p.preview_image,
    }
}

/// The stored row that creating `n` under a fresh `id` yields: the fields
/// carry over, with a missing status defaulted to in-stock.
pub open spec fn product_of_new(n: NewProductM, id: int) -> ProductM {
    ProductM {
        product_id: id,
        name: n.name,
        description: n.description,
        base_price: n.base_price,
        status: match n.status {
            Some(s) => s,
            None => ProductStatus::InStock,
        },
        category: n.category,
        stock_quantity: n.stock_quantity,
        preview_image: n.preview_image,
        preview_video: n.preview_video,
        shipping: n.shipping,
    }
}

/// The stored row after applying the partial update `u` to `p`.
pub open spec fn patched(p: ProductM, u: UpdateProductM) -> ProductM {
    ProductM {
        product_id: p.product_id,
        name: match u.name {
            Some(n) => n,
            None => p.name,
        },
        description: match u.description {
            Some(d) => Some(d),
            None => p.description,
        },
        base_price: match u.base_price {
            Some(b) => b,
            None => p.base_price,
        },
        status: match u.status {
            Some(s) => s,
            None => p.status,
        },
        category: match u.category {
            Some(c) => Some(c),
            None => p.category,
        },
        stock_quantity: match u.stock_quantity {
            Some(q) => Some(q),
            None => p.stock_quantity,
        },
        preview_image: match u.preview_image {
            Some(m) => Some(m),
            None => p.preview_image,
        },
        preview_video: match u.preview_video {
            Some(m) => Some(m),
            None => p.preview_video,
        },
        shipping: match u.shipping {
            Some(m) => Some(m),
            None => p.shipping,
        },
    }
}

impl Product {
    /// A copy that keeps the mathematical value.
    pub fn duplicate(&self) -> (r: Product)
        ensures
            r.deep_view() == self.deep_view(),
    {
        Product {
            product_id: self.product_id,
            name: clone_string(&self.name),
            description: clone_opt_string(&self.description),
            base_price: self.base_price,
            status: self.status,
            category: clone_opt_string(&self.category),
            stock_quantity: self.stock_quantity,
            preview_image: clone_string_list(&self.preview_image),
            preview_video: clone_string_list(&self.preview_video),
            shipping: clone_string_list(&self.shipping),
        }
    }

    /// The listing projection, as a fresh value.
    pub fn to_list_item(&self) -> (r: ProductListItem)
        ensures
            r.deep_view() == list_item_of(self.deep_view()),
    {
        ProductListItem {
            product_id: self.product_id,
            name: clone_string(&self.name),
            base_price: self.base_price,
            status: self.status,
            category: clone_opt_string(&self.category),
            preview_image: clone_string_list(&self.preview_image),
        }
    }
}

impl ProductListItem {
    /// A copy that keeps the mathematical value.
    pub fn duplicate(&self) -> (r: ProductListItem)
        ensures
            r.deep_view() == self.deep_view(),
    {
        ProductListItem {
            product_id: self.product_id,
            name: clone_string(&self.name),
            base_price: self.base_price,
            status: self.status,
            category: clone_opt_string(&self.category),
            preview_image: clone_string_list(&self.preview_image),
        }
    }
}

} // verus!
