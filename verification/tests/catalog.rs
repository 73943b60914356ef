use storefront::product::entity::{NewProduct, ProductStatus, UpdateProduct};
use storefront::product::memory::MemoryProductRepository;
use storefront::product::service::ProductService;
use storefront::ErrorCode;

fn new_product(name: &str, price: i64) -> NewProduct {
    NewProduct {
        name: name.to_string(),
        description: None,
        base_price: price,
        status: None,
        category: None,
        stock_quantity: None,
        preview_image: None,
        preview_video: None,
        shipping: None,
    }
}

fn empty_patch() -> UpdateProduct {
    UpdateProduct {
        name: None,
        description: None,
        base_price: None,
        status: None,
        category: None,
        stock_quantity: None,
        preview_image: None,
        preview_video: None,
        shipping: None,
    }
}

fn service() -> ProductService<MemoryProductRepository> {
    ProductService::new(MemoryProductRepository::new())
}

#[test]
fn create_defaults_status_and_get_returns_the_row() {
    let mut s = service();
    let created = s.create_product(new_product("Phone", 19900)).unwrap();
    assert!(created.product_id > 0);
    assert_eq!(created.name, "Phone");
    assert_eq!(created.base_price, 19900);
    assert_eq!(created.status, ProductStatus::InStock);
    let fetched = s.get_product(created.product_id).unwrap();
    assert_eq!(fetched.name, "Phone");
    assert_eq!(fetched.product_id, created.product_id);
}

#[test]
fn create_keeps_an_explicit_status() {
    let mut s = service();
    let mut p = new_product("Poster", 500);
    p.status = Some(ProductStatus::Preorder);
    let created = s.create_product(p).unwrap();
    assert_eq!(created.status, ProductStatus::Preorder);
}

#[test]
fn duplicate_name_ignoring_case_is_rejected() {
    let mut s = service();
    s.create_product(new_product("Phone", 19900)).unwrap();
    let r = s.create_product(new_product("phone", 10000));
    let e = r.err().unwrap();
    assert_eq!(e.code, ErrorCode::ResourceAlreadyExists);
    assert_eq!(e.message, "Product with this name already exists");
}

#[test]
fn non_positive_price_is_rejected() {
    let mut s = service();
    let r = s.create_product(new_product("Phone", 0));
    assert_eq!(r.err().unwrap().code, ErrorCode::ValidationError);
    let r = s.create_product(new_product("Phone", -5));
    assert_eq!(r.err().unwrap().code, ErrorCode::ValidationError);
}

#[test]
fn blank_or_oversized_name_is_rejected() {
    let mut s = service();
    let r = s.create_product(new_product("   ", 100));
    assert_eq!(r.err().unwrap().code, ErrorCode::ValidationError);
    let long_name = "x".repeat(151);
    let r = s.create_product(new_product(long_name.as_str(), 100));
    assert_eq!(r.err().unwrap().code, ErrorCode::ValidationError);
    let just_fits = "x".repeat(150);
    assert!(s.create_product(new_product(just_fits.as_str(), 100)).is_ok());
}

#[test]
fn name_limit_counts_characters_not_bytes() {
    let mut s = service();
    // 150 two-byte characters: 300 bytes, but within the 150-character limit
    let wide = "\u{e9}".repeat(150);
    assert!(s.create_product(new_product(wide.as_str(), 100)).is_ok());
    let too_wide = "\u{e9}".repeat(151);
    let r = s.create_product(new_product(too_wide.as_str(), 100));
    assert_eq!(r.err().unwrap().code, ErrorCode::ValidationError);
}

#[test]
fn get_with_non_positive_id_is_rejected() {
    let s = service();
    assert_eq!(s.get_product(0).err().unwrap().code, ErrorCode::ValidationError);
    assert_eq!(s.get_product(-3).err().unwrap().code, ErrorCode::ValidationError);
}

#[test]
fn get_missing_row_is_not_found() {
    let s = service();
    assert_eq!(s.get_product(42).err().unwrap().code, ErrorCode::ResourceNotFound);
}

#[test]
fn listing_paginates_newest_first_with_clamping() {
    let mut s = service();
    for i in 1..=25 {
        let name = format!("Item {}", i);
        s.create_product(new_product(name.as_str(), 100 + i)).unwrap();
    }
    let page1 = s.list_products(1, 10).unwrap();
    assert_eq!(page1.total, 25);
    assert_eq!(page1.total_pages, 3);
    assert_eq!(page1.page, 1);
    assert_eq!(page1.page_size, 10);
    assert_eq!(page1.products.len(), 10);
    for w in page1.products.windows(2) {
        assert!(w[0].product_id > w[1].product_id);
    }
    assert_eq!(page1.products[0].name, "Item 25");
    assert_eq!(page1.products[9].name, "Item 16");

    let page3 = s.list_products(3, 10).unwrap();
    assert_eq!(page3.products.len(), 5);
    assert_eq!(page3.products[4].name, "Item 1");

    // page 0 is clamped to 1, and an oversized page size to 100
    let clamped = s.list_products(0, 500).unwrap();
    assert_eq!(clamped.page, 1);
    assert_eq!(clamped.page_size, 100);
    assert_eq!(clamped.products.len(), 25);
    assert_eq!(clamped.total_pages, 1);

    let tiny = s.list_products(1, 0).unwrap();
    assert_eq!(tiny.page_size, 1);
    assert_eq!(tiny.products.len(), 1);
    assert_eq!(tiny.total_pages, 25);
}

#[test]
fn page_past_the_end_is_empty() {
    let mut s = service();
    for i in 1..=3 {
        let name = format!("Thing {}", i);
        s.create_product(new_product(name.as_str(), 100)).unwrap();
    }
    let r = s.list_products(5, 10).unwrap();
    assert_eq!(r.products.len(), 0);
    assert_eq!(r.total, 3);
    assert_eq!(r.total_pages, 1);
}

#[test]
fn search_paginates_like_a_listing() {
    let mut s = service();
    for i in 1..=12 {
        let name = format!("Widget {}", i);
        s.create_product(new_product(name.as_str(), 100)).unwrap();
    }
    let page1 = s.search_products("widget", 1, 5).unwrap();
    assert_eq!(page1.len(), 5);
    assert_eq!(page1[0].name, "Widget 12");
    let page3 = s.search_products("widget", 3, 5).unwrap();
    assert_eq!(page3.len(), 2);
    assert_eq!(page3[1].name, "Widget 1");
}

#[test]
fn update_keeps_the_listing_order() {
    let mut s = service();
    let a = s.create_product(new_product("Alpha", 100)).unwrap();
    let b = s.create_product(new_product("Beta", 100)).unwrap();
    let mut patch = empty_patch();
    patch.base_price = Some(900);
    s.update_product(a.product_id, patch).unwrap();
    let listing = s.list_products(1, 10).unwrap();
    assert_eq!(listing.products[0].product_id, b.product_id);
    assert_eq!(listing.products[1].product_id, a.product_id);
    assert_eq!(listing.products[1].base_price, 900);
}

#[test]
fn empty_listing_has_zero_pages() {
    let s = service();
    let r = s.list_products(1, 10).unwrap();
    assert_eq!(r.total, 0);
    assert_eq!(r.total_pages, 0);
    assert_eq!(r.products.len(), 0);
}

#[test]
fn update_patches_only_present_fields() {
    let mut s = service();
    let created = s.create_product(new_product("Lamp", 700)).unwrap();
    let mut patch = empty_patch();
    patch.description = Some("warm light".to_string());
    let updated = s.update_product(created.product_id, patch).unwrap();
    assert_eq!(updated.name, "Lamp");
    assert_eq!(updated.base_price, 700);
    assert_eq!(updated.description.as_deref(), Some("warm light"));
    let fetched = s.get_product(created.product_id).unwrap();
    assert_eq!(fetched.description.as_deref(), Some("warm light"));
}

#[test]
fn update_validates_when_both_name_and_price_are_present() {
    let mut s = service();
    let created = s.create_product(new_product("Lamp", 700)).unwrap();
    let mut patch = empty_patch();
    patch.name = Some("Lamp II".to_string());
    patch.base_price = Some(0);
    let r = s.update_product(created.product_id, patch);
    assert_eq!(r.err().unwrap().code, ErrorCode::ValidationError);
    // a name alone is applied without re-validation of the price
    let mut patch = empty_patch();
    patch.name = Some("Lamp II".to_string());
    let updated = s.update_product(created.product_id, patch).unwrap();
    assert_eq!(updated.name, "Lamp II");
}

#[test]
fn update_missing_row_is_not_found() {
    let mut s = service();
    let r = s.update_product(42, empty_patch());
    assert_eq!(r.err().unwrap().code, ErrorCode::ResourceNotFound);
    let r = s.update_product(0, empty_patch());
    assert_eq!(r.err().unwrap().code, ErrorCode::ValidationError);
}

#[test]
fn delete_removes_the_row() {
    let mut s = service();
    let created = s.create_product(new_product("Lamp", 700)).unwrap();
    s.delete_product(created.product_id).unwrap();
    assert_eq!(s.get_product(created.product_id).err().unwrap().code, ErrorCode::ResourceNotFound);
    assert_eq!(s.delete_product(created.product_id).err().unwrap().code, ErrorCode::ResourceNotFound);
    assert_eq!(s.delete_product(0).err().unwrap().code, ErrorCode::ValidationError);
}

#[test]
fn search_matches_substrings_ignoring_ascii_case() {
    let mut s = service();
    s.create_product(new_product("Red Shoe", 100)).unwrap();
    s.create_product(new_product("Blue Sneaker", 100)).unwrap();
    s.create_product(new_product("Hat", 100)).unwrap();
    let hits = s.search_products("SHOE", 1, 10).unwrap();
    assert_eq!(hits.len(), 1);
    assert_eq!(hits[0].name, "Red Shoe");
    let hits = s.search_products("e", 1, 10).unwrap();
    assert_eq!(hits.len(), 2);
    assert!(hits[0].product_id > hits[1].product_id);
}

#[test]
fn blank_search_is_rejected() {
    let s = service();
    let r = s.search_products("  ", 1, 10);
    let e = r.err().unwrap();
    assert_eq!(e.code, ErrorCode::ValidationError);
    assert_eq!(e.message, "Search name cannot be empty");
}
