use storefront::cart::entity::AddToCartRequest;
use storefront::cart::memory::MemoryCartRepository;
use storefront::cart::service::CartService;
use storefront::ErrorCode;

fn service_with_variant(variant_id: i64) -> CartService<MemoryCartRepository> {
    let mut repo = MemoryCartRepository::new();
    repo.insert_variant(variant_id);
    CartService::new(repo)
}

#[test]
fn adding_twice_accumulates_into_one_row() {
    let mut service = service_with_variant(5);
    let first = service
        .add_to_cart(AddToCartRequest { user_id: 1, variant_id: 5, quantity: 2 })
        .unwrap();
    assert_eq!(first.item.quantity, 2);
    let second = service
        .add_to_cart(AddToCartRequest { user_id: 1, variant_id: 5, quantity: 3 })
        .unwrap();
    assert_eq!(second.item.quantity, 5);
    assert_eq!(second.item.cart_id, first.item.cart_id);
    assert_eq!(second.item.item_id, first.item.item_id);
    assert_eq!(second.message, "Item added to cart");

    let items = service.repo.items_vec();
    assert_eq!(items.len(), 1);
    assert_eq!(items[0].cart_id, first.item.cart_id);
    assert_eq!(items[0].variant_id, 5);
    assert_eq!(items[0].quantity, 5);
    assert_eq!(service.repo.carts_vec().len(), 1);
}

#[test]
fn zero_quantity_is_rejected_and_nothing_is_persisted() {
    let mut service = service_with_variant(5);
    let r = service.add_to_cart(AddToCartRequest { user_id: 1, variant_id: 5, quantity: 0 });
    let e = r.err().unwrap();
    assert_eq!(e.code, ErrorCode::ValidationError);
    assert_eq!(e.message, "Quantity must be greater than 0");
    assert_eq!(service.repo.items_vec().len(), 0);
    assert_eq!(service.repo.carts_vec().len(), 0);
}

#[test]
fn negative_quantity_is_rejected_and_nothing_is_persisted() {
    let mut service = service_with_variant(5);
    let r = service.add_to_cart(AddToCartRequest { user_id: 1, variant_id: 5, quantity: -4 });
    assert_eq!(r.err().unwrap().code, ErrorCode::ValidationError);
    assert_eq!(service.repo.items_vec().len(), 0);
    assert_eq!(service.repo.carts_vec().len(), 0);
}

#[test]
fn missing_variant_fails_with_not_found() {
    let mut service = service_with_variant(5);
    let r = service.add_to_cart(AddToCartRequest { user_id: 1, variant_id: 77, quantity: 1 });
    let e = r.err().unwrap();
    assert_eq!(e.code, ErrorCode::ResourceNotFound);
    assert_eq!(e.message, "Variant not found");
    assert_eq!(service.repo.items_vec().len(), 0);
}

#[test]
fn each_user_gets_one_cart() {
    let mut service = service_with_variant(5);
    service.add_to_cart(AddToCartRequest { user_id: 1, variant_id: 5, quantity: 1 }).unwrap();
    service.add_to_cart(AddToCartRequest { user_id: 2, variant_id: 5, quantity: 1 }).unwrap();
    service.add_to_cart(AddToCartRequest { user_id: 1, variant_id: 5, quantity: 1 }).unwrap();
    let carts = service.repo.carts_vec();
    assert_eq!(carts.len(), 2);
    assert_ne!(carts[0].cart_id, carts[1].cart_id);
}

#[test]
fn different_variants_get_separate_rows() {
    let mut repo = MemoryCartRepository::new();
    repo.insert_variant(5);
    repo.insert_variant(6);
    let mut service = CartService::new(repo);
    service.add_to_cart(AddToCartRequest { user_id: 1, variant_id: 5, quantity: 2 }).unwrap();
    service.add_to_cart(AddToCartRequest { user_id: 1, variant_id: 6, quantity: 7 }).unwrap();
    let items = service.repo.items_vec();
    assert_eq!(items.len(), 2);
    assert_eq!(items[0].cart_id, items[1].cart_id);
}
