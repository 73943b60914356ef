use storefront::favorite::entity::AddFavoriteRequest;
use storefront::favorite::memory::MemoryFavoriteRepository;
use storefront::favorite::service::FavoriteService;
use storefront::ErrorCode;

#[test]
fn adding_twice_keeps_one_row_and_the_original_timestamp() {
    let mut repo = MemoryFavoriteRepository::new();
    repo.insert_product(2);
    let mut service = FavoriteService::new(repo);
    let first = service.add(AddFavoriteRequest { user_id: 1, product_id: 2 }).unwrap();
    assert_eq!(first.user_id, 1);
    assert_eq!(first.product_id, 2);
    assert_eq!(first.message, "Added to favorites");
    let second = service.add(AddFavoriteRequest { user_id: 1, product_id: 2 }).unwrap();
    assert_eq!(second.created_at, first.created_at);
    let rows = service.repo.favorites_vec();
    assert_eq!(rows.len(), 1);
    assert_eq!(rows[0].user_id, 1);
    assert_eq!(rows[0].product_id, 2);
    assert_eq!(rows[0].created_at, first.created_at);
}

#[test]
fn missing_product_fails_with_not_found_and_inserts_nothing() {
    let mut repo = MemoryFavoriteRepository::new();
    repo.insert_product(2);
    let mut service = FavoriteService::new(repo);
    let r = service.add(AddFavoriteRequest { user_id: 1, product_id: 99 });
    let e = r.err().unwrap();
    assert_eq!(e.code, ErrorCode::ResourceNotFound);
    assert_eq!(e.message, "Product not found");
    assert_eq!(service.repo.favorites_vec().len(), 0);
}

#[test]
fn different_pairs_get_separate_rows() {
    let mut repo = MemoryFavoriteRepository::new();
    repo.insert_product(2);
    repo.insert_product(3);
    let mut service = FavoriteService::new(repo);
    service.add(AddFavoriteRequest { user_id: 1, product_id: 2 }).unwrap();
    service.add(AddFavoriteRequest { user_id: 1, product_id: 3 }).unwrap();
    service.add(AddFavoriteRequest { user_id: 2, product_id: 2 }).unwrap();
    assert_eq!(service.repo.favorites_vec().len(), 3);
}
