use contact_store::contact::{ContactCreateRequest, ContactFilter};
use contact_store::error::RepoError;
use contact_store::pool::Pool;
use contact_store::repo::Repository;

fn request(external_id: i32, phone_number: &str) -> ContactCreateRequest {
    ContactCreateRequest { external_id, phone_number: phone_number.to_string() }
}

fn filter_external_id(x: i32) -> ContactFilter {
    ContactFilter { external_id: Some(x), phone_number: None, limit: None, offset: None }
}

fn filter_phone(p: &str) -> ContactFilter {
    ContactFilter {
        external_id: None,
        phone_number: Some(p.to_string()),
        limit: None,
        offset: None,
    }
}

#[test]
fn create_returns_the_persisted_row() {
    let mut repo = Repository::new(4);
    let created = repo.create(&request(42, "+15551234567"), 1_700_000_000_000_000).unwrap();
    assert_eq!(created.external_id, 42);
    assert_eq!(created.phone_number, "+15551234567");
    assert_eq!(created.date_created, 1_700_000_000_000_000);
    assert_eq!(created.date_created, created.date_updated);
}

#[test]
fn created_ids_are_unique() {
    let mut repo = Repository::new(4);
    let mut ids = Vec::new();
    for i in 0..50 {
        let c = repo.create(&request(i, "+15550000000"), i as i64).unwrap();
        assert!(!ids.contains(&c.id), "identifier repeated");
        ids.push(c.id);
    }
}

#[test]
fn list_by_external_id_returns_exactly_the_created_contact() {
    let mut repo = Repository::new(4);
    let created = repo.create(&request(42, "+15551234567"), 10).unwrap();
    repo.create(&request(7, "+15559999999"), 11).unwrap();
    let rows = repo.list(&filter_external_id(42)).unwrap();
    assert_eq!(rows.len(), 1);
    assert_eq!(rows[0].id, created.id);
    assert_eq!(rows[0].external_id, 42);
    assert_eq!(rows[0].phone_number, "+15551234567");
}

#[test]
fn list_filters_phone_number_by_substring() {
    let mut repo = Repository::new(4);
    repo.create(&request(1, "+15551234567"), 1).unwrap();
    repo.create(&request(2, "+14440000000"), 2).unwrap();
    repo.create(&request(3, "055 found"), 3).unwrap();
    let rows = repo.list(&filter_phone("555")).unwrap();
    assert_eq!(rows.len(), 1);
    assert_eq!(rows[0].external_id, 1);
    for row in &rows {
        assert!(row.phone_number.contains("555"));
    }
}

#[test]
fn phone_number_matching_folds_ascii_case() {
    let mut repo = Repository::new(4);
    repo.create(&request(1, "CALL-ME-NOW"), 1).unwrap();
    let rows = repo.list(&filter_phone("call-me")).unwrap();
    assert_eq!(rows.len(), 1);
    assert_eq!(rows[0].external_id, 1);
}

#[test]
fn list_never_returns_more_than_the_effective_limit() {
    let mut repo = Repository::new(4);
    for i in 0..120 {
        repo.create(&request(i, "+15550000000"), i as i64).unwrap();
    }
    let default_page = repo
        .list(&ContactFilter { external_id: None, phone_number: None, limit: None, offset: None })
        .unwrap();
    assert_eq!(default_page.len(), 100);
    let huge_limit = repo
        .list(&ContactFilter {
            external_id: None,
            phone_number: None,
            limit: Some(1_000_000),
            offset: None,
        })
        .unwrap();
    assert_eq!(huge_limit.len(), 120);
}

#[test]
fn limit_zero_is_clamped_to_one() {
    let mut repo = Repository::new(4);
    repo.create(&request(1, "+15550000001"), 1).unwrap();
    repo.create(&request(2, "+15550000002"), 2).unwrap();
    let rows = repo
        .list(&ContactFilter {
            external_id: None,
            phone_number: None,
            limit: Some(0),
            offset: None,
        })
        .unwrap();
    assert_eq!(rows.len(), 1);
}

#[test]
fn negative_offset_is_clamped_to_zero() {
    let mut repo = Repository::new(4);
    repo.create(&request(1, "+15550000001"), 1).unwrap();
    repo.create(&request(2, "+15550000002"), 2).unwrap();
    let clamped = repo
        .list(&ContactFilter {
            external_id: None,
            phone_number: None,
            limit: None,
            offset: Some(-5),
        })
        .unwrap();
    let unshifted = repo
        .list(&ContactFilter { external_id: None, phone_number: None, limit: None, offset: None })
        .unwrap();
    assert_eq!(clamped.len(), unshifted.len());
    for (a, b) in clamped.iter().zip(unshifted.iter()) {
        assert_eq!(a.id, b.id);
    }
}

#[test]
fn offset_skips_rows_in_order() {
    let mut repo = Repository::new(4);
    for i in 0..5 {
        repo.create(&request(i, "+15550000000"), i as i64).unwrap();
    }
    let rows = repo
        .list(&ContactFilter {
            external_id: None,
            phone_number: None,
            limit: Some(2),
            offset: Some(3),
        })
        .unwrap();
    assert_eq!(rows.len(), 2);
    assert_eq!(rows[0].external_id, 3);
    assert_eq!(rows[1].external_id, 4);
}

#[test]
fn repeated_list_with_identical_filter_returns_the_same_rows() {
    let mut repo = Repository::new(4);
    for i in 0..10 {
        repo.create(&request(i % 3, "+15550000000"), i as i64).unwrap();
    }
    let filter = filter_external_id(1);
    let first = repo.list(&filter).unwrap();
    let second = repo.list(&filter).unwrap();
    assert_eq!(first.len(), second.len());
    for (a, b) in first.iter().zip(second.iter()) {
        assert_eq!(a.id, b.id);
        assert_eq!(a.external_id, b.external_id);
        assert_eq!(a.phone_number, b.phone_number);
        assert_eq!(a.date_created, b.date_created);
        assert_eq!(a.date_updated, b.date_updated);
    }
}

#[test]
fn duplicate_id_is_the_stores_uniqueness_rejection() {
    let mut repo = Repository::new(4);
    let first = repo.create_with_id(&request(1, "+15550000001"), 77, 1);
    assert!(first.is_ok());
    let second = repo.create_with_id(&request(2, "+15550000002"), 77, 2);
    assert_eq!(second.unwrap_err(), RepoError::QueryFailure);
    let rows = repo
        .list(&ContactFilter { external_id: None, phone_number: None, limit: None, offset: None })
        .unwrap();
    assert_eq!(rows.len(), 1);
}

#[test]
fn exhausted_pool_rejects_both_operations() {
    let mut repo = Repository::new(0);
    let created = repo.create(&request(1, "+15550000001"), 1);
    assert_eq!(created.unwrap_err(), RepoError::PoolExhausted);
    let listed = repo.list(&filter_external_id(1));
    assert_eq!(listed.unwrap_err(), RepoError::PoolExhausted);
}

#[test]
fn pool_checkouts_never_exceed_capacity() {
    let mut pool = Pool::new(2);
    let first = pool.acquire().unwrap();
    let second = pool.acquire().unwrap();
    assert_eq!(pool.checked_out, 2);
    let third = pool.acquire();
    assert_eq!(third.unwrap_err(), RepoError::PoolExhausted);
    assert_eq!(pool.checked_out, 2);
    pool.release(first);
    let again = pool.acquire().unwrap();
    assert_eq!(pool.checked_out, 2);
    pool.release(again);
    pool.release(second);
    assert_eq!(pool.checked_out, 0);
}

#[test]
fn operations_release_their_connection_on_every_path() {
    let mut repo = Repository::new(1);
    assert_eq!(repo.pool.checked_out, 0);
    repo.create(&request(1, "+15550000001"), 1).unwrap();
    assert_eq!(repo.pool.checked_out, 0);
    repo.create_with_id(&request(2, "+15550000002"), 1_000, 2).unwrap();
    assert_eq!(repo.pool.checked_out, 0);
    let collision = repo.create_with_id(&request(3, "+15550000003"), 1_000, 3);
    assert!(collision.is_err());
    assert_eq!(repo.pool.checked_out, 0);
    repo.list(&filter_external_id(1)).unwrap();
    assert_eq!(repo.pool.checked_out, 0);
}
