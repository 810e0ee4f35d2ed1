//! Pagination parameters and metadata.

use jobflow::pagination::{Paginated, PaginationMeta, PaginationParams, MAX_PER_PAGE};

#[test]
fn per_page_defaults_and_clamps() {
    let p = PaginationParams { page: None, per_page: None };
    assert_eq!(p.per_page(), 20);
    let p = PaginationParams { page: None, per_page: Some(0) };
    assert_eq!(p.per_page(), 1);
    let p = PaginationParams { page: None, per_page: Some(1000) };
    assert_eq!(p.per_page(), MAX_PER_PAGE);
    let p = PaginationParams { page: None, per_page: Some(55) };
    assert_eq!(p.per_page(), 55);
    assert_eq!(p.limit(), 55);
}

#[test]
fn page_defaults_to_one_and_offset_follows() {
    let p = PaginationParams { page: None, per_page: None };
    assert_eq!(p.page(), 1);
    assert_eq!(p.offset(), 0);
    let p = PaginationParams { page: Some(0), per_page: Some(10) };
    assert_eq!(p.page(), 1);
    assert_eq!(p.offset(), 0);
    let p = PaginationParams { page: Some(4), per_page: Some(10) };
    assert_eq!(p.offset(), 30);
}

#[test]
fn meta_counts_pages_with_a_remainder_page() {
    let p = PaginationParams { page: Some(1), per_page: Some(20) };
    let m = PaginationMeta::new(&p, 45);
    assert_eq!(m.page, 1);
    assert_eq!(m.per_page, 20);
    assert_eq!(m.total_items, 45);
    assert_eq!(m.total_pages, 3);
    assert!(m.has_next);
    assert!(!m.has_prev);

    let p = PaginationParams { page: Some(3), per_page: Some(20) };
    let m = PaginationMeta::new(&p, 45);
    assert!(!m.has_next);
    assert!(m.has_prev);

    let p = PaginationParams { page: Some(2), per_page: Some(20) };
    let m = PaginationMeta::new(&p, 40);
    assert_eq!(m.total_pages, 2);
    assert!(!m.has_next);
}

#[test]
fn meta_with_no_items_has_no_pages() {
    let p = PaginationParams { page: None, per_page: None };
    let m = PaginationMeta::new(&p, 0);
    assert_eq!(m.total_pages, 0);
    assert!(!m.has_next);
    assert!(!m.has_prev);
}

#[test]
fn paginated_wraps_data_with_meta() {
    let p = PaginationParams { page: Some(1), per_page: Some(2) };
    let wrapped = Paginated::new(vec![10i32, 20], &p, 5);
    assert_eq!(wrapped.data, vec![10, 20]);
    assert_eq!(wrapped.pagination.total_items, 5);
    assert_eq!(wrapped.pagination.total_pages, 3);
    assert!(wrapped.pagination.has_next);
}
