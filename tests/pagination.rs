use avored_cms::document::Timestamp;
use avored_cms::page::NewPageModel;
use avored_cms::pagination::{total_pages, PagePagination, Pagination};

fn page(id: &str) -> NewPageModel {
    NewPageModel {
        id: id.to_string(),
        name: id.to_string(),
        identifier: id.to_string(),
        page_fields: vec![],
        created_at: Timestamp { secs: 0, nanos: 0 },
        updated_at: Timestamp { secs: 0, nanos: 0 },
        created_by: String::new(),
        updated_by: String::new(),
    }
}

#[test]
fn twenty_five_records_ten_per_page_fill_three_pages() {
    assert_eq!(total_pages(25, 10), 3);
}

#[test]
fn no_records_fill_no_pages() {
    assert_eq!(total_pages(0, 10), 0);
}

#[test]
fn exact_multiple_fills_no_extra_page() {
    assert_eq!(total_pages(20, 10), 2);
    assert_eq!(total_pages(1, 10), 1);
    assert_eq!(total_pages(u64::MAX, 1), u64::MAX);
    assert_eq!(total_pages(u64::MAX, 2), u64::MAX / 2 + 1);
}

#[test]
fn pagination_fields() {
    assert_eq!(
        Pagination::new(2, 10, 25),
        Pagination { current_page: 2, total_pages: 3, total_records: 25, per_page: 10 }
    );
}

#[test]
fn wrapping_keeps_data_order() {
    let data = vec![page("c"), page("a"), page("b")];
    let wrapped = PagePagination::new(data.clone(), 1, 3, 3);
    assert_eq!(wrapped.data, data);
    assert_eq!(wrapped.pagination.total_pages, 1);
}
