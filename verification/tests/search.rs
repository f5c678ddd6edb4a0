use api_core::search::{into_search_type, Total};

struct RawRow {
    value: u32,
    full_count: usize,
}

impl Total for RawRow {
    fn spec_total(&self) -> usize {
        self.full_count
    }

    fn total(&self) -> usize {
        self.full_count
    }
}

#[test]
fn successfully_return_articles() {
    let rows = vec![
        RawRow { value: 10, full_count: 3 },
        RawRow { value: 20, full_count: 3 },
        RawRow { value: 30, full_count: 3 },
    ];
    let page = into_search_type(rows);
    assert_eq!(page.total, 3);
    assert_eq!(page.results.len(), 3);
    assert_eq!(page.results[0].value, 10);
    assert_eq!(page.results[2].value, 30);
}

#[test]
fn empty_result_has_zero_total() {
    let rows: Vec<RawRow> = vec![];
    let page = into_search_type(rows);
    assert_eq!(page.total, 0);
    assert!(page.results.is_empty());
}

#[test]
fn total_comes_from_the_rows() {
    // A page smaller than the full count still reports the full count.
    let rows = vec![RawRow { value: 1, full_count: 42 }];
    let page = into_search_type(rows);
    assert_eq!(page.total, 42);
    assert_eq!(page.results.len(), 1);
}
