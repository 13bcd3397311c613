use ogcapi_jobs::error::JobError;
use ogcapi_jobs::paging::{single_value, Page, PageConfig, PageQuery};

fn pairs(items: &[(&str, &str)]) -> Vec<(String, String)> {
    items.iter().map(|(k, v)| (k.to_string(), v.to_string())).collect()
}

fn read(items: &[(&str, &str)]) -> Result<PageQuery, JobError> {
    PageQuery::from_pairs(&pairs(items))
}

#[test]
fn an_empty_query_names_nothing() {
    let q = read(&[]).unwrap();
    assert_eq!(q.limit, None);
    assert_eq!(q.offset, None);
    assert!(q.extra.is_empty());
}

#[test]
fn limit_and_offset_are_read_as_numbers() {
    let q = read(&[("limit", "10"), ("offset", "20")]).unwrap();
    assert_eq!(q.limit, Some(10));
    assert_eq!(q.offset, Some(20));
    assert!(q.extra.is_empty());
    let q = read(&[("offset", "0")]).unwrap();
    assert_eq!(q.limit, None);
    assert_eq!(q.offset, Some(0));
}

#[test]
fn other_parameters_are_kept_in_order() {
    let q = read(&[("status", "running"), ("limit", "5"), ("f", "json"), ("status", "failed")]).unwrap();
    assert_eq!(q.limit, Some(5));
    assert_eq!(q.extra, pairs(&[("status", "running"), ("f", "json"), ("status", "failed")]));
}

#[test]
fn a_limit_of_zero_is_refused() {
    assert_eq!(read(&[("limit", "0")]).err(), Some(JobError::ValidationError));
    assert_eq!(read(&[("limit", "000")]).err(), Some(JobError::ValidationError));
}

#[test]
fn non_numeric_paging_parameters_are_refused() {
    assert_eq!(read(&[("limit", "ten")]).err(), Some(JobError::ValidationError));
    assert_eq!(read(&[("limit", "")]).err(), Some(JobError::ValidationError));
    assert_eq!(read(&[("limit", "-1")]).err(), Some(JobError::ValidationError));
    assert_eq!(read(&[("offset", "-1")]).err(), Some(JobError::ValidationError));
    assert_eq!(read(&[("offset", "1.5")]).err(), Some(JobError::ValidationError));
    assert_eq!(read(&[("offset", "18446744073709551616")]).err(), Some(JobError::ValidationError));
}

#[test]
fn repeated_paging_parameters_are_refused() {
    assert_eq!(read(&[("limit", "1"), ("limit", "1")]).err(), Some(JobError::ValidationError));
    assert_eq!(read(&[("offset", "1"), ("x", "y"), ("offset", "2")]).err(), Some(JobError::ValidationError));
}

#[test]
fn names_are_case_sensitive() {
    let q = read(&[("Limit", "x"), ("OFFSET", "y")]).unwrap();
    assert_eq!(q.limit, None);
    assert_eq!(q.offset, None);
    assert_eq!(q.extra.len(), 2);
}

#[test]
fn a_query_is_written_limit_first_then_offset_then_the_rest() {
    let q = PageQuery { limit: Some(10), offset: Some(20), extra: pairs(&[("status", "running"), ("a", "b")]) };
    assert_eq!(q.to_pairs(), pairs(&[("limit", "10"), ("offset", "20"), ("status", "running"), ("a", "b")]));
    let q = PageQuery { limit: None, offset: Some(3), extra: vec![] };
    assert_eq!(q.to_pairs(), pairs(&[("offset", "3")]));
    let q = PageQuery { limit: None, offset: None, extra: vec![] };
    assert!(q.to_pairs().is_empty());
}

#[test]
fn a_written_query_reads_back() {
    let q = PageQuery { limit: Some(7), offset: Some(0), extra: pairs(&[("processID", "echo")]) };
    let back = PageQuery::from_pairs(&q.to_pairs()).unwrap();
    assert_eq!(back.limit, q.limit);
    assert_eq!(back.offset, q.offset);
    assert_eq!(back.extra, q.extra);
}

#[test]
fn with_offset_changes_the_offset_only() {
    let q = PageQuery { limit: Some(10), offset: None, extra: pairs(&[("a", "b")]) };
    let moved = q.with_offset(30);
    assert_eq!(moved.limit, Some(10));
    assert_eq!(moved.offset, Some(30));
    assert_eq!(moved.extra, q.extra);
}

#[test]
fn single_value_finds_one_value_or_none() {
    let p = pairs(&[("a", "1"), ("b", "2"), ("a", "3")]);
    assert_eq!(single_value(&p, "b"), Ok(Some("2".to_string())));
    assert_eq!(single_value(&p, "c"), Ok(None));
    assert_eq!(single_value(&p, "a"), Err(JobError::ValidationError));
}

#[test]
fn page_bounds_must_be_ordered_and_positive() {
    assert!(PageConfig::new(10, 100).is_some());
    assert!(PageConfig::new(1, 1).is_some());
    assert!(PageConfig::new(0, 100).is_none());
    assert!(PageConfig::new(0, 0).is_none());
    assert!(PageConfig::new(101, 100).is_none());
    let c = PageConfig::new(10, 100).unwrap();
    assert_eq!(c.default_limit(), 10);
    assert_eq!(c.max_limit(), 100);
}

#[test]
fn a_query_resolves_to_its_window() {
    let c = PageConfig::new(10, 100).unwrap();
    let q = PageQuery { limit: None, offset: None, extra: vec![] };
    assert_eq!(c.resolve(&q), Ok(Page { limit: 10, offset: 0 }));
    let q = PageQuery { limit: Some(25), offset: Some(50), extra: vec![] };
    assert_eq!(c.resolve(&q), Ok(Page { limit: 25, offset: 50 }));
    let q = PageQuery { limit: Some(100), offset: None, extra: vec![] };
    assert_eq!(c.resolve(&q), Ok(Page { limit: 100, offset: 0 }));
}

#[test]
fn a_page_size_beyond_the_maximum_is_cut_down() {
    let c = PageConfig::new(10, 100).unwrap();
    let q = PageQuery { limit: Some(101), offset: Some(5), extra: vec![] };
    assert_eq!(c.resolve(&q), Ok(Page { limit: 100, offset: 5 }));
    let q = PageQuery { limit: Some(u64::MAX), offset: Some(u64::MAX), extra: vec![] };
    assert_eq!(c.resolve(&q), Ok(Page { limit: 100, offset: u64::MAX }));
}

#[test]
fn resolving_refuses_a_page_size_of_zero() {
    let c = PageConfig::new(10, 100).unwrap();
    let q = PageQuery { limit: Some(0), offset: None, extra: vec![] };
    assert_eq!(c.resolve(&q), Err(JobError::ValidationError));
}

#[test]
fn prev_exists_iff_offset_is_positive() {
    assert_eq!(Page { limit: 10, offset: 0 }.prev_offset(), None);
    assert_eq!(Page { limit: 10, offset: 1 }.prev_offset(), Some(0));
    assert_eq!(Page { limit: 10, offset: 9 }.prev_offset(), Some(0));
    assert_eq!(Page { limit: 10, offset: 10 }.prev_offset(), Some(0));
    assert_eq!(Page { limit: 10, offset: 11 }.prev_offset(), Some(1));
    assert_eq!(Page { limit: 10, offset: 35 }.prev_offset(), Some(25));
}

#[test]
fn next_exists_iff_items_lie_beyond_the_window() {
    assert_eq!(Page { limit: 10, offset: 0 }.next_offset(25), Some(10));
    assert_eq!(Page { limit: 10, offset: 10 }.next_offset(25), Some(20));
    assert_eq!(Page { limit: 10, offset: 14 }.next_offset(25), Some(24));
    assert_eq!(Page { limit: 10, offset: 15 }.next_offset(25), None);
    assert_eq!(Page { limit: 10, offset: 20 }.next_offset(25), None);
    assert_eq!(Page { limit: 10, offset: 30 }.next_offset(25), None);
    assert_eq!(Page { limit: 10, offset: 0 }.next_offset(0), None);
    assert_eq!(Page { limit: 10, offset: 0 }.next_offset(10), None);
    assert_eq!(Page { limit: 10, offset: 0 }.next_offset(11), Some(10));
}

#[test]
fn next_does_not_overflow() {
    assert_eq!(Page { limit: u64::MAX, offset: u64::MAX }.next_offset(u64::MAX), None);
    assert_eq!(Page { limit: 1, offset: u64::MAX }.next_offset(u64::MAX), None);
    assert_eq!(Page { limit: 1, offset: u64::MAX - 2 }.next_offset(u64::MAX), Some(u64::MAX - 1));
}

#[test]
fn next_then_prev_returns_to_the_offset() {
    for total in [0u64, 1, 9, 10, 11, 25, 100] {
        for limit in [1u64, 2, 10, 33] {
            for offset in 0..40u64 {
                let page = Page { limit, offset };
                if let Some(n) = page.next_offset(total) {
                    let next = Page { limit, offset: n };
                    assert_eq!(next.prev_offset(), Some(offset));
                }
            }
        }
    }
}
