use paginated_items::decimal::{decimal_string, parse_u32};
use paginated_items::error::ApiError;
use paginated_items::pagination::{
    total_pages, Pagination, PaginationParams, ValidatedPagination, DEFAULT_PAGE,
    DEFAULT_PAGE_SIZE, MAX_PAGE_SIZE,
};

fn params(page: Option<&str>, per_page: Option<&str>) -> PaginationParams {
    PaginationParams {
        page: page.map(|s| s.to_string()),
        per_page: per_page.map(|s| s.to_string()),
    }
}

fn validation_message(r: Result<(u32, u32), ApiError>) -> String {
    match r {
        Err(ApiError::ValidationError(m)) => m,
        other => panic!("expected a validation error, got {:?}", other),
    }
}

#[test]
fn parse_accepts_plain_and_plus_signed_digits() {
    assert_eq!(parse_u32("42"), Some(42));
    assert_eq!(parse_u32("+7"), Some(7));
    assert_eq!(parse_u32("007"), Some(7));
    assert_eq!(parse_u32("0"), Some(0));
    assert_eq!(parse_u32("4294967295"), Some(u32::MAX));
}

#[test]
fn parse_rejects_malformed_text() {
    assert_eq!(parse_u32(""), None);
    assert_eq!(parse_u32("+"), None);
    assert_eq!(parse_u32("-1"), None);
    assert_eq!(parse_u32("-0"), None);
    assert_eq!(parse_u32(" 1"), None);
    assert_eq!(parse_u32("12a"), None);
    assert_eq!(parse_u32("1.5"), None);
    assert_eq!(parse_u32("4294967296"), None);
    assert_eq!(parse_u32("99999999999"), None);
}

#[test]
fn parse_agrees_with_std() {
    for s in ["", "+", "-", "+0", "12", "00012", "4294967295", "4294967296", "9x", "+-1", "１"] {
        assert_eq!(parse_u32(s), s.parse::<u32>().ok(), "on {:?}", s);
    }
}

#[test]
fn decimal_text_of_numbers() {
    assert_eq!(decimal_string(0), "0");
    assert_eq!(decimal_string(7), "7");
    assert_eq!(decimal_string(100), "100");
    assert_eq!(decimal_string(u32::MAX), "4294967295");
    for n in [0u32, 1, 9, 10, 99, 1000, 65535, 123456789, u32::MAX] {
        assert_eq!(decimal_string(n), n.to_string());
        assert_eq!(parse_u32(&decimal_string(n)), Some(n));
    }
}

#[test]
fn absent_parameters_take_the_defaults() {
    assert_eq!(params(None, None).validate(), Ok((1, 10)));
    assert_eq!(params(Some("4"), None).validate(), Ok((4, 10)));
    assert_eq!(params(None, Some("25")).validate(), Ok((1, 25)));
    assert_eq!((DEFAULT_PAGE, DEFAULT_PAGE_SIZE), (1, 10));
}

#[test]
fn default_params_are_written_out_and_valid() {
    let d = PaginationParams::default();
    assert_eq!(d.page.as_deref(), Some("1"));
    assert_eq!(d.per_page.as_deref(), Some("10"));
    assert_eq!(d.validate(), Ok((1, 10)));
}

#[test]
fn page_zero_is_refused() {
    let m = validation_message(params(Some("0"), None).validate());
    assert_eq!(m, "Page number must be greater than 0");
    assert!(m.contains("greater than 0"));
}

#[test]
fn per_page_zero_is_refused() {
    let m = validation_message(params(Some("2"), Some("0")).validate());
    assert_eq!(m, "Items per page must be greater than 0");
}

#[test]
fn oversized_page_is_refused_naming_the_maximum() {
    for n in ["101", "500", "4294967295"] {
        let m = validation_message(params(None, Some(n)).validate());
        assert_eq!(m, "Items per page cannot exceed 100");
        assert!(m.contains("100"));
    }
    assert_eq!(params(None, Some("100")).validate(), Ok((1, MAX_PAGE_SIZE)));
}

#[test]
fn malformed_numbers_are_refused() {
    let m = validation_message(params(Some("abc"), None).validate());
    assert_eq!(m, "Page number must be a valid positive number");
    let m = validation_message(params(Some("-1"), None).validate());
    assert_eq!(m, "Page number must be a valid positive number");
    let m = validation_message(params(None, Some("ten")).validate());
    assert_eq!(m, "Items per page must be a valid positive number");
    let m = validation_message(params(Some("99999999999"), None).validate());
    assert_eq!(m, "Page number must be a valid positive number");
}

#[test]
fn checks_run_in_order() {
    // both malformed: the page is reported
    let m = validation_message(params(Some("x"), Some("y")).validate());
    assert_eq!(m, "Page number must be a valid positive number");
    // both fields are read before any bound is checked
    let m = validation_message(params(Some("0"), Some("y")).validate());
    assert_eq!(m, "Items per page must be a valid positive number");
    // page bound before page size bounds
    let m = validation_message(params(Some("0"), Some("0")).validate());
    assert_eq!(m, "Page number must be greater than 0");
    let m = validation_message(params(Some("0"), Some("500")).validate());
    assert_eq!(m, "Page number must be greater than 0");
    let m = validation_message(params(Some("3"), Some("0")).validate());
    assert_eq!(m, "Items per page must be greater than 0");
}

#[test]
fn validation_is_idempotent() {
    for (p, n) in [(None, None), (Some("0"), None), (Some("+3"), Some("050")), (None, Some("500"))] {
        let raw = params(p, n);
        assert_eq!(raw.validate(), raw.validate());
        assert_eq!(raw.clone().validate(), raw.validate());
        if let Ok((page, per_page)) = raw.validate() {
            let again = PaginationParams::from_values(page, per_page);
            assert_eq!(again.validate(), Ok((page, per_page)));
        }
    }
    let again = PaginationParams::from_values(3, 50);
    assert_eq!(again.page.as_deref(), Some("3"));
    assert_eq!(again.per_page.as_deref(), Some("50"));
}

#[test]
fn resolve_gives_offset_and_limit() {
    let v = ValidatedPagination::from_params(&params(Some("3"), Some("10"))).unwrap();
    assert_eq!((v.page(), v.per_page()), (3, 10));
    let q = v.resolve();
    assert_eq!((q.limit, q.offset), (10, 20));
    let q = ValidatedPagination::from_params(&params(None, None)).unwrap().resolve();
    assert_eq!((q.limit, q.offset), (10, 0));
    let q = ValidatedPagination::from_params(&params(Some("4294967295"), Some("100")))
        .unwrap()
        .resolve();
    assert_eq!((q.limit, q.offset), (100, 4294967294u64 * 100));
}

#[test]
fn validated_pagination_refuses_bad_input() {
    match ValidatedPagination::from_params(&params(Some("0"), None)) {
        Err(ApiError::ValidationError(m)) => assert_eq!(m, "Page number must be greater than 0"),
        other => panic!("unexpected {:?}", other),
    }
}

#[test]
fn total_pages_is_the_ceiling() {
    assert_eq!(total_pages(25, 10), 3);
    assert_eq!(total_pages(0, 10), 0);
    assert_eq!(total_pages(30, 10), 3);
    assert_eq!(total_pages(31, 10), 4);
    assert_eq!(total_pages(1, 100), 1);
    assert_eq!(total_pages(100, 100), 1);
    assert_eq!(total_pages(-5, 10), 0);
    assert_eq!(total_pages(i64::MAX, 1), u32::MAX);
    assert_eq!(total_pages(429496729500, 100), u32::MAX);
    assert_eq!(total_pages(429496729401, 100), u32::MAX);
    assert_eq!(total_pages(429496729400, 100), 4294967294);
}

#[test]
fn meta_describes_the_page() {
    let v = ValidatedPagination::from_params(&params(Some("2"), Some("10"))).unwrap();
    let m = v.meta(25);
    assert_eq!((m.current_page, m.per_page, m.total_items, m.total_pages), (2, 10, 25, 3));
}

#[test]
fn pagination_falls_back_to_defaults() {
    let p = Pagination::from_found(None);
    assert_eq!(p.0, PaginationParams::default());
    let found = params(Some("5"), Some("20"));
    assert_eq!(Pagination::from_found(Some(found.clone())).0, found);
}
