use congress::datetime::DateTime;
use congress::error::DecodeError;
use congress::parameters::Parameters;
use congress::sort::Sort;

fn full_parameters() -> Parameters {
    Parameters {
        limit: Some(5),
        offset: Some(2),
        from_date: DateTime::new(2020, 1, 31, 23, 59, 59),
        to_date: DateTime::new(2021, 12, 1, 0, 0, 0),
        sort: Some(Sort::UpdateDateAscending),
    }
}

#[test]
fn encode_full_set() {
    let p = full_parameters();
    assert_eq!(
        p.to_query_string(),
        "limit=5&offset=2&fromDateTime=2020-01-31T23%3A59%3A59Z&toDateTime=2021-12-01T00%3A00%3A00Z&sort=updateDate+asc"
    );
}

#[test]
fn encode_empty_set() {
    let p = Parameters::default();
    assert_eq!(p.to_query_string(), "");
}

#[test]
fn encode_skips_absent_fields() {
    let p = Parameters { limit: Some(20), ..Parameters::default() };
    assert_eq!(p.to_query_string(), "limit=20");
    let p = Parameters { sort: Some(Sort::UpdateDateDescending), ..Parameters::default() };
    assert_eq!(p.to_query_string(), "sort=updateDate+desc");
}

#[test]
fn round_trip_full_set() {
    let p = full_parameters();
    assert_eq!(Parameters::from_str(&p.to_query_string()), Ok(p));
}

#[test]
fn round_trip_each_field() {
    let cases = vec![
        Parameters { limit: Some(0), ..Parameters::default() },
        Parameters { limit: Some(u32::MAX), ..Parameters::default() },
        Parameters { offset: Some(250), ..Parameters::default() },
        Parameters { from_date: DateTime::new(2024, 2, 29, 12, 0, 0), ..Parameters::default() },
        Parameters { to_date: DateTime::new(9999, 12, 31, 23, 59, 59), ..Parameters::default() },
        Parameters { sort: Some(Sort::UpdateDateAscending), ..Parameters::default() },
        Parameters { sort: Some(Sort::UpdateDateDescending), ..Parameters::default() },
        Parameters::default(),
    ];
    for p in cases {
        assert_eq!(Parameters::from_str(&p.to_query_string()), Ok(p));
    }
}

#[test]
fn unknown_keys_are_ignored() {
    let decoded = Parameters::from_str("api_key=DEMO_KEY&format=json&limit=3").unwrap();
    assert_eq!(decoded, Parameters { limit: Some(3), ..Parameters::default() });
}

#[test]
fn later_duplicate_wins() {
    let decoded = Parameters::from_str("limit=3&limit=7").unwrap();
    assert_eq!(decoded.limit, Some(7));
}

#[test]
fn percent_escapes_decode() {
    let decoded = Parameters::from_str("fromDateTime=2020-01-01T00%3A00%3A00Z").unwrap();
    assert_eq!(decoded.from_date, DateTime::new(2020, 1, 1, 0, 0, 0));
}

#[test]
fn malformed_limit_is_rejected() {
    assert_eq!(Parameters::from_str("limit=abc"), Err(DecodeError::Limit));
    assert_eq!(Parameters::from_str("limit="), Err(DecodeError::Limit));
    assert_eq!(Parameters::from_str("limit=4294967296"), Err(DecodeError::Limit));
}

#[test]
fn malformed_offset_is_rejected() {
    assert_eq!(Parameters::from_str("offset=-1"), Err(DecodeError::Offset));
}

#[test]
fn malformed_dates_are_rejected() {
    assert_eq!(Parameters::from_str("fromDateTime=2020-13-01T00:00:00Z"), Err(DecodeError::FromDate));
    assert_eq!(Parameters::from_str("toDateTime=2020-02-30T00:00:00Z"), Err(DecodeError::ToDate));
    assert_eq!(Parameters::from_str("toDateTime=yesterday"), Err(DecodeError::ToDate));
}

#[test]
fn malformed_sort_is_rejected() {
    assert_eq!(Parameters::from_str("sort=updateDate"), Err(DecodeError::Sort));
}

#[test]
fn limit_parses_max_u32() {
    let decoded = Parameters::from_str("limit=4294967295").unwrap();
    assert_eq!(decoded.limit, Some(u32::MAX));
}

#[test]
fn encoding_agrees_with_form_urlencoding() {
    // an independent decoder reads back exactly the populated fields
    let p = full_parameters();
    let pairs: Vec<(String, String)> = serde_urlencoded::from_str(&p.to_query_string()).unwrap();
    assert_eq!(
        pairs,
        vec![
            ("limit".to_string(), "5".to_string()),
            ("offset".to_string(), "2".to_string()),
            ("fromDateTime".to_string(), "2020-01-31T23:59:59Z".to_string()),
            ("toDateTime".to_string(), "2021-12-01T00:00:00Z".to_string()),
            ("sort".to_string(), "updateDate asc".to_string()),
        ]
    );
}
