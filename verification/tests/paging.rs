use congress::bills::BillsResponse;
use congress::error::{DecodeError, Error};
use congress::pagination::{PagedResponse, Pagination};
use congress::request::page_request;
use congress::sort::Sort;
use congress::ClientBuilder;

fn response(prev: Option<&str>, next: Option<&str>) -> BillsResponse {
    BillsResponse {
        bills: vec![],
        pagination: Pagination {
            count: 250,
            prev: prev.map(|s| s.to_string()),
            next: next.map(|s| s.to_string()),
        },
    }
}

#[test]
fn next_link_is_followed() {
    // exercises the url crate behind the wrappers: the path and the query
    // are taken from the link itself
    let r = response(None, Some("https://api.congress.gov/v3/bill?offset=20&limit=20"));
    let c = ClientBuilder::new("k".to_string()).build().unwrap();
    let req = c.next(&r).unwrap().unwrap();
    assert_eq!(req.path, "/v3/bill");
    assert_eq!(req.parameters.offset, Some(20));
    assert_eq!(req.parameters.limit, Some(20));
}

#[test]
fn absent_next_ends_the_walk() {
    let r = response(Some("https://api.congress.gov/v3/bill?offset=0&limit=20"), None);
    let c = ClientBuilder::new("k".to_string()).build().unwrap();
    assert_eq!(c.next(&r), Ok(None));
}

#[test]
fn first_page_has_no_previous() {
    let r = response(None, Some("https://api.congress.gov/v3/bill?offset=20&limit=20"));
    let c = ClientBuilder::new("k".to_string()).build().unwrap();
    assert_eq!(c.previous(&r), Ok(None));
}

#[test]
fn refetching_is_idempotent() {
    // two derivations from the same response agree, and the response is
    // not changed by either
    let r = response(None, Some("https://api.congress.gov/v3/bill?offset=40&limit=20&sort=updateDate+asc"));
    let c = ClientBuilder::new("k".to_string()).build().unwrap();
    let first = c.next(&r);
    let second = c.next(&r);
    assert_eq!(first, second);
    let req = first.unwrap().unwrap();
    assert_eq!(req.parameters.sort, Some(Sort::UpdateDateAscending));
    assert_eq!(
        r.get_pagination().next.as_deref(),
        Some("https://api.congress.gov/v3/bill?offset=40&limit=20&sort=updateDate+asc")
    );
}

#[test]
fn link_without_query_is_a_parameter_error() {
    // a server-issued pagination link is expected to carry its query;
    // one without any is a typed error, not a blind refetch
    let r = page_request(&Some("https://api.congress.gov/v3/bill".to_string()));
    assert_eq!(r, Err(Error::Parameter { source: DecodeError::MissingQuery }));
}

#[test]
fn link_with_empty_query_yields_empty_parameters() {
    let req = page_request(&Some("https://api.congress.gov/v3/bill?".to_string()))
        .unwrap()
        .unwrap();
    assert_eq!(req.path, "/v3/bill");
    assert_eq!(req.parameters, congress::parameters::Parameters::default());
}

#[test]
fn unparseable_link_is_an_invalid_url() {
    let r = page_request(&Some("not a url".to_string()));
    assert!(matches!(r, Err(Error::InvalidUrl { .. })));
}

#[test]
fn malformed_link_query_is_a_parameter_error() {
    let r = page_request(&Some("https://api.congress.gov/v3/bill?limit=abc".to_string()));
    assert_eq!(r, Err(Error::Parameter { source: DecodeError::Limit }));
}

#[test]
fn no_link_is_no_page() {
    assert_eq!(page_request(&None), Ok(None));
}
