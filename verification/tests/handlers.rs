use congress::bill_type::BillType;
use congress::amendment_type::AmendmentType;
use congress::amendment::AmendmentHandler;
use congress::amendments::AmendmentsHandler;
use congress::datetime::DateTime;
use congress::parameters::{PageParameters, Parameters, SortParameters};
use congress::sort::Sort;
use congress::{Client, ClientBuilder};

fn client() -> Client {
    ClientBuilder::new("DEMO_KEY".to_string()).build().unwrap()
}

#[test]
fn bills_listing_paths() {
    let c = client();
    assert_eq!(c.bills().request().path, "/v3/bill");
    assert_eq!(c.bills().congress(117).request().path, "/v3/bill/117");
    assert_eq!(
        c.bills().congress(117).bill_type(BillType::House).request().path,
        "/v3/bill/117/hr"
    );
}

#[test]
fn bills_listing_accumulates_parameters() {
    // the end-to-end request shape: congress 118, five items, ascending
    let c = client();
    let handler = c.bills().congress(118).limit(5).sort(Sort::UpdateDateAscending);
    let req = handler.request();
    assert_eq!(req.path, "/v3/bill/118");
    assert_eq!(req.parameters.limit, Some(5));
    assert_eq!(req.parameters.sort, Some(Sort::UpdateDateAscending));
    assert_eq!(
        c.query_string(Some(&req.parameters)),
        "api_key=DEMO_KEY&format=json&limit=5&sort=updateDate+asc"
    );
}

#[test]
fn bills_listing_takes_dates_and_offset() {
    let c = client();
    let to = DateTime::new(2024, 6, 30, 12, 0, 0).unwrap();
    let handler = c.bills().limit(5).offset(2).to_date(to).sort(Sort::UpdateDateAscending);
    let req = handler.request();
    assert_eq!(req.parameters.offset, Some(2));
    assert_eq!(req.parameters.to_date, Some(to));
}

#[test]
fn single_bill_path() {
    let c = client();
    assert_eq!(
        c.bill(118, BillType::House, 1234).request().path,
        "/v3/bill/118/hr/1234"
    );
}

#[test]
fn bill_subresource_paths() {
    let c = client();
    let b = c.bill(118, BillType::SenateJointResolution, 7);
    assert_eq!(b.actions().request().path, "/v3/bill/118/sjres/7/actions");
    assert_eq!(b.amendments().request().path, "/v3/bill/118/sjres/7/amendments");
    assert_eq!(b.committees().request().path, "/v3/bill/118/sjres/7/committees");
    assert_eq!(b.cosponsors().request().path, "/v3/bill/118/sjres/7/cosponsors");
    assert_eq!(b.related_bills().request().path, "/v3/bill/118/sjres/7/relatedbills");
    assert_eq!(b.subjects().request().path, "/v3/bill/118/sjres/7/subjects");
    assert_eq!(b.summaries().request().path, "/v3/bill/118/sjres/7/summaries");
    assert_eq!(b.text().request().path, "/v3/bill/118/sjres/7/text");
    assert_eq!(b.titles().request().path, "/v3/bill/118/sjres/7/titles");
}

#[test]
fn subresource_handlers_take_page_parameters() {
    let c = client();
    let req = c.bill(118, BillType::House, 1).actions().limit(2).request();
    assert_eq!(req.path, "/v3/bill/118/hr/1/actions");
    assert_eq!(req.parameters.limit, Some(2));
}

#[test]
fn amendment_paths() {
    let a = AmendmentHandler::new(117, AmendmentType::Senate, 2137);
    assert_eq!(a.request().path, "/v3/amendment/117/samdt/2137");
    assert_eq!(a.actions().request().path, "/v3/amendment/117/samdt/2137/actions");
    assert_eq!(a.cosponsors().request().path, "/v3/amendment/117/samdt/2137/cosponsors");
    assert_eq!(a.amendments().request().path, "/v3/amendment/117/samdt/2137/amendments");
}

#[test]
fn amendments_listing_paths() {
    assert_eq!(AmendmentsHandler::new().request().path, "/v3/amendment");
    assert_eq!(AmendmentsHandler::new().congress(117).request().path, "/v3/amendment/117");
    assert_eq!(
        AmendmentsHandler::new().congress(117).amendment_type(AmendmentType::House).request().path,
        "/v3/amendment/117/hamdt"
    );
}

#[test]
fn query_string_keeps_fixed_entries_first() {
    let c = client();
    assert_eq!(c.query_string(None), "api_key=DEMO_KEY&format=json");
    assert_eq!(
        c.query_string(Some(&Parameters::default())),
        "api_key=DEMO_KEY&format=json"
    );
}

#[test]
fn query_string_escapes_the_api_key() {
    let c = ClientBuilder::new("a key&odd=chars".to_string()).build().unwrap();
    assert_eq!(c.query_string(None), "api_key=a+key%26odd%3Dchars&format=json");
}

#[test]
fn builder_defaults() {
    let b = ClientBuilder::new("k".to_string());
    assert_eq!(b.base_url, "https://api.congress.gov/");
    assert_eq!(b.user_agent, "congress/0.1.0");
    let c = b.build().unwrap();
    assert_eq!(c.base_url, "https://api.congress.gov/");
}

#[test]
fn builder_validates_the_base_url() {
    let b = ClientBuilder::new("k".to_string());
    let ok = b.base_url("https://example.org/api/").unwrap();
    assert_eq!(ok.base_url, "https://example.org/api/");
    let b = ClientBuilder::new("k".to_string());
    assert!(matches!(
        b.base_url("not a url"),
        Err(congress::error::Error::InvalidBaseUrlError { .. })
    ));
}

#[test]
fn builder_rejects_an_empty_api_key() {
    let b = ClientBuilder::new(String::new());
    assert!(matches!(
        b.build(),
        Err(congress::error::Error::ClientBuildError { .. })
    ));
}

#[test]
fn request_urls_resolve_against_the_base() {
    let c = client();
    assert_eq!(
        c.request_url("/v3/bill/118/hr").unwrap(),
        "https://api.congress.gov/v3/bill/118/hr"
    );
    let rooted = ClientBuilder::new("k".to_string())
        .base_url("https://example.org/upstream/")
        .unwrap()
        .build()
        .unwrap();
    assert_eq!(rooted.request_url("v3/bill").unwrap(), "https://example.org/upstream/v3/bill");
}

#[test]
fn error_classes_describe_themselves() {
    let e = congress::error::Error::Congress {
        source: congress::error::CongressError { error: "rate limited".to_string() },
    };
    assert_eq!(e.describe(), "congress API error");
    if let congress::error::Error::Congress { source } = e {
        assert_eq!(source.message(), "rate limited");
    }
}

#[test]
fn builder_takes_a_user_agent() {
    let c = ClientBuilder::new("k".to_string())
        .user_agent("example/9.9".to_string())
        .build()
        .unwrap();
    assert_eq!(c.user_agent, "example/9.9");
}
