use canvas_api::extensions::account_domains::AccountDomain;
use canvas_api::request::Method;
use canvas_api::{AccountDomainsExt, CanvasClient};

fn test_client() -> CanvasClient {
    CanvasClient::builder("abc".to_string())
        .set_api_url("https://example.test/api")
        .build()
        .unwrap()
}

fn pair(key: &str, value: &str) -> (String, String) {
    (key.to_string(), value.to_string())
}

#[test]
fn domain_getters_return_the_fields() {
    let record = AccountDomain::new(
        "University of Utah".to_string(),
        "utah.edu".to_string(),
        Some("saml".to_string()),
    );
    assert_eq!(record.name(), "University of Utah");
    assert_eq!(record.domain(), "utah.edu");
    assert_eq!(record.authentication_provider(), Some(&"saml".to_string()));
    let record = AccountDomain::new("n".to_string(), "d".to_string(), None);
    assert_eq!(record.authentication_provider(), None);
}

#[test]
fn search_without_filters_has_no_query() {
    let client = test_client();
    let request = client.search_account_domains().search();
    assert_eq!(request.method(), Method::Get);
    assert_eq!(request.url(), "https://example.test/api/v1/accounts/search");
    assert_eq!(request.authorization(), "Bearer abc");
    assert_eq!(
        request.query_params(),
        &vec![("domain".to_string(), None), ("name".to_string(), None)]
    );
    assert!(request.query_pairs().is_empty());
    assert!(request.form_fields().is_none());
}

#[test]
fn search_by_name_sends_no_domain() {
    let client = test_client();
    let mut search = client.search_account_domains();
    search.set_name(Some("utah".to_string()));
    let request = search.search();
    assert_eq!(request.query_pairs(), vec![pair("name", "utah")]);
    assert!(request.query_pairs().iter().all(|(key, _)| key != "domain"));
}

#[test]
fn search_by_domain_sends_no_name() {
    let client = test_client();
    let mut search = client.search_account_domains();
    search.set_domain(Some("utah.edu".to_string()));
    let request = search.search();
    assert_eq!(request.query_pairs(), vec![pair("domain", "utah.edu")]);
    assert!(request.query_pairs().iter().all(|(key, _)| key != "name"));
}

#[test]
fn search_by_both_sends_domain_then_name() {
    let client = test_client();
    let mut search = client.search_account_domains();
    search.set_name(Some("utah".to_string()));
    search.set_domain(Some("utah.edu".to_string()));
    let request = search.search();
    assert_eq!(request.query_pairs(), vec![pair("domain", "utah.edu"), pair("name", "utah")]);
}

#[test]
fn filter_can_be_cleared_again() {
    let client = test_client();
    let mut search = client.search_account_domains();
    search.set_name(Some("utah".to_string()));
    search.set_domain(Some("utah.edu".to_string()));
    search.set_name(None);
    let request = search.search();
    assert_eq!(request.query_pairs(), vec![pair("domain", "utah.edu")]);
}

#[test]
fn short_filter_is_sent_as_it_is() {
    let client = test_client();
    let mut search = client.search_account_domains();
    search.set_name(Some("u".to_string()));
    search.set_domain(Some(String::new()));
    let request = search.search();
    assert_eq!(request.query_pairs(), vec![pair("domain", ""), pair("name", "u")]);
}
