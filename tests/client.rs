use std::time::Duration;

use anitya::v2::{NewPackage, NewPackageRequest, PackageQuery, VersionQuery, Versions};
use anitya::client::sensitive_header;
use anitya::{AnityaClient, ClientBuildError, ClientBuilder, PaginatedRequest, QueryError, RequestMethod};

fn new_package_request() -> NewPackageRequest {
    NewPackageRequest::new(
        String::from("Fedora"),
        String::from("python-requests"),
        String::from("pypi"),
        String::from("requests"),
    )
}

#[test]
fn write_without_token_is_refused_before_sending() {
    let client = ClientBuilder::new("https://release-monitoring.org").build().unwrap();
    let request = new_package_request();
    let result = client.prepare::<_, NewPackage, NewPackage>(&request);
    assert!(matches!(result, Err(QueryError::Unauthorized)));
}

#[test]
fn write_with_token_carries_authorization_and_body() {
    let client = ClientBuilder::new("https://release-monitoring.org")
        .with_token("SECRET-REDACTED")
        .build()
        .unwrap();
    let request = new_package_request();
    let call = client.prepare::<_, NewPackage, NewPackage>(&request).ok().unwrap();
    assert_eq!(call.method, RequestMethod::POST);
    assert_eq!(call.url.as_str(), "https://release-monitoring.org/api/v2/packages/");
    assert_eq!(call.authorization.as_deref(), Some("token SECRET-REDACTED"));
    let header = sensitive_header(call.authorization.as_deref().unwrap()).unwrap();
    assert!(header.is_sensitive());
    assert_eq!(header.to_str().unwrap(), "token SECRET-REDACTED");
    assert_eq!(
        call.body.as_deref(),
        Some("{\n  \"distribution\": \"Fedora\",\n  \"package_name\": \"python-requests\",\n  \"project_name\": \"requests\",\n  \"project_ecosystem\": \"pypi\"\n}")
    );
}

#[test]
fn read_needs_no_token_and_has_no_body() {
    let client = ClientBuilder::new("https://release-monitoring.org").build().unwrap();
    let request = VersionQuery::new(7635);
    let call = client.prepare::<_, Versions, Versions>(&request).ok().unwrap();
    assert_eq!(call.method, RequestMethod::GET);
    assert_eq!(
        call.url.as_str(),
        "https://release-monitoring.org/api/v2/versions/?project_id=7635"
    );
    assert!(call.body.is_none());
    assert!(call.authorization.is_none());
}

#[test]
fn page_request_resolves_against_base_url() {
    let client = ClientBuilder::new("https://release-monitoring.org/").build().unwrap();
    let query = PackageQuery::new().name(String::from("requests"));
    let request = query.page_request(3);
    let call = client.prepare(&request).ok().unwrap();
    assert_eq!(
        call.url.as_str(),
        "https://release-monitoring.org/api/v2/packages/?name=requests&page=3&items_per_page=25"
    );
}

#[test]
fn dispatch_keeps_the_given_url() {
    let client = ClientBuilder::new("https://release-monitoring.org").build().unwrap();
    let request = VersionQuery::new(1);
    let url = String::from("https://example.org/elsewhere");
    let call = client.dispatch::<_, Versions, Versions>(&request, url).ok().unwrap();
    assert_eq!(call.url.as_str(), "https://example.org/elsewhere");
    let refused = client.dispatch::<_, NewPackage, NewPackage>(
        &new_package_request(),
        String::from("https://example.org/"),
    );
    assert!(matches!(refused, Err(QueryError::Unauthorized)));
}

#[test]
fn invalid_base_url_is_refused() {
    let result = ClientBuilder::new("not a url").build();
    assert!(matches!(result, Err(ClientBuildError::InvalidURL { .. })));
    let relative = ClientBuilder::new("/api/v2").build();
    assert!(matches!(relative, Err(ClientBuildError::InvalidURL { .. })));
}

#[test]
fn invalid_token_is_refused() {
    let result = ClientBuilder::new("https://release-monitoring.org").with_token("abc\ndef").build();
    assert!(matches!(result, Err(ClientBuildError::InvalidToken { .. })));
    let del = ClientBuilder::new("https://release-monitoring.org").with_token("abc\u{7f}").build();
    assert!(matches!(del, Err(ClientBuildError::InvalidToken { .. })));
    let tab = ClientBuilder::new("https://release-monitoring.org").with_token("abc\tdef").build();
    assert!(tab.is_ok());
}

#[test]
fn delay_is_kept() {
    let client = ClientBuilder::new("https://release-monitoring.org")
        .with_delay(Duration::from_millis(1000))
        .build()
        .unwrap();
    assert_eq!(client.delay(), Some(Duration::from_millis(1000)));
    let plain = ClientBuilder::new("https://release-monitoring.org").build().unwrap();
    assert_eq!(plain.delay(), None);
}

#[test]
fn rejected_status_keeps_code_and_body() {
    let result = AnityaClient::accept_status(404, String::from("not found"));
    match result {
        Err(QueryError::Request { code, error }) => {
            assert_eq!(code, 404);
            assert_eq!(error, "not found");
        },
        _ => panic!("expected a rejected request"),
    }
    assert!(matches!(AnityaClient::accept_status(500, String::new()), Err(QueryError::Request { code: 500, .. })));
    assert!(matches!(AnityaClient::accept_status(199, String::new()), Err(QueryError::Request { code: 199, .. })));
    assert!(matches!(AnityaClient::accept_status(300, String::new()), Err(QueryError::Request { code: 300, .. })));
}

#[test]
fn success_status_keeps_body() {
    assert_eq!(AnityaClient::accept_status(200, String::from("{}")).ok(), Some(String::from("{}")));
    assert_eq!(AnityaClient::accept_status(299, String::from("x")).ok(), Some(String::from("x")));
    assert_eq!(AnityaClient::accept_status(201, String::new()).ok(), Some(String::new()));
}

#[test]
fn malformed_body_is_a_deserialization_error() {
    let request = VersionQuery::new(7635);
    let parsed: Result<Versions, serde_json::Error> = serde_json::from_str::<serde_json::Value>("{\"latest_version\": ")
        .map(|_| unreachable!());
    let result = AnityaClient::complete(&request, parsed);
    assert!(matches!(result, Err(QueryError::DeSerialization { .. })));
}

#[test]
fn parsed_body_is_projected() {
    let request = VersionQuery::new(7635);
    let versions = Versions {
        latest_version: String::from("2.0"),
        versions: vec![String::from("2.0"), String::from("1.0")],
        stable_versions: vec![String::from("2.0")],
    };
    let result = AnityaClient::complete(&request, Ok(versions.clone()));
    assert_eq!(result.ok(), Some(versions));
}

#[test]
fn path_that_cannot_be_joined_is_an_invalid_url() {
    // a `mailto:` URL parses, but nothing can be resolved against it
    let client = ClientBuilder::new("mailto:someone@example.org").build().unwrap();
    let request = VersionQuery::new(7635);
    let result = client.prepare::<_, Versions, Versions>(&request);
    assert!(matches!(result, Err(QueryError::InvalidURL { .. })));
}

#[test]
fn get_never_carries_authorization() {
    let client = ClientBuilder::new("https://release-monitoring.org")
        .with_token("SECRET-REDACTED")
        .build()
        .unwrap();
    let call = client.prepare::<_, Versions, Versions>(&VersionQuery::new(1)).ok().unwrap();
    assert!(call.authorization.is_none());
}

#[test]
fn sensitive_header_checks_its_text() {
    assert!(sensitive_header("token abc").unwrap().is_sensitive());
    assert!(sensitive_header("token \r\n").is_err());
}

#[test]
fn malformed_page_is_a_deserialization_error() {
    let parsed: Result<u32, serde_json::Error> = serde_json::from_str("{not json");
    assert!(matches!(AnityaClient::parsed_page(parsed), Err(QueryError::DeSerialization { .. })));
    assert_eq!(AnityaClient::parsed_page(serde_json::from_str::<u32>("7")).ok(), Some(7));
}
