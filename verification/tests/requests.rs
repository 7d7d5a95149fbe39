use std::time::Duration;

use tag_nominatim::Client;
use tag_nominatim::Error;
use tag_nominatim::IdentificationMethod;

fn client() -> Client {
    Client::new(
        IdentificationMethod::from_user_agent("Example Application Name".to_string()).unwrap(),
    )
}

#[test]
fn status_request_url() {
    let req = client().status_request().unwrap();
    assert_eq!(req.url, "https://nominatim.openstreetmap.org/status.php?format=json");
    assert_eq!(req.header_name, "User-Agent");
    assert_eq!(req.header_value, "Example Application Name");
    assert_eq!(req.timeout, Duration::from_secs(10));
}

#[test]
fn search_request_encodes_spaces_as_plus() {
    let req = client().search_request("statue of liberty");
    assert_eq!(
        req.url,
        "https://nominatim.openstreetmap.org/?addressdetails=1&extratags=1&q=statue+of+liberty&format=json"
    );
}

#[test]
fn search_request_without_spaces() {
    let req = client().search_request("manchester");
    assert_eq!(
        req.url,
        "https://nominatim.openstreetmap.org/?addressdetails=1&extratags=1&q=manchester&format=json"
    );
}

#[test]
fn reverse_request_without_zoom_omits_parameter() {
    let req = client().reverse_request("40.689249", "-74.044500", None).unwrap();
    assert_eq!(
        req.url,
        "https://nominatim.openstreetmap.org/reverse?addressdetails=1&extratags=1&format=json&lat=40.689249&lon=-74.044500"
    );
    assert!(!req.url.contains("zoom"));
}

#[test]
fn reverse_request_with_zoom_appends_parameter() {
    let req = client().reverse_request("40.689249", "-74.044500", Some(10)).unwrap();
    assert_eq!(
        req.url,
        "https://nominatim.openstreetmap.org/reverse?addressdetails=1&extratags=1&format=json&lat=40.689249&lon=-74.044500&zoom=10"
    );
}

#[test]
fn reverse_request_strips_spaces_from_coordinates() {
    let req = client().reverse_request(" 40.689249 ", " -74.044500", Some(3)).unwrap();
    assert_eq!(
        req.url,
        "https://nominatim.openstreetmap.org/reverse?addressdetails=1&extratags=1&format=json&lat=40.689249&lon=-74.044500&zoom=3"
    );
}

#[test]
fn lookup_request_joins_identifiers_with_commas() {
    let ids = vec!["R146656".to_string(), "W50637691".to_string()];
    let req = client().lookup_request(&ids).unwrap();
    assert_eq!(
        req.url,
        "https://nominatim.openstreetmap.org/lookup?osm_ids=R146656,W50637691&addressdetails=1&extratags=1&format=json"
    );
}

#[test]
fn lookup_request_single_identifier_has_no_comma() {
    let ids = vec!["N240109189".to_string()];
    let req = client().lookup_request(&ids).unwrap();
    assert_eq!(
        req.url,
        "https://nominatim.openstreetmap.org/lookup?osm_ids=N240109189&addressdetails=1&extratags=1&format=json"
    );
}

#[test]
fn set_base_url_replaces_the_base() {
    let mut c = client();
    c.set_base_url("https://example.com/nominatim/").unwrap();
    let req = c.status_request().unwrap();
    assert_eq!(req.url, "https://example.com/nominatim/status.php?format=json");
}

#[test]
fn set_base_url_malformed_fails_and_keeps_the_base() {
    let mut c = client();
    let r = c.set_base_url("not a url");
    assert!(matches!(r, Err(Error::UrlParse(_))));
    let req = c.status_request().unwrap();
    assert_eq!(req.url, "https://nominatim.openstreetmap.org/status.php?format=json");
}

#[test]
fn timeout_defaults_to_ten_seconds_and_can_be_replaced() {
    let mut c = client();
    assert_eq!(c.timeout(), Duration::from_secs(10));
    c.set_timeout(Duration::from_secs(3));
    assert_eq!(c.timeout(), Duration::from_secs(3));
    let req = c.status_request().unwrap();
    assert_eq!(req.timeout, Duration::from_secs(3));
}
