use tag_nominatim::Error;
use tag_nominatim::IdentificationMethod;

#[test]
fn user_agent_header_pair() {
    let id = IdentificationMethod::from_user_agent("Example Application Name".to_string())
        .unwrap();
    assert_eq!(id.header(), "User-Agent");
    assert_eq!(id.value(), "Example Application Name");
}

#[test]
fn referer_header_pair() {
    let id = IdentificationMethod::from_referer("https://example.com/app".to_string()).unwrap();
    assert_eq!(id.header(), "Referer");
    assert_eq!(id.value(), "https://example.com/app");
}

#[test]
fn control_character_is_rejected() {
    let r = IdentificationMethod::from_user_agent("bad\u{0007}name".to_string());
    assert!(matches!(r, Err(Error::InvalidHeaderValue)));
}

#[test]
fn newline_is_rejected() {
    let r = IdentificationMethod::from_referer("https://example.com/\napp".to_string());
    assert!(matches!(r, Err(Error::InvalidHeaderValue)));
}

#[test]
fn tab_and_unicode_are_accepted() {
    let id = IdentificationMethod::from_user_agent("name\twith\ttabs \u{00e9}".to_string())
        .unwrap();
    assert_eq!(id.value(), "name\twith\ttabs \u{00e9}");
}
