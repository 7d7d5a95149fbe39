use tag_nominatim::Place;
use tag_nominatim::PlaceParts;
use tag_nominatim::Status;

fn empty_parts() -> PlaceParts {
    PlaceParts {
        place_id: None,
        licence: None,
        osm_type: None,
        osm_id: None,
        boundingbox: None,
        lat: None,
        lon: None,
        display_name: None,
        class: None,
        _type: None,
        importance: None,
        icon: None,
        address: None,
        extratags: None,
    }
}

#[test]
fn absent_fields_resolve_to_defaults() {
    let place = Place::from_parts(empty_parts());
    assert_eq!(place.place_id, 0);
    assert_eq!(place.licence, "");
    assert_eq!(place.osm_type, "");
    assert_eq!(place.osm_id, 0);
    assert!(place.boundingbox.is_empty());
    assert_eq!(place.lat, "");
    assert_eq!(place.lon, "");
    assert_eq!(place.display_name, "");
    assert!(place.class.is_none());
    assert!(place._type.is_none());
    assert!(place.importance.is_none());
    assert!(place.icon.is_none());
    assert!(place.address.is_none());
    assert!(place.extratags.is_none());
}

#[test]
fn present_fields_are_kept_verbatim() {
    let mut parts = empty_parts();
    parts.place_id = Some(127290);
    parts.osm_type = Some("relation".to_string());
    parts.osm_id = Some(146656);
    parts.lat = Some("40.689249".to_string());
    parts.lon = Some("-74.044500".to_string());
    parts.display_name = Some(
        "Statue of Liberty, Flagpole Plaza, Manhattan Community Board 1, Manhattan, \
         New York County, City of New York, New York, 10004, United States"
            .to_string(),
    );
    parts.class = Some("tourism".to_string());
    parts._type = Some("attraction".to_string());
    parts.importance = Some("0.75".to_string());
    let place = Place::from_parts(parts);
    assert_eq!(place.place_id, 127290);
    assert_eq!(place.osm_type, "relation");
    assert_eq!(place.osm_id, 146656);
    assert_eq!(place.lat, "40.689249");
    assert_eq!(place.lon, "-74.044500");
    assert_eq!(
        place.display_name,
        "Statue of Liberty, Flagpole Plaza, Manhattan Community Board 1, Manhattan, \
         New York County, City of New York, New York, 10004, United States"
    );
    assert_eq!(place.class.as_deref(), Some("tourism"));
    assert_eq!(place._type.as_deref(), Some("attraction"));
    assert_eq!(place.importance.as_deref(), Some("0.75"));
}

#[test]
fn lookup_fixture_display_name_is_kept() {
    let mut parts = empty_parts();
    parts.display_name = Some(
        "Manchester, Greater Manchester, England, United Kingdom".to_string(),
    );
    let place = Place::from_parts(parts);
    assert_eq!(
        place.display_name,
        "Manchester, Greater Manchester, England, United Kingdom"
    );
}

#[test]
fn bounding_box_is_kept_in_order() {
    let mut parts = empty_parts();
    parts.boundingbox = Some(vec![
        "40.6886".to_string(),
        "40.6899".to_string(),
        "-74.0451".to_string(),
        "-74.0439".to_string(),
    ]);
    let place = Place::from_parts(parts);
    assert_eq!(place.boundingbox.len(), 4);
    assert_eq!(place.boundingbox[0], "40.6886");
    assert_eq!(place.boundingbox[3], "-74.0439");
}

#[test]
fn healthy_status_record() {
    let status = Status {
        status: 0,
        message: "OK".to_string(),
        data_updated: None,
        software_version: None,
        database_version: None,
    };
    assert_eq!(status.status, 0);
    assert_eq!(status.message, "OK");
}
