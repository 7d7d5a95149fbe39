use vstd::prelude::*;

verus! {

/// A snapshot of the Nominatim server's health.
#[derive(Debug, Clone)]
pub struct Status {
    pub status: usize,
    pub message: String,
    pub data_updated: Option<String>,
    pub software_version: Option<String>,
    pub database_version: Option<String>,
}

/// The structured address fragment of a place. Every field is optional:
/// which ones the server fills varies by place type and locale.
#[derive(Debug, Clone)]
pub struct Address {
    pub city: Option<String>,
    pub state_district: Option<String>,
    pub state: Option<String>,
    pub iso3166_2_lvl4: Option<String>,
    pub postcode: Option<String>,
    pub country: Option<String>,
    pub country_code: Option<String>,
}

/// Auxiliary metadata of a place, present only when the server has it and
/// the request asked for extra tags.
#[derive(Debug, Clone)]
pub struct ExtraTags {
    pub capital: Option<String>,
    pub website: Option<String>,
    pub wikidata: Option<String>,
    pub wikipedia: Option<String>,
    pub population: Option<String>,
}

/// One geocoding result. The server populates its records loosely, so the
/// non-optional fields fall back to zero or empty values when the payload
/// leaves them out; see [`Place::from_parts`]. The importance score is
/// carried as the decimal text the server sent, so that no floating-point
/// value enters the library.
#[derive(Debug, Clone)]
pub struct Place {
    pub place_id: usize,
    pub licence: String,
    pub osm_type: String,
    pub osm_id: usize,
    pub boundingbox: Vec<String>,
    pub lat: String,
    pub lon: String,
    pub display_name: String,
    pub class: Option<String>,
    pub _type: Option<String>,
    pub importance: Option<String>,
    pub icon: Option<String>,
    pub address: Option<Address>,
    pub extratags: Option<ExtraTags>,
}

/// The fields of one place record as the wire payload delivered them:
/// every field that the payload may omit is an `Option`.
#[derive(Debug, Clone)]
pub struct PlaceParts {
    pub place_id: Option<usize>,
    pub licence: Option<String>,
    pub osm_type: Option<String>,
    pub osm_id: Option<usize>,
    pub boundingbox: Option<Vec<String>>,
    pub lat: Option<String>,
    pub lon: Option<String>,
    pub display_name: Option<String>,
    pub class: Option<String>,
    pub _type: Option<String>,
    pub importance: Option<String>,
    pub icon: Option<String>,
    pub address: Option<Address>,
    pub extratags: Option<ExtraTags>,
}

impl Place {
    /// Resolves a loosely populated record to a full `Place`: a field the
    /// payload carried keeps its value verbatim; an absent identifier
    /// becomes zero, an absent string or bounding box becomes empty; the
    /// optional classification, importance, icon, address and extra-tag
    /// fields stay exactly as delivered.
    pub fn from_parts(parts: PlaceParts) -> (r: Place)
        ensures
            parts.place_id matches Some(v) ==> r.place_id == v,
            parts.place_id is None ==> r.place_id == 0,
            parts.licence matches Some(v) ==> r.licence == v,
            parts.licence is None ==> r.licence@ == Seq::<char>::empty(),
            parts.osm_type matches Some(v) ==> r.osm_type == v,
            parts.osm_type is None ==> r.osm_type@ == Seq::<char>::empty(),
            parts.osm_id matches Some(v) ==> r.osm_id == v,
            parts.osm_id is None ==> r.osm_id == 0,
            parts.boundingbox matches Some(v) ==> r.boundingbox == v,
            parts.boundingbox is None ==> r.boundingbox@ == Seq::<String>::empty(),
            parts.lat matches Some(v) ==> r.lat == v,
            parts.lat is None ==> r.lat@ == Seq::<char>::empty(),
            parts.lon matches Some(v) ==> r.lon == v,
            parts.lon is None ==> r.lon@ == Seq::<char>::empty(),
            parts.display_name matches Some(v) ==> r.display_name == v,
            parts.display_name is None ==> r.display_name@ == Seq::<char>::empty(),
            r.class == parts.class,
            r._type == parts._type,
            r.importance == parts.importance,
            r.icon == parts.icon,
            r.address == parts.address,
            r.extratags == parts.extratags,
    {
        Place {
            place_id: match parts.place_id {
                Some(v) => v,
                None => 0,
            },
            licence: match parts.licence {
                Some(v) => v,
                None => String::new(),
            },
            osm_type: match parts.osm_type {
                Some(v) => v,
                None => String::new(),
            },
            osm_id: match parts.osm_id {
                Some(v) => v,
                None => 0,
            },
            boundingbox: match parts.boundingbox {
                Some(v) => v,
                None => Vec::new(),
            },
            lat: match parts.lat {
                Some(v) => v,
                None => String::new(),
            },
            lon: match parts.lon {
                Some(v) => v,
                None => String::new(),
            },
            display_name: match parts.display_name {
                Some(v) => v,
                None => String::new(),
            },
            class: parts.class,
            _type: parts._type,
            importance: parts.importance,
            icon: parts.icon,
            address: parts.address,
            extratags: parts.extratags,
        }
    }
}

} // verus!
