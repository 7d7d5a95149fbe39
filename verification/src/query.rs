use vstd::prelude::*;
use vstd::string::*;

verus! {

/// Relies on `String::push`: appends the character to the end of the
/// string.
pub assume_specification[ String::push ](s: &mut String, ch: char)
    ensures
        final(s)@ == old(s)@.push(ch),
;

/// The free-text search query as it goes on the wire: every space becomes a
/// `+`, every other character stays.
pub open spec fn plus_encode(s: Seq<char>) -> Seq<char> {
    s.map_values(|c: char| if c == ' ' { '+' } else { c })
}

/// A coordinate string as it goes on the wire: spaces are dropped, every
/// other character stays in order.
pub open spec fn strip_spaces(s: Seq<char>) -> Seq<char> {
    s.filter(|c: char| c != ' ')
}

/// The identifiers joined with a single comma between neighbours.
pub open spec fn comma_join(ids: Seq<Seq<char>>) -> Seq<char>
    decreases ids.len(),
{
    if ids.len() == 0 {
        Seq::empty()
    } else if ids.len() == 1 {
        ids[0]
    } else {
        comma_join(ids.drop_last()) + seq![','] + ids.last()
    }
}

/// The character for one decimal digit.
pub open spec fn digit_char(d: int) -> char {
    if d == 0 {
        '0'
    } else if d == 1 {
        '1'
    } else if d == 2 {
        '2'
    } else if d == 3 {
        '3'
    } else if d == 4 {
        '4'
    } else if d == 5 {
        '5'
    } else if d == 6 {
        '6'
    } else if d == 7 {
        '7'
    } else if d == 8 {
        '8'
    } else {
        '9'
    }
}

/// The decimal digits of a zoom level, most significant first, without
/// leading zeros.
pub open spec fn u8_decimal(n: u8) -> Seq<char> {
    if n < 10 {
        seq![digit_char(n as int)]
    } else if n < 100 {
        seq![digit_char(n as int / 10), digit_char(n as int % 10)]
    } else {
        seq![
            digit_char(n as int / 100),
            digit_char((n as int / 10) % 10),
            digit_char(n as int % 10),
        ]
    }
}

/// The query string of a search request.
pub open spec fn search_query(q: Seq<char>) -> Seq<char> {
    "addressdetails=1&extratags=1&q="@ + plus_encode(q) + "&format=json"@
}

/// The query string of a reverse-geocoding request; the zoom parameter
/// appears exactly when a zoom was given.
pub open spec fn reverse_query(lat: Seq<char>, lon: Seq<char>, zoom: Option<u8>) -> Seq<char> {
    let bare = "addressdetails=1&extratags=1&format=json&lat="@ + strip_spaces(lat) + "&lon="@
        + strip_spaces(lon);
    match zoom {
        Some(z) => bare + "&zoom="@ + u8_decimal(z),
        None => bare,
    }
}

/// The query string of a lookup request.
pub open spec fn lookup_query(ids: Seq<Seq<char>>) -> Seq<char> {
    "osm_ids="@ + comma_join(ids) + "&addressdetails=1&extratags=1&format=json"@
}

/// The query string of a status request.
pub open spec fn status_query() -> Seq<char> {
    "format=json"@
}

/// A space-encoded query keeps its length, turns each space into `+` and
/// nothing else.
pub proof fn lemma_plus_encode(q: Seq<char>)
    ensures
        plus_encode(q).len() == q.len(),
        forall|i: int|
            0 <= i < q.len() ==> plus_encode(q)[i] == (if q[i] == ' ' {
                '+'
            } else {
                q[i]
            }),
{
}

/// A reverse query with a zoom is the zoomless query extended by `&zoom=`
/// and the zoom's decimal digits; one without a zoom carries no zoom
/// parameter at all.
pub proof fn lemma_reverse_query_zoom(lat: Seq<char>, lon: Seq<char>, z: u8)
    ensures
        reverse_query(lat, lon, Some(z)) == reverse_query(lat, lon, None) + "&zoom="@
            + u8_decimal(z),
{
}

/// Writes `q` after `out` with each space turned into `+`.
fn append_plus_encoded(out: &mut String, q: &str)
    ensures
        final(out)@ == old(out)@ + plus_encode(q@),
{
    let n = q.unicode_len();
    let mut i: usize = 0;
    while i < n
        invariant
            n == q@.len(),
            i <= n,
            out@ == old(out)@ + plus_encode(q@.subrange(0, i as int)),
        decreases n - i,
    {
        let c = q.get_char(i);
        out.push(if c == ' ' { '+' } else { c });
        proof {
            assert(plus_encode(q@.subrange(0, i + 1)) =~= plus_encode(
                q@.subrange(0, i as int),
            ).push(if q@[i as int] == ' ' { '+' } else { q@[i as int] }));
            assert(out@ =~= old(out)@ + plus_encode(q@.subrange(0, i + 1)));
        }
        i += 1;
    }
    proof {
        assert(q@.subrange(0, n as int) =~= q@);
    }
}

/// Writes `s` after `out` with every space dropped.
fn append_stripped(out: &mut String, s: &str)
    ensures
        final(out)@ == old(out)@ + strip_spaces(s@),
{
    let n = s.unicode_len();
    let mut i: usize = 0;
    while i < n
        invariant
            n == s@.len(),
            i <= n,
            out@ == old(out)@ + strip_spaces(s@.subrange(0, i as int)),
        decreases n - i,
    {
        let c = s.get_char(i);
        if c != ' ' {
            out.push(c);
        }
        proof {
            reveal(Seq::filter);
            let pre = s@.subrange(0, i as int);
            let pre1 = s@.subrange(0, i + 1);
            assert(pre1.drop_last() =~= pre);
            assert(pre1.last() == s@[i as int]);
            assert(strip_spaces(pre1) == (if s@[i as int] != ' ' {
                strip_spaces(pre).push(s@[i as int])
            } else {
                strip_spaces(pre)
            }));
            assert(out@ =~= old(out)@ + strip_spaces(pre1));
        }
        i += 1;
    }
    proof {
        assert(s@.subrange(0, n as int) =~= s@);
    }
}

/// Writes the identifiers after `out`, joined with commas.
fn append_comma_joined(out: &mut String, ids: &Vec<String>)
    ensures
        final(out)@ == old(out)@ + comma_join(ids.deep_view()),
{
    let n = ids.len();
    let mut i: usize = 0;
    while i < n
        invariant
            n == ids.len(),
            i <= n,
            out@ == old(out)@ + comma_join(ids.deep_view().subrange(0, i as int)),
        decreases n - i,
    {
        if i > 0 {
            out.push(',');
        }
        out.append(ids[i].as_str());
        proof {
            let full = ids.deep_view();
            assert(full.subrange(0, i + 1).drop_last() =~= full.subrange(0, i as int));
            assert(full.subrange(0, i + 1).last() == ids[i as int]@);
            assert(out@ =~= old(out)@ + comma_join(full.subrange(0, i + 1)));
        }
        i += 1;
    }
    proof {
        assert(ids.deep_view().subrange(0, n as int) =~= ids.deep_view());
    }
}

/// The decimal digit `d` as a character.
fn digit_of(d: u8) -> (c: char)
    requires
        d < 10,
    ensures
        c == digit_char(d as int),
{
    match d {
        0 => '0',
        1 => '1',
        2 => '2',
        3 => '3',
        4 => '4',
        5 => '5',
        6 => '6',
        7 => '7',
        8 => '8',
        _ => '9',
    }
}

/// Writes the decimal digits of `n` after `out`.
fn append_u8_decimal(out: &mut String, n: u8)
    ensures
        final(out)@ == old(out)@ + u8_decimal(n),
{
    if n >= 100 {
        out.push(digit_of(n / 100));
        out.push(digit_of((n / 10) % 10));
        out.push(digit_of(n % 10));
        proof {
            assert(out@ =~= old(out)@ + u8_decimal(n));
        }
    } else if n >= 10 {
        out.push(digit_of(n / 10));
        out.push(digit_of(n % 10));
        proof {
            assert(out@ =~= old(out)@ + u8_decimal(n));
        }
    } else {
        out.push(digit_of(n));
        proof {
            assert(out@ =~= old(out)@ + u8_decimal(n));
        }
    }
}

/// Builds the query string of a search request for `query`.
pub fn build_search_query(query: &str) -> (r: String)
    ensures
        r@ == search_query(query@),
{
    let mut out = String::from_str("addressdetails=1&extratags=1&q=");
    append_plus_encoded(&mut out, query);
    out.append("&format=json");
    proof {
        assert(out@ =~= search_query(query@));
    }
    out
}

/// Builds the query string of a reverse-geocoding request.
pub fn build_reverse_query(latitude: &str, longitude: &str, zoom: Option<u8>) -> (r: String)
    ensures
        r@ == reverse_query(latitude@, longitude@, zoom),
{
    let mut out = String::from_str("addressdetails=1&extratags=1&format=json&lat=");
    append_stripped(&mut out, latitude);
    out.append("&lon=");
    append_stripped(&mut out, longitude);
    match zoom {
        Some(z) => {
            out.append("&zoom=");
            append_u8_decimal(&mut out, z);
        },
        None => {},
    }
    proof {
        assert(out@ =~= reverse_query(latitude@, longitude@, zoom));
    }
    out
}

/// Builds the query string of a lookup request for the given identifiers.
pub fn build_lookup_query(ids: &Vec<String>) -> (r: String)
    ensures
        r@ == lookup_query(ids.deep_view()),
{
    let mut out = String::from_str("osm_ids=");
    append_comma_joined(&mut out, ids);
    out.append("&addressdetails=1&extratags=1&format=json");
    proof {
        assert(out@ =~= lookup_query(ids.deep_view()));
    }
    out
}

} // verus!
