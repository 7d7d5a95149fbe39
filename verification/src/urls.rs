use vstd::prelude::*;

verus! {

/// The base URL every fresh client starts with: the public Nominatim
/// instance.
pub open spec fn default_base_url() -> Seq<char> {
    "https://nominatim.openstreetmap.org/"@
}

/// What `url::Url::parse` makes of a string: `None` when the string is not
/// an absolute URL, otherwise the serialization of the parsed URL.
pub uninterp spec fn url_parse(s: Seq<char>) -> Option<Seq<char>>;

/// What resolving `rel` against the URL parsed from `base` yields: `None`
/// when `base` does not parse or cannot serve as a base, otherwise the
/// serialization of the resolved URL.
pub uninterp spec fn url_join(base: Seq<char>, rel: Seq<char>) -> Option<Seq<char>>;

/// The serialization of the URL parsed from `u` after its query string is
/// replaced by `q`.
pub uninterp spec fn url_with_query(u: Seq<char>, q: Seq<char>) -> Seq<char>;

/// A URL serialization that carries neither a query string nor a fragment:
/// it holds no `?` and no `#`.
pub open spec fn no_query_or_fragment(s: Seq<char>) -> bool {
    forall|i: int| 0 <= i < s.len() ==> s[i] != '?' && s[i] != '#'
}

/// The serialization starts with a scheme that takes an authority and a
/// hierarchical path.
pub open spec fn http_base(s: Seq<char>) -> bool {
    ||| s.len() >= 7 && s.subrange(0, 7) == "http://"@
    ||| s.len() >= 8 && s.subrange(0, 8) == "https://"@
}

/// A character that passes through URL path resolution untouched.
pub open spec fn segment_char_ok(c: char) -> bool {
    ||| 'a' <= c <= 'z'
    ||| 'A' <= c <= 'Z'
    ||| '0' <= c <= '9'
    ||| c == '.'
}

/// A relative reference that names one plain path segment: nonempty, built
/// of unreserved characters, and not a dot segment.
pub open spec fn plain_segment(rel: Seq<char>) -> bool {
    &&& rel.len() > 0
    &&& rel != "."@
    &&& rel != ".."@
    &&& forall|i: int| 0 <= i < rel.len() ==> segment_char_ok(rel[i])
}

/// A character that the query parser of the `url` crate copies into the
/// query string unchanged: printable ASCII outside the percent-encoded
/// query sets.
pub open spec fn query_char_ok(c: char) -> bool {
    &&& c as u32 >= 0x21
    &&& c as u32 <= 0x7e
    &&& c != '"'
    &&& c != '#'
    &&& c != '<'
    &&& c != '>'
    &&& c != '\''
}

/// A base URL serialization that every plain endpoint path appends to:
/// absolute and hierarchical, path ending in `/`, no query, no fragment.
pub open spec fn appendable_base(s: Seq<char>) -> bool {
    &&& http_base(s)
    &&& s.len() > 0
    &&& s.last() == '/'
    &&& no_query_or_fragment(s)
}

/// A query string that URL serialization carries verbatim.
pub open spec fn query_ok(q: Seq<char>) -> bool {
    forall|i: int| 0 <= i < q.len() ==> query_char_ok(q[i])
}

/// The default base URL is an absolute hierarchical URL whose path ends in
/// `/` and which carries neither query nor fragment: the shape against
/// which every endpoint path resolves by plain concatenation.
pub proof fn lemma_default_base_shape()
    ensures
        appendable_base(default_base_url()),
{
    reveal_strlit("https://nominatim.openstreetmap.org/");
    reveal_strlit("https://");
    assert(default_base_url().subrange(0, 8) =~= "https://"@);
}

/// The three endpoint paths are plain path segments, and the fixed status
/// query is carried verbatim by URL serialization.
pub(crate) proof fn lemma_endpoint_literals()
    ensures
        plain_segment("status.php"@),
        plain_segment("reverse"@),
        plain_segment("lookup"@),
        query_ok("format=json"@),
{
    reveal_strlit("status.php");
    reveal_strlit("reverse");
    reveal_strlit("lookup");
    reveal_strlit(".");
    reveal_strlit("..");
    reveal_strlit("format=json");
}

/// Appending plain path-segment characters to a serialization without
/// query or fragment yields one without query or fragment.
pub(crate) proof fn lemma_no_query_or_fragment_concat(a: Seq<char>, b: Seq<char>)
    requires
        no_query_or_fragment(a),
        forall|i: int| 0 <= i < b.len() ==> segment_char_ok(b[i]),
    ensures
        no_query_or_fragment(a + b),
{
    assert forall|i: int| 0 <= i < (a + b).len() implies (a + b)[i] != '?' && (a + b)[i]
        != '#' by {
        if i < a.len() {
            assert((a + b)[i] == a[i]);
        } else {
            assert((a + b)[i] == b[i - a.len()]);
            assert(segment_char_ok(b[i - a.len()]));
        }
    }
}

/// Relies on `url::Url::parse` and on `From<Url> for String`, which hands
/// out the parsed URL's serialization. Parsing is a function of the string
/// alone; a serialization parses back to itself; the default Nominatim base
/// URL is already a serialization.
#[verifier::external_body]
pub(crate) fn parse_url(s: &str) -> (r: Result<String, url::ParseError>)
    ensures
        r is Ok <==> url_parse(s@) is Some,
        r is Ok ==> Some(r->Ok_0@) == url_parse(s@),
        r is Ok ==> url_parse(r->Ok_0@) == Some(r->Ok_0@),
        s@ == default_base_url() ==> r is Ok && r->Ok_0@ == s@,
{
    match url::Url::parse(s) {
        Ok(u) => Ok(String::from(u)),
        Err(e) => Err(e),
    }
}

/// Relies on `url::Url::parse` and `url::Url::join`: resolving a plain
/// relative segment against an absolute hierarchical base URL whose path
/// ends in `/` appends the segment to the base, per RFC 3986 reference
/// resolution; the result is again a serialization.
#[verifier::external_body]
pub(crate) fn join_url(base: &str, rel: &str) -> (r: Result<String, url::ParseError>)
    ensures
        r is Ok <==> url_join(base@, rel@) is Some,
        r is Ok ==> Some(r->Ok_0@) == url_join(base@, rel@),
        r is Ok ==> url_parse(r->Ok_0@) == Some(r->Ok_0@),
        url_parse(base@) == Some(base@) && appendable_base(base@) && plain_segment(rel@)
            ==> r is Ok && r->Ok_0@ == base@ + rel@,
{
    match url::Url::parse(base) {
        Ok(b) => match b.join(rel) {
            Ok(j) => Ok(String::from(j)),
            Err(e) => Err(e),
        },
        Err(e) => Err(e),
    }
}

/// Relies on `url::Url::parse` and `url::Url::set_query`: setting the query
/// of a URL without query and fragment appends `?` and the query, which is
/// copied verbatim when it stays outside the query percent-encode sets.
#[verifier::external_body]
pub(crate) fn with_query(u: &str, q: &str) -> (r: String)
    requires
        url_parse(u@) is Some,
    ensures
        r@ == url_with_query(u@, q@),
        url_parse(u@) == Some(u@) && no_query_or_fragment(u@) && query_ok(q@) ==> r@ == u@
            + seq!['?'] + q@,
{
    let mut parsed = url::Url::parse(u).unwrap();
    parsed.set_query(Some(q));
    String::from(parsed)
}

} // verus!
