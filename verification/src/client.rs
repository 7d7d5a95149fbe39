use std::time::Duration;

use vstd::pervasive::unreached;
use vstd::prelude::*;

use crate::error::Error;
use crate::ident::IdentificationMethod;
use crate::query::build_lookup_query;
use crate::query::build_reverse_query;
use crate::query::build_search_query;
use crate::query::lookup_query;
use crate::query::reverse_query;
use crate::query::search_query;
use crate::query::status_query;
use crate::urls::appendable_base;
use crate::urls::default_base_url;
use crate::urls::join_url;
use crate::urls::lemma_endpoint_literals;
use crate::urls::lemma_no_query_or_fragment_concat;
use crate::urls::no_query_or_fragment;
use crate::urls::parse_url;
use crate::urls::query_ok;
use crate::urls::url_join;
use crate::urls::url_parse;
use crate::urls::url_with_query;
use crate::urls::with_query;

verus! {

broadcast use vstd::string::group_string_axioms;

/// Relies on `core::time::Duration::from_secs`: builds the duration of a
/// whole number of seconds.
pub assume_specification[ Duration::from_secs ](secs: u64) -> Duration;

/// Relies on `Clone` for `core::time::Duration`, a `Copy` type: the clone
/// is the same value.
pub assume_specification[ <Duration as Clone>::clone ](d: &Duration) -> (r: Duration)
    ensures
        r == *d,
;

/// One fully assembled request: the URL to GET, the identification header
/// to attach, and the timeout to apply to the round trip. Handing it to a
/// transport is the caller's business.
#[derive(Debug, Clone)]
pub struct Request {
    pub url: String,
    pub header_name: String,
    pub header_value: String,
    pub timeout: Duration,
}

/// The interface for accessing a Nominatim API server: an identification
/// method, a base URL that every endpoint path is resolved against, and a
/// timeout applied to each request.
#[derive(Debug)]
pub struct Client {
    ident: IdentificationMethod,
    base_url: String,
    timeout: Duration,
}

impl Client {
    #[verifier::type_invariant]
    spec fn inv(self) -> bool {
        url_parse(self.base_url@) == Some(self.base_url@)
    }

    /// The serialization of the base URL requests are resolved against.
    pub closed spec fn spec_base_url(self) -> Seq<char> {
        self.base_url@
    }

    /// The identification sent with every request.
    pub closed spec fn spec_ident(self) -> IdentificationMethod {
        self.ident
    }

    /// The timeout applied to every request.
    pub closed spec fn spec_timeout(self) -> Duration {
        self.timeout
    }

    /// A fresh client for the given identification: it points at the public
    /// Nominatim instance and times out after ten seconds.
    pub fn new(ident: IdentificationMethod) -> (r: Client)
        ensures
            r.spec_base_url() == default_base_url(),
            r.spec_ident() == ident,
    {
        let base = match parse_url("https://nominatim.openstreetmap.org/") {
            Ok(b) => b,
            Err(_) => unreached(),
        };
        Client { ident, base_url: base, timeout: Duration::from_secs(10) }
    }

    /// Replaces the base URL. Succeeds exactly when `url` parses as an
    /// absolute URL, and then stores its serialization; on a malformed
    /// string it returns the parse error and leaves the client untouched.
    pub fn set_base_url(&mut self, url: &str) -> (r: Result<(), Error>)
        ensures
            r is Ok <==> url_parse(url@) is Some,
            r is Ok ==> Some(final(self).spec_base_url()) == url_parse(url@),
            r is Ok ==> final(self).spec_ident() == old(self).spec_ident()
                && final(self).spec_timeout() == old(self).spec_timeout(),
            r is Err ==> *final(self) == *old(self),
            r matches Err(e) ==> e matches Error::UrlParse(_),
    {
        proof {
            use_type_invariant(&*self);
        }
        match parse_url(url) {
            Ok(b) => {
                self.base_url = b;
                Ok(())
            },
            Err(e) => Err(Error::UrlParse(e)),
        }
    }

    /// The configured timeout.
    pub fn timeout(&self) -> (r: Duration)
        ensures
            r == self.spec_timeout(),
    {
        self.timeout
    }

    /// Replaces the timeout applied to every following request.
    pub fn set_timeout(&mut self, timeout: Duration)
        ensures
            final(self).spec_timeout() == timeout,
            final(self).spec_base_url() == old(self).spec_base_url(),
            final(self).spec_ident() == old(self).spec_ident(),
    {
        proof {
            use_type_invariant(&*self);
        }
        self.timeout = timeout;
    }

    /// The identification header pair and timeout wrapped around `url`.
    fn to_request(&self, url: String) -> (r: Request)
        ensures
            r.url == url,
            r.header_name@ == self.spec_ident().spec_header(),
            r.header_value@ == self.spec_ident().spec_value(),
            r.timeout == self.spec_timeout(),
    {
        Request {
            url,
            header_name: self.ident.header(),
            header_value: self.ident.value(),
            timeout: self.timeout,
        }
    }

    /// The request that asks the server for its health: `status.php`
    /// resolved against the base URL, with query `format=json`. It fails
    /// exactly when the base URL cannot take a relative path.
    pub fn status_request(&self) -> (r: Result<Request, Error>)
        ensures
            r is Ok <==> url_join(self.spec_base_url(), "status.php"@) is Some,
            r matches Ok(req) ==> req.url@ == url_with_query(
                url_join(self.spec_base_url(), "status.php"@)->0,
                status_query(),
            ),
            r matches Ok(req) ==> req.header_name@ == self.spec_ident().spec_header()
                && req.header_value@ == self.spec_ident().spec_value() && req.timeout
                == self.spec_timeout(),
            r matches Err(e) ==> e matches Error::UrlParse(_),
            appendable_base(self.spec_base_url()) ==> r is Ok && r->Ok_0.url@
                == self.spec_base_url() + "status.php"@ + seq!['?'] + status_query(),
    {
        proof {
            use_type_invariant(&*self);
            lemma_endpoint_literals();
        }
        let joined = match join_url(self.base_url.as_str(), "status.php") {
            Ok(j) => j,
            Err(e) => {
                return Err(Error::UrlParse(e));
            },
        };
        proof {
            if appendable_base(self.base_url@) {
                lemma_no_query_or_fragment_concat(self.base_url@, "status.php"@);
            }
        }
        let url = with_query(joined.as_str(), "format=json");
        Ok(self.to_request(url))
    }

    /// The request for a free-text search: the base URL itself, with the
    /// search query string (space-encoded query, address details and extra
    /// tags switched on) as its query.
    pub fn search_request(&self, query: &str) -> (r: Request)
        ensures
            r.url@ == url_with_query(self.spec_base_url(), search_query(query@)),
            r.header_name@ == self.spec_ident().spec_header(),
            r.header_value@ == self.spec_ident().spec_value(),
            r.timeout == self.spec_timeout(),
            no_query_or_fragment(self.spec_base_url()) && query_ok(search_query(query@))
                ==> r.url@ == self.spec_base_url() + seq!['?'] + search_query(query@),
    {
        proof {
            use_type_invariant(&*self);
        }
        let q = build_search_query(query);
        let url = with_query(self.base_url.as_str(), q.as_str());
        self.to_request(url)
    }

    /// The request that turns a coordinate pair into a place: `reverse`
    /// resolved against the base URL, with the coordinates (spaces
    /// stripped) and, exactly when given, the zoom level in its query. It
    /// fails exactly when the base URL cannot take a relative path.
    pub fn reverse_request(&self, latitude: &str, longitude: &str, zoom: Option<u8>) -> (r: Result<
        Request,
        Error,
    >)
        ensures
            r is Ok <==> url_join(self.spec_base_url(), "reverse"@) is Some,
            r matches Ok(req) ==> req.url@ == url_with_query(
                url_join(self.spec_base_url(), "reverse"@)->0,
                reverse_query(latitude@, longitude@, zoom),
            ),
            r matches Ok(req) ==> req.header_name@ == self.spec_ident().spec_header()
                && req.header_value@ == self.spec_ident().spec_value() && req.timeout
                == self.spec_timeout(),
            r matches Err(e) ==> e matches Error::UrlParse(_),
            appendable_base(self.spec_base_url()) ==> r is Ok,
            appendable_base(self.spec_base_url()) && query_ok(
                reverse_query(latitude@, longitude@, zoom),
            ) ==> r is Ok && r->Ok_0.url@ == self.spec_base_url() + "reverse"@ + seq!['?']
                + reverse_query(latitude@, longitude@, zoom),
    {
        proof {
            use_type_invariant(&*self);
            lemma_endpoint_literals();
        }
        let joined = match join_url(self.base_url.as_str(), "reverse") {
            Ok(j) => j,
            Err(e) => {
                return Err(Error::UrlParse(e));
            },
        };
        proof {
            if appendable_base(self.base_url@) {
                lemma_no_query_or_fragment_concat(self.base_url@, "reverse"@);
            }
        }
        let q = build_reverse_query(latitude, longitude, zoom);
        let url = with_query(joined.as_str(), q.as_str());
        Ok(self.to_request(url))
    }

    /// The request that looks up OSM node, way or relation identifiers:
    /// `lookup` resolved against the base URL, with the comma-joined
    /// identifiers in its query. It fails exactly when the base URL cannot
    /// take a relative path.
    pub fn lookup_request(&self, queries: &Vec<String>) -> (r: Result<Request, Error>)
        ensures
            r is Ok <==> url_join(self.spec_base_url(), "lookup"@) is Some,
            r matches Ok(req) ==> req.url@ == url_with_query(
                url_join(self.spec_base_url(), "lookup"@)->0,
                lookup_query(queries.deep_view()),
            ),
            r matches Ok(req) ==> req.header_name@ == self.spec_ident().spec_header()
                && req.header_value@ == self.spec_ident().spec_value() && req.timeout
                == self.spec_timeout(),
            r matches Err(e) ==> e matches Error::UrlParse(_),
            appendable_base(self.spec_base_url()) ==> r is Ok,
            appendable_base(self.spec_base_url()) && query_ok(lookup_query(queries.deep_view()))
                ==> r is Ok && r->Ok_0.url@ == self.spec_base_url() + "lookup"@ + seq!['?']
                + lookup_query(queries.deep_view()),
    {
        proof {
            use_type_invariant(&*self);
            lemma_endpoint_literals();
        }
        let joined = match join_url(self.base_url.as_str(), "lookup") {
            Ok(j) => j,
            Err(e) => {
                return Err(Error::UrlParse(e));
            },
        };
        proof {
            if appendable_base(self.base_url@) {
                lemma_no_query_or_fragment_concat(self.base_url@, "lookup"@);
            }
        }
        let q = build_lookup_query(queries);
        let url = with_query(joined.as_str(), q.as_str());
        Ok(self.to_request(url))
    }
}

impl Clone for Client {
    /// The clone holds the same identification, base URL and timeout.
    fn clone(&self) -> (r: Self)
        ensures
            r == *self,
    {
        proof {
            use_type_invariant(&*self);
        }
        Client {
            ident: self.ident.clone(),
            base_url: self.base_url.clone(),
            timeout: self.timeout,
        }
    }
}

} // verus!
