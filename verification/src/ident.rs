use vstd::prelude::*;
use vstd::string::*;

use crate::error::Error;

verus! {

/// A character is legal in an HTTP header value when it is the horizontal
/// tab or any character other than the remaining control characters.
pub open spec fn header_char_ok(c: char) -> bool {
    c == '\t' || (c as u32 >= 32 && c as u32 != 127)
}

/// A string may stand in an HTTP header value when every one of its
/// characters may.
pub open spec fn header_value_ok(s: Seq<char>) -> bool {
    forall|i: int| 0 <= i < s.len() ==> header_char_ok(s[i])
}

/// Which of the two identification headers is sent.
#[derive(Debug, Clone, Copy)]
enum HeaderKind {
    UserAgent,
    Referer,
}

/// How the caller identifies itself to the Nominatim server: either a
/// free-text application name sent as `User-Agent`, or a URL sent as
/// `Referer`. Exactly one strategy is active, and the value is known to be
/// legal for an HTTP header from construction on.
#[derive(Debug)]
pub struct IdentificationMethod {
    kind: HeaderKind,
    value: String,
}

impl IdentificationMethod {
    #[verifier::type_invariant]
    spec fn inv(self) -> bool {
        header_value_ok(self.value@)
    }

    /// The name of the header this identification is sent under.
    pub closed spec fn spec_header(self) -> Seq<char> {
        match self.kind {
            HeaderKind::UserAgent => "User-Agent"@,
            HeaderKind::Referer => "Referer"@,
        }
    }

    /// The value sent under the header: the caller's string, verbatim.
    pub closed spec fn spec_value(self) -> Seq<char> {
        self.value@
    }

    /// Whether every character of `s` may stand in an HTTP header value.
    fn value_chars_ok(s: &str) -> (b: bool)
        ensures
            b == header_value_ok(s@),
    {
        let n = s.unicode_len();
        let mut i: usize = 0;
        while i < n
            invariant
                n == s@.len(),
                i <= n,
                forall|j: int| 0 <= j < i ==> header_char_ok(s@[j]),
            decreases n - i,
        {
            let c = s.get_char(i);
            let u = c as u32;
            if !(u == 9 || (u >= 32 && u != 127)) {
                return false;
            }
            i += 1;
        }
        true
    }

    /// Identify by application name, sent as the `User-Agent` header.
    /// Succeeds exactly when the name is legal as a header value; the value
    /// is carried verbatim.
    pub fn from_user_agent(user_agent: String) -> (r: Result<Self, Error>)
        ensures
            r is Ok <==> header_value_ok(user_agent@),
            r matches Ok(id) ==> id.spec_header() == "User-Agent"@ && id.spec_value()
                == user_agent@,
            r matches Err(e) ==> e == Error::InvalidHeaderValue,
    {
        if Self::value_chars_ok(user_agent.as_str()) {
            Ok(IdentificationMethod { kind: HeaderKind::UserAgent, value: user_agent })
        } else {
            Err(Error::InvalidHeaderValue)
        }
    }

    /// Identify by referring URL, sent as the `Referer` header. Succeeds
    /// exactly when the string is legal as a header value; the value is
    /// carried verbatim.
    pub fn from_referer(referer: String) -> (r: Result<Self, Error>)
        ensures
            r is Ok <==> header_value_ok(referer@),
            r matches Ok(id) ==> id.spec_header() == "Referer"@ && id.spec_value() == referer@,
            r matches Err(e) ==> e == Error::InvalidHeaderValue,
    {
        if Self::value_chars_ok(referer.as_str()) {
            Ok(IdentificationMethod { kind: HeaderKind::Referer, value: referer })
        } else {
            Err(Error::InvalidHeaderValue)
        }
    }

    /// The header name to attach to a request. It is always exactly one of
    /// `User-Agent` and `Referer`, never a third name.
    pub fn header(&self) -> (r: String)
        ensures
            r@ == self.spec_header(),
            r@ == "User-Agent"@ || r@ == "Referer"@,
    {
        match self.kind {
            HeaderKind::UserAgent => String::from_str("User-Agent"),
            HeaderKind::Referer => String::from_str("Referer"),
        }
    }

    /// The header value to attach to a request: the caller's string,
    /// verbatim, and always legal for an HTTP header.
    pub fn value(&self) -> (r: String)
        ensures
            r@ == self.spec_value(),
            header_value_ok(r@),
    {
        proof {
            use_type_invariant(&*self);
        }
        self.value.clone()
    }
}

impl Clone for IdentificationMethod {
    /// The clone carries the same strategy and the same value.
    fn clone(&self) -> (r: Self)
        ensures
            r == *self,
    {
        proof {
            use_type_invariant(&*self);
        }
        IdentificationMethod { kind: self.kind, value: self.value.clone() }
    }
}

} // verus!
