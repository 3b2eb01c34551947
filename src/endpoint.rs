use crate::compose::is_endpoint;
use crate::error::Error;
use vstd::prelude::*;

verus! {

/// The text that `url::Url::parse` gives back for an input it accepts; `None`
/// where it refuses the input.
pub uninterp spec fn url_serialization(s: Seq<char>) -> Option<Seq<char>>;

#[verifier::external_type_specification]
#[verifier::external_body]
pub struct ExParseError(url::ParseError);

/// Relies on `url::Url::parse` to accept only well-formed absolute URLs and on
/// `String::from(Url)` to hand back its serialization, which depends on the
/// input alone.
#[verifier::external_body]
fn parse_url(s: &str) -> (r: Result<String, url::ParseError>)
    ensures
        r is Ok <==> url_serialization(s@) is Some,
        r is Ok ==> url_serialization(s@) == Some(r->Ok_0@),
{
    url::Url::parse(s).map(String::from)
}

/// Tells whether `s` holds a `?` or a `#`.
pub fn has_query_or_fragment(s: &str) -> (r: bool)
    ensures
        r == !is_endpoint(s@),
{
    let n = s.unicode_len();
    let mut i: usize = 0;
    while i < n
        invariant
            n == s@.len(),
            i <= n,
            forall|j: int| 0 <= j < i ==> s@[j] != '?' && s@[j] != '#',
        decreases n - i,
    {
        let c = s.get_char(i);
        if c == '?' || c == '#' {
            return true;
        }
        i = i + 1;
    }
    false
}

/// The endpoint text for a caller's URL, if it is one: what the URL parser makes
/// of it, where that has no query and no fragment.
pub open spec fn endpoint_of(s: Seq<char>) -> Option<Seq<char>> {
    match url_serialization(s) {
        Some(t) => if is_endpoint(t) { Some(t) } else { None },
        None => None,
    }
}

/// Validates a caller's URL as a service endpoint and gives its normalized text.
pub fn parse_endpoint(s: &str) -> (r: Result<String, Error>)
    ensures
        r is Ok <==> endpoint_of(s@) is Some,
        r is Ok ==> endpoint_of(s@) == Some(r->Ok_0@),
        r is Err ==> r->Err_0 == Error::InvalidUrl,
{
    match parse_url(s) {
        Ok(t) => {
            if has_query_or_fragment(t.as_str()) {
                Err(Error::InvalidUrl)
            } else {
                Ok(t)
            }
        },
        Err(_) => Err(Error::InvalidUrl),
    }
}

} // verus!
