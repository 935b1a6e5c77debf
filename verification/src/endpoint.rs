//! Service endpoint addresses. The client cares about exactly two things in
//! an endpoint URL — its scheme and its host — so an [`Endpoint`] holds just
//! those, and parsing drops the path, query and fragment. The parse itself is
//! delegated to the `url` crate behind one trusted wrapper; everything around
//! it (trimming, the `https://` fallback, scheme and host checks, subdomain
//! edits) is verified.

use vstd::prelude::*;
use vstd::string::StringExecFns;

use crate::strings::{
    spec_starts_with, spec_trimmed, str_starts_with, concat_str, substring, trim_ascii,
};
use vstd::string::StrSliceExecFns;

verus! {

/// What this client reads of a service URL: scheme and host.
pub struct Endpoint {
    scheme: String,
    host: String,
}

/// The abstract value of an [`Endpoint`].
pub struct EndpointModel {
    /// The URL scheme, e.g. `https`.
    pub scheme: Seq<char>,
    /// The host name.
    pub host: Seq<char>,
}

impl View for Endpoint {
    type V = EndpointModel;

    closed spec fn view(&self) -> EndpointModel {
        EndpointModel { scheme: self.scheme@, host: self.host@ }
    }
}

/// The serialization an endpoint is stored under: `scheme://host`.
pub open spec fn spec_url_string(e: EndpointModel) -> Seq<char> {
    e.scheme + "://"@ + e.host
}

impl Endpoint {
    /// An endpoint from its two parts.
    pub fn new(scheme: String, host: String) -> (r: Endpoint)
        ensures
            r@.scheme == scheme@,
            r@.host == host@,
    {
        Endpoint { scheme, host }
    }

    /// The URL scheme.
    pub fn scheme(&self) -> (r: &str)
        ensures
            r@ == self@.scheme,
    {
        self.scheme.as_str()
    }

    /// The host name.
    pub fn host(&self) -> (r: &str)
        ensures
            r@ == self@.host,
    {
        self.host.as_str()
    }

    /// Render the endpoint as `scheme://host` (no trailing slash).
    pub fn to_url_string(&self) -> (r: String)
        ensures
            r@ == spec_url_string(self@),
    {
        let mut r = concat_str(self.scheme.as_str(), "://");
        r.append(self.host.as_str());
        r
    }
}

impl Clone for Endpoint {
    /// A copy with the same scheme and host.
    fn clone(&self) -> (r: Self)
        ensures
            r@ == self@,
    {
        Endpoint { scheme: self.scheme.clone(), host: self.host.clone() }
    }
}

/// What `url::Url::parse` extracts from a string: `None` when the string is
/// not an absolute URL, otherwise the parsed scheme and, if the URL has one,
/// the parsed host.
pub uninterp spec fn url_parts_of(s: Seq<char>) -> Option<(Seq<char>, Option<Seq<char>>)>;

/// Relies on `url::Url::parse` (with `Url::scheme` and `Url::host_str` to
/// project the result): whether a string parses, and the scheme and host it
/// parses to, are functions of the string alone.
#[verifier::external_body]
fn url_parse_parts(input: &str) -> (r: Option<(String, Option<String>)>)
    ensures
        r.deep_view() == url_parts_of(input@),
{
    match url::Url::parse(input) {
        Ok(u) => Some((u.scheme().to_string(), u.host_str().map(|h| h.to_string()))),
        Err(_) => None,
    }
}

/// Why a string was rejected as an endpoint URL.
#[derive(Clone, Copy, PartialEq, Eq, Structural, Debug)]
pub enum UrlError {
    /// Neither the string nor the string behind `https://` parses as a URL.
    Unparseable,
    /// The URL parses, but its scheme is not `http`-based.
    UnsupportedScheme,
    /// The URL parses with an acceptable scheme, but has no host.
    MissingHost,
}

/// The parse the fallback settles on: the trimmed input itself when it is an
/// absolute URL, otherwise the input behind an `https://` prefix.
pub open spec fn spec_effective_parts(t: Seq<char>) -> Option<(Seq<char>, Option<Seq<char>>)> {
    if url_parts_of(t) is Some {
        url_parts_of(t)
    } else {
        url_parts_of("https://"@ + t)
    }
}

/// Parse console input as an endpoint URL: trim it, fall back to an
/// `https://` prefix for scheme-less input, accept only `http`-based schemes
/// with a host, and keep scheme and host alone.
pub fn parse_url(input: &str) -> (r: Result<Endpoint, UrlError>)
    ensures
        ({
            let t = spec_trimmed(input@);
            match r {
                Ok(e) => {
                    &&& spec_effective_parts(t) matches Some(p)
                    &&& p.1 == Some(e@.host)
                    &&& e@.scheme == p.0
                    &&& spec_starts_with(e@.scheme, "http"@)
                },
                Err(UrlError::Unparseable) => url_parts_of(t) is None && url_parts_of(
                    "https://"@ + t,
                ) is None,
                Err(UrlError::UnsupportedScheme) => spec_effective_parts(t) matches Some(p)
                    && !spec_starts_with(p.0, "http"@),
                Err(UrlError::MissingHost) => spec_effective_parts(t) matches Some(p)
                    && spec_starts_with(p.0, "http"@) && p.1 is None,
            }
        }),
{
    let trimmed = trim_ascii(input);
    let ghost t = spec_trimmed(input@);
    let primary = url_parse_parts(trimmed.as_str());
    let parts = match primary {
        Some(p) => Some(p),
        None => {
            let with_scheme = concat_str("https://", trimmed.as_str());
            url_parse_parts(with_scheme.as_str())
        },
    };
    match parts {
        None => Err(UrlError::Unparseable),
        Some((scheme, host_opt)) => {
            if !str_starts_with(scheme.as_str(), "http") {
                Err(UrlError::UnsupportedScheme)
            } else {
                match host_opt {
                    None => Err(UrlError::MissingHost),
                    Some(host) => Ok(Endpoint { scheme, host }),
                }
            }
        },
    }
}

/// If the host starts with `subdomain.`, drop that label and report `true`;
/// otherwise leave the endpoint unchanged and report `false`.
pub fn remove_subdomain(input: &mut Endpoint, subdomain: &str) -> (r: bool)
    ensures
        ({
            let needle = subdomain@ + "."@;
            if spec_starts_with(old(input)@.host, needle) {
                &&& r
                &&& final(input)@.host == old(input)@.host.skip(needle.len() as int)
                &&& final(input)@.scheme == old(input)@.scheme
            } else {
                &&& !r
                &&& final(input)@ == old(input)@
            }
        }),
{
    let needle = concat_str(subdomain, ".");
    if str_starts_with(input.host.as_str(), needle.as_str()) {
        let host_len = input.host.unicode_len();
        let needle_len = needle.unicode_len();
        let new_host = substring(input.host.as_str(), needle_len, host_len);
        proof {
            assert(input.host@.subrange(needle@.len() as int, input.host@.len() as int)
                =~= input.host@.skip(needle@.len() as int));
        }
        input.host = new_host;
        true
    } else {
        false
    }
}

/// A new endpoint whose host carries `subdomain.` in front, same scheme.
pub fn prepend_subdomain(input: &Endpoint, subdomain: &str) -> (r: Endpoint)
    ensures
        r@.scheme == input@.scheme,
        r@.host == subdomain@ + "."@ + input@.host,
{
    let mut host = concat_str(subdomain, ".");
    host.append(input.host.as_str());
    Endpoint { scheme: input.scheme.clone(), host }
}

} // verus!
