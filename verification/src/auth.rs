//! The authentication command's decisions: which profile is being
//! configured, whether an entered API key is acceptable, and the profile a
//! chosen endpoint and key produce. The prompting itself (console input, the
//! hidden key read) happens outside the crate.

use vstd::prelude::*;
use vstd::string::StrSliceExecFns;

use crate::config::Profile;
use crate::endpoint::{Endpoint, EndpointModel, prepend_subdomain, spec_url_string};
use crate::strings::{spec_starts_with, str_starts_with};

verus! {

/// The authentication command: it configures one named profile.
pub struct Auth {
    profile: String,
}

impl View for Auth {
    type V = Seq<char>;

    closed spec fn view(&self) -> Seq<char> {
        self.profile@
    }
}

impl Auth {
    /// Configure credentials for the named profile.
    pub fn new(profile: &str) -> (r: Auth)
        ensures
            r@ == profile@,
    {
        Auth { profile: profile.to_owned() }
    }

    /// The profile this command configures.
    pub fn profile_name(&self) -> (r: &str)
        ensures
            r@ == self@,
    {
        self.profile.as_str()
    }
}

/// An entered API key is stored only when it has exactly 28 characters and
/// starts with `sim`.
pub open spec fn spec_api_key_acceptable(key: Seq<char>) -> bool {
    key.len() == 28 && spec_starts_with(key, "sim"@)
}

/// Is this an API key worth storing?
pub fn api_key_acceptable(key: &str) -> (r: bool)
    ensures
        r == spec_api_key_acceptable(key@),
{
    key.unicode_len() == 28 && str_starts_with(key, "sim")
}

/// The endpoint with one more leading host label.
pub open spec fn spec_with_subdomain(e: EndpointModel, sub: Seq<char>) -> EndpointModel {
    EndpointModel { scheme: e.scheme, host: sub + "."@ + e.host }
}

/// The profile an accepted key and chosen endpoint produce: the API server
/// is the endpoint behind an `api.` label, the git server the endpoint
/// behind a `git.` label.
pub fn profile_for_endpoint(endpoint: &Endpoint, api_key: String) -> (r: Profile)
    ensures
        r@.api_key == api_key@,
        r@.api_server == Some(spec_url_string(spec_with_subdomain(endpoint@, "api"@))),
        r@.git_server == Some(spec_url_string(spec_with_subdomain(endpoint@, "git"@))),
{
    let api_server = prepend_subdomain(endpoint, "api");
    let git_server = prepend_subdomain(endpoint, "git");
    Profile::new(api_key, Some(api_server), Some(git_server))
}

} // verus!
