//! The plain-valued hearts of the remaining commands: the clone URL the
//! `clone` command hands to git, the environment the `serve` command exports
//! to the local runner, and the destination the `download` command resolves.

use vstd::prelude::*;
use vstd::string::StringExecFns;

use crate::config::{Profile, ProfileModel, spec_git_server};
use crate::paths::{spec_resolved_dest, resolve_download_dest};

verus! {

/// The `clone` command: a thin front-end over `git clone` against the
/// profile's git server.
pub struct GitClone {
    profile: Profile,
}

impl View for GitClone {
    type V = ProfileModel;

    closed spec fn view(&self) -> ProfileModel {
        self.profile@
    }
}

impl GitClone {
    /// A clone command running against `profile`'s git server.
    pub fn new(profile: Profile) -> (r: GitClone)
        ensures
            r@ == profile@,
    {
        GitClone { profile }
    }

    /// The repository URL handed to `git clone` for `algo` (written
    /// `USERNAME/ALGONAME`): `<git server>/git/<algo>.git`.
    pub fn clone_url(&self, algo: &str) -> (r: String)
        ensures
            r@ == spec_git_server(self@) + "/git/"@ + algo@ + ".git"@,
    {
        let mut url = self.profile.git_server();
        url.append("/git/");
        url.append(algo);
        url.append(".git");
        url
    }
}

/// What the `serve` command exports to the local algorithm runner's
/// environment: the profile's API server override, if any, and its key.
pub struct Serve {
    api_server: Option<String>,
    api_key: String,
}

/// The abstract value of a [`Serve`] command.
pub struct ServeModel {
    /// The API server override to export, if the profile has one.
    pub api_server: Option<Seq<char>>,
    /// The API key to export.
    pub api_key: Seq<char>,
}

impl View for Serve {
    type V = ServeModel;

    closed spec fn view(&self) -> ServeModel {
        ServeModel { api_server: self.api_server.deep_view(), api_key: self.api_key@ }
    }
}

impl Serve {
    /// The environment a serve of `profile` runs under.
    pub fn new(profile: Profile) -> (r: Serve)
        ensures
            r@.api_server == profile@.api_server,
            r@.api_key == profile@.api_key,
    {
        let api_server = match profile.stored_api_server() {
            Some(api) => Some(api.clone()),
            None => None,
        };
        let api_key = profile.api_key().to_owned();
        let r = Serve { api_server, api_key };
        proof {
            assert(r@.api_server == profile@.api_server);
        }
        r
    }

    /// The API server override to export, if any.
    pub fn api_server(&self) -> (r: &Option<String>)
        ensures
            r.deep_view() == self@.api_server,
    {
        &self.api_server
    }

    /// The API key to export.
    pub fn api_key(&self) -> (r: &str)
        ensures
            r@ == self@.api_key,
    {
        self.api_key.as_str()
    }
}

/// The `download` command: one remote file, an optional local destination.
pub struct Download {
    remote: String,
    local: Option<String>,
}

/// The abstract value of a [`Download`] command.
pub struct DownloadModel {
    /// The remote path to fetch.
    pub remote: Seq<char>,
    /// The local destination, if one was given.
    pub local: Option<Seq<char>>,
}

impl View for Download {
    type V = DownloadModel;

    closed spec fn view(&self) -> DownloadModel {
        DownloadModel { remote: self.remote@, local: self.local.deep_view() }
    }
}

/// The local destination a download writes towards: the given one, or the
/// working directory.
pub open spec fn spec_local_dest(m: DownloadModel) -> Seq<char> {
    match m.local {
        Some(l) => l,
        None => "."@,
    }
}

impl Download {
    /// A download of `remote` towards `local` (the working directory when
    /// absent).
    pub fn new(remote: String, local: Option<String>) -> (r: Download)
        ensures
            r@.remote == remote@,
            r@.local == local.deep_view(),
    {
        Download { remote, local }
    }

    /// The remote path to fetch.
    pub fn remote(&self) -> (r: &str)
        ensures
            r@ == self@.remote,
    {
        self.remote.as_str()
    }

    /// The local destination path string.
    pub fn local_dest(&self) -> (r: &str)
        ensures
            r@ == spec_local_dest(self@),
    {
        match &self.local {
            Some(l) => l.as_str(),
            None => ".",
        }
    }

    /// The local file this download writes, given whether the destination
    /// names an existing directory.
    pub fn resolved_dest(&self, dest_is_dir: bool) -> (r: String)
        ensures
            r@ == spec_resolved_dest(spec_local_dest(self@), dest_is_dir, self@.remote),
    {
        resolve_download_dest(self.local_dest(), dest_is_dir, self.remote.as_str())
    }
}

} // verus!
