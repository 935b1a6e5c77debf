//! Profiles and the configuration that stores them. A profile names the API
//! and git servers to talk to and the key to authenticate with; the
//! configuration is a map from profile name to profile. Reading and writing
//! the configuration file is the surrounding program's job — this module owns
//! the values and the rules over them, including the derivation of the git
//! server from the API server.

use vstd::prelude::*;
use vstd::string::StringExecFns;

use crate::endpoint::{Endpoint, spec_url_string};
use crate::strings::{spec_contains, spec_replace, str_contains, str_eq, replace_all};

verus! {

/// One named credential set: optional server overrides and the API key.
pub struct Profile {
    api_server: Option<String>,
    git_server: Option<String>,
    api_key: String,
}

/// The abstract value of a [`Profile`].
pub struct ProfileModel {
    /// The stored API server URL, if the profile overrides the default.
    pub api_server: Option<Seq<char>>,
    /// The stored git server URL, if the profile overrides the derived one.
    pub git_server: Option<Seq<char>>,
    /// The API key.
    pub api_key: Seq<char>,
}

impl View for Profile {
    type V = ProfileModel;

    closed spec fn view(&self) -> ProfileModel {
        ProfileModel {
            api_server: self.api_server.deep_view(),
            git_server: self.git_server.deep_view(),
            api_key: self.api_key@,
        }
    }
}

/// The default API server, used when a profile stores no override.
pub fn default_api_server() -> (r: &'static str)
    ensures
        r@ == "https://api.algorithmia.com"@,
{
    "https://api.algorithmia.com"
}

/// The default git server, used when none can be derived.
pub fn default_git_server() -> (r: &'static str)
    ensures
        r@ == "https://git.algorithmia.com"@,
{
    "https://git.algorithmia.com"
}

/// The default endpoint a blank console answer stands for.
pub fn default_endpoint() -> (r: Endpoint)
    ensures
        r@.scheme == "https"@,
        r@.host == "algorithmia.com"@,
{
    Endpoint::new(String::from_str("https"), String::from_str("algorithmia.com"))
}

/// The API server a profile answers with: its stored override, or the
/// default.
pub open spec fn spec_api_server(m: ProfileModel) -> Seq<char> {
    match m.api_server {
        Some(api) => api,
        None => "https://api.algorithmia.com"@,
    }
}

/// The git server a profile answers with: its stored override; otherwise the
/// API server with its `api.` label rewritten to `git.` when it has one;
/// otherwise the default.
pub open spec fn spec_git_server(m: ProfileModel) -> Seq<char> {
    match m.git_server {
        Some(git) => git,
        None => match m.api_server {
            Some(api) => if spec_contains(api, "//api"@) {
                spec_replace(api, "//api."@, "//git."@)
            } else {
                "https://git.algorithmia.com"@
            },
            None => "https://git.algorithmia.com"@,
        },
    }
}

impl Profile {
    /// A profile from an API key and optional endpoint overrides; the
    /// endpoints are stored in their `scheme://host` serialization.
    pub fn new(api_key: String, api_server: Option<Endpoint>, git_server: Option<Endpoint>) -> (r:
        Profile)
        ensures
            r@.api_key == api_key@,
            r@.api_server == match api_server {
                Some(e) => Some(spec_url_string(e@)),
                None => None::<Seq<char>>,
            },
            r@.git_server == match git_server {
                Some(e) => Some(spec_url_string(e@)),
                None => None::<Seq<char>>,
            },
    {
        Profile {
            api_server: match &api_server {
                Some(e) => Some(e.to_url_string()),
                None => None,
            },
            git_server: match &git_server {
                Some(e) => Some(e.to_url_string()),
                None => None,
            },
            api_key,
        }
    }

    /// The API server to talk to.
    pub fn api_server(&self) -> (r: &str)
        ensures
            r@ == spec_api_server(self@),
    {
        match &self.api_server {
            Some(api) => api.as_str(),
            None => default_api_server(),
        }
    }

    /// The git server to talk to.
    pub fn git_server(&self) -> (r: String)
        ensures
            r@ == spec_git_server(self@),
    {
        match &self.git_server {
            Some(git) => git.clone(),
            None => match &self.api_server {
                Some(api) => {
                    if str_contains(api.as_str(), "//api") {
                        proof {
                            reveal_strlit("//api.");
                        }
                        replace_all(api.as_str(), "//api.", "//git.")
                    } else {
                        default_git_server().to_owned()
                    }
                },
                None => default_git_server().to_owned(),
            },
        }
    }

    /// The API key.
    pub fn api_key(&self) -> (r: &str)
        ensures
            r@ == self@.api_key,
    {
        self.api_key.as_str()
    }

    /// The stored API server override, as the configuration file keeps it.
    pub fn stored_api_server(&self) -> (r: &Option<String>)
        ensures
            r.deep_view() == self@.api_server,
    {
        &self.api_server
    }

    /// The stored git server override, as the configuration file keeps it.
    pub fn stored_git_server(&self) -> (r: &Option<String>)
        ensures
            r.deep_view() == self@.git_server,
    {
        &self.git_server
    }
}

impl Clone for Profile {
    /// A copy with the same stored servers and key.
    fn clone(&self) -> (r: Self)
        ensures
            r@ == self@,
    {
        let r = Profile {
            api_server: match &self.api_server {
                Some(api) => Some(api.clone()),
                None => None,
            },
            git_server: match &self.git_server {
                Some(git) => Some(git.clone()),
                None => None,
            },
            api_key: self.api_key.clone(),
        };
        proof {
            assert(r@.api_server == self@.api_server);
            assert(r@.git_server == self@.git_server);
        }
        r
    }
}

/// The named profiles a configuration file holds, as a map from profile name
/// to profile value.
pub struct Config {
    profiles: Vec<(String, Profile)>,
}

/// The map an entry list denotes; a later entry for the same name wins.
pub open spec fn entries_to_map(entries: Seq<(String, Profile)>) -> Map<Seq<char>, ProfileModel>
    decreases entries.len(),
{
    if entries.len() == 0 {
        Map::empty()
    } else {
        entries_to_map(entries.drop_last()).insert(entries.last().0@, entries.last().1@)
    }
}

/// No two entries share a name.
pub open spec fn unique_names(entries: Seq<(String, Profile)>) -> bool {
    forall|i: int, j: int|
        0 <= i < j < entries.len() ==> (#[trigger] entries[i]).0@ != (#[trigger] entries[j]).0@
}

proof fn lemma_entries_to_map_no_key(entries: Seq<(String, Profile)>, name: Seq<char>)
    requires
        forall|i: int| 0 <= i < entries.len() ==> (#[trigger] entries[i]).0@ != name,
    ensures
        !entries_to_map(entries).contains_key(name),
    decreases entries.len(),
{
    if entries.len() > 0 {
        lemma_entries_to_map_no_key(entries.drop_last(), name);
    }
}

proof fn lemma_entries_to_map_found(entries: Seq<(String, Profile)>, i: int)
    requires
        unique_names(entries),
        0 <= i < entries.len(),
    ensures
        entries_to_map(entries).contains_key(entries[i].0@),
        entries_to_map(entries)[entries[i].0@] == entries[i].1@,
    decreases entries.len(),
{
    if i == entries.len() - 1 {
    } else {
        lemma_entries_to_map_found(entries.drop_last(), i);
        assert(entries.last().0@ != entries[i].0@);
    }
}

proof fn lemma_entries_to_map_update(entries: Seq<(String, Profile)>, i: int, entry: (
    String,
    Profile,
))
    requires
        unique_names(entries),
        0 <= i < entries.len(),
        entries[i].0@ == entry.0@,
    ensures
        entries_to_map(entries.update(i, entry)) =~= entries_to_map(entries).insert(
            entry.0@,
            entry.1@,
        ),
    decreases entries.len(),
{
    let updated = entries.update(i, entry);
    if i == entries.len() - 1 {
        assert(updated.drop_last() =~= entries.drop_last());
    } else {
        assert(updated.last() == entries.last());
        assert(updated.drop_last() =~= entries.drop_last().update(i, entry));
        lemma_entries_to_map_update(entries.drop_last(), i, entry);
        assert(entries.last().0@ != entry.0@);
    }
}

impl View for Config {
    type V = Map<Seq<char>, ProfileModel>;

    closed spec fn view(&self) -> Map<Seq<char>, ProfileModel> {
        entries_to_map(self.profiles@)
    }
}

impl Config {
    /// Names of entries stay distinct; established at construction, kept by
    /// every update.
    pub closed spec fn wf(self) -> bool {
        unique_names(self.profiles@)
    }

    /// Add or replace the profile stored under `name`.
    pub fn update_profile(&mut self, name: String, value: Profile)
        requires
            old(self).wf(),
        ensures
            final(self).wf(),
            final(self)@ == old(self)@.insert(name@, value@),
    {
        let ghost entries = self.profiles@;
        let mut i: usize = 0;
        while i < self.profiles.len()
            invariant
                i <= self.profiles.len(),
                entries == self.profiles@,
                unique_names(entries),
                old(self)@ == entries_to_map(entries),
                forall|j: int| 0 <= j < i ==> (#[trigger] entries[j]).0@ != name@,
            decreases self.profiles.len() - i,
        {
            if str_eq(self.profiles[i].0.as_str(), name.as_str()) {
                proof {
                    lemma_entries_to_map_update(entries, i as int, (name, value));
                }
                self.profiles[i] = (name, value);
                proof {
                    assert forall|a: int, b: int|
                        0 <= a < b < self.profiles@.len() implies (#[trigger] self.profiles@[a]).0@
                        != (#[trigger] self.profiles@[b]).0@ by {
                        assert(entries[a].0@ != entries[b].0@);
                        assert(self.profiles@[a].0@ == entries[a].0@);
                        assert(self.profiles@[b].0@ == entries[b].0@);
                    }
                }
                return ;
            }
            i += 1;
        }
        proof {
            lemma_entries_to_map_no_key(entries, name@);
        }
        self.profiles.push((name, value));
        proof {
            assert(self.profiles@.drop_last() =~= entries);
            assert(entries_to_map(self.profiles@) =~= entries_to_map(entries).insert(
                self.profiles@.last().0@,
                self.profiles@.last().1@,
            ));
            assert(self@ =~= old(self)@.insert(name@, value@));
        }
    }

    /// The profile stored under `name`, if there is one.
    pub fn get_profile(&self, name: &str) -> (r: Option<&Profile>)
        requires
            self.wf(),
        ensures
            match r {
                Some(p) => self@.contains_key(name@) && p@ == self@[name@],
                None => !self@.contains_key(name@),
            },
    {
        let mut i: usize = 0;
        while i < self.profiles.len()
            invariant
                self.wf(),
                i <= self.profiles.len(),
                forall|j: int| 0 <= j < i ==> (#[trigger] self.profiles@[j]).0@ != name@,
            decreases self.profiles.len() - i,
        {
            if str_eq(self.profiles[i].0.as_str(), name) {
                proof {
                    lemma_entries_to_map_found(self.profiles@, i as int);
                }
                return Some(&self.profiles[i].1);
            }
            i += 1;
        }
        proof {
            lemma_entries_to_map_no_key(self.profiles@, name@);
        }
        None
    }

    /// The stored profiles as `(name, profile)` pairs, for serialization:
    /// each pair is one binding of the map, names are distinct.
    pub fn entries(&self) -> (r: &Vec<(String, Profile)>)
        requires
            self.wf(),
        ensures
            forall|i: int|
                0 <= i < r@.len() ==> self@.contains_key((#[trigger] r@[i]).0@) && self@[r@[i].0@]
                    == r@[i].1@,
            forall|i: int, j: int|
                0 <= i < j < r@.len() ==> (#[trigger] r@[i]).0@ != (#[trigger] r@[j]).0@,
    {
        proof {
            assert forall|i: int|
                0 <= i < self.profiles@.len() implies self@.contains_key(
                (#[trigger] self.profiles@[i]).0@,
            ) && self@[self.profiles@[i].0@] == self.profiles@[i].1@ by {
                lemma_entries_to_map_found(self.profiles@, i);
            }
        }
        &self.profiles
    }
}

impl Default for Config {
    /// A configuration with no profiles.
    fn default() -> (r: Config)
        ensures
            r.wf(),
            r@ == Map::<Seq<char>, ProfileModel>::empty(),
    {
        Config { profiles: Vec::new() }
    }
}

impl Profile {
    /// The profile stored under `name` in a configuration that may not have
    /// been readable, as an owned value: `None` when there is no
    /// configuration or no such profile.
    pub fn lookup(config: &Option<Config>, name: &str) -> (r: Option<Profile>)
        requires
            config matches Some(c) ==> c.wf(),
        ensures
            match r {
                Some(p) => {
                    &&& config matches Some(c)
                    &&& c@.contains_key(name@)
                    &&& p@ == c@[name@]
                },
                None => config matches Some(c) ==> !c@.contains_key(name@),
            },
    {
        match config {
            Some(c) => match c.get_profile(name) {
                Some(p) => Some(p.clone()),
                None => None,
            },
            None => None,
        }
    }
}

} // verus!
