//! Profiles, the configuration map, and the commands built over them.

use algorithmia_cli::auth::{api_key_acceptable, profile_for_endpoint, Auth};
use algorithmia_cli::commands::{Download, GitClone, Serve};
use algorithmia_cli::config::{default_endpoint, Config, Profile};
use algorithmia_cli::endpoint::Endpoint;

fn endpoint(scheme: &str, host: &str) -> Endpoint {
    Endpoint::new(scheme.to_string(), host.to_string())
}

#[test]
fn profile_stores_rendered_endpoints() {
    let p = Profile::new(
        "sim-test-key".to_string(),
        Some(endpoint("https", "api.example.com")),
        Some(endpoint("https", "git.example.com")),
    );
    assert_eq!(p.api_server(), "https://api.example.com");
    assert_eq!(p.git_server(), "https://git.example.com");
    assert_eq!(p.api_key(), "sim-test-key");
}

#[test]
fn profile_defaults_when_nothing_is_stored() {
    let p = Profile::new("k".to_string(), None, None);
    assert_eq!(p.api_server(), "https://api.algorithmia.com");
    assert_eq!(p.git_server(), "https://git.algorithmia.com");
}

#[test]
fn git_server_is_derived_from_the_api_server() {
    let p = Profile::new(
        "k".to_string(),
        Some(endpoint("https", "api.example.com")),
        None,
    );
    assert_eq!(p.git_server(), "https://git.example.com");
}

#[test]
fn git_server_falls_back_without_an_api_label() {
    let p = Profile::new(
        "k".to_string(),
        Some(endpoint("https", "example.com")),
        None,
    );
    assert_eq!(p.git_server(), "https://git.algorithmia.com");
}

#[test]
fn config_stores_and_replaces_profiles() {
    let mut config = Config::default();
    assert!(config.get_profile("default").is_none());

    config.update_profile(
        "default".to_string(),
        Profile::new("first-key".to_string(), None, None),
    );
    config.update_profile(
        "work".to_string(),
        Profile::new("work-key".to_string(), None, None),
    );
    assert_eq!(config.get_profile("default").unwrap().api_key(), "first-key");
    assert_eq!(config.get_profile("work").unwrap().api_key(), "work-key");
    assert!(config.get_profile("other").is_none());

    config.update_profile(
        "default".to_string(),
        Profile::new("second-key".to_string(), None, None),
    );
    assert_eq!(config.get_profile("default").unwrap().api_key(), "second-key");
    assert_eq!(config.entries().len(), 2);
}

#[test]
fn lookup_clones_the_stored_profile() {
    let mut config = Config::default();
    config.update_profile(
        "default".to_string(),
        Profile::new("key".to_string(), None, None),
    );
    let found = Profile::lookup(&Some(config), "default").unwrap();
    assert_eq!(found.api_key(), "key");
    assert!(Profile::lookup(&None, "default").is_none());
}

#[test]
fn auth_names_its_profile() {
    let auth = Auth::new("work");
    assert_eq!(auth.profile_name(), "work");
}

#[test]
fn api_keys_must_look_right() {
    assert!(api_key_acceptable("sim1234567890abcdef123456789"));
    assert!(!api_key_acceptable("sim123"));
    assert!(!api_key_acceptable("key1234567890abcdef123456789"));
    assert!(!api_key_acceptable("sim1234567890abcdef1234567890"));
}

#[test]
fn accepted_key_and_endpoint_make_a_profile() {
    let p = profile_for_endpoint(&default_endpoint(), "sim-test-key".to_string());
    assert_eq!(p.api_server(), "https://api.algorithmia.com");
    assert_eq!(p.git_server(), "https://git.algorithmia.com");
    assert_eq!(p.api_key(), "sim-test-key");
}

#[test]
fn clone_url_is_built_from_the_git_server() {
    let clone = GitClone::new(Profile::new("k".to_string(), None, None));
    assert_eq!(
        clone.clone_url("anowell/Pinky"),
        "https://git.algorithmia.com/git/anowell/Pinky.git"
    );
}

#[test]
fn serve_exports_the_profile_environment() {
    let serve = Serve::new(Profile::new(
        "key".to_string(),
        Some(endpoint("https", "api.example.com")),
        None,
    ));
    assert_eq!(
        serve.api_server().as_deref(),
        Some("https://api.example.com")
    );
    assert_eq!(serve.api_key(), "key");

    let bare = Serve::new(Profile::new("key".to_string(), None, None));
    assert!(bare.api_server().is_none());
}

#[test]
fn download_defaults_to_the_working_directory() {
    let d = Download::new("data://dir/report.csv".to_string(), None);
    assert_eq!(d.local_dest(), ".");
    assert_eq!(d.resolved_dest(true), "./report.csv");

    let named = Download::new(
        "data://dir/report.csv".to_string(),
        Some("./out/renamed.csv".to_string()),
    );
    assert_eq!(named.local_dest(), "./out/renamed.csv");
    assert_eq!(named.resolved_dest(false), "./out/renamed.csv");
    assert_eq!(named.remote(), "data://dir/report.csv");
}
