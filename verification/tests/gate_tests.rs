use cargo_ci::gate::{needs_identity, should_run, starts_with, VersionFilter};

#[test]
fn only_matching_prefix_runs() {
    let filter = VersionFilter::Only(String::from("1.31"));
    assert!(should_run(&filter, "1.31.0-x86_64-unknown-linux-gnu"));
}

#[test]
fn only_exact_identity_runs() {
    let filter = VersionFilter::Only(String::from("stable"));
    assert!(should_run(&filter, "stable"));
}

#[test]
fn only_mismatched_prefix_does_not_run() {
    let filter = VersionFilter::Only(String::from("nightly"));
    assert!(!should_run(&filter, "stable-x86_64-unknown-linux-gnu"));
}

#[test]
fn only_longer_pattern_than_identity_does_not_run() {
    let filter = VersionFilter::Only(String::from("stable-x86_64"));
    assert!(!should_run(&filter, "stable"));
}

#[test]
fn skip_listed_prefix_does_not_run() {
    let filter = VersionFilter::Skip(vec![String::from("beta"), String::from("nightly")]);
    assert!(!should_run(&filter, "nightly-2019-01-01-x86_64"));
}

#[test]
fn skip_first_listed_prefix_does_not_run() {
    let filter = VersionFilter::Skip(vec![String::from("beta"), String::from("nightly")]);
    assert!(!should_run(&filter, "beta-x86_64"));
}

#[test]
fn skip_unlisted_identity_runs() {
    let filter = VersionFilter::Skip(vec![String::from("beta"), String::from("nightly")]);
    assert!(should_run(&filter, "stable-x86_64"));
}

#[test]
fn skip_empty_list_runs() {
    let filter = VersionFilter::Skip(Vec::new());
    assert!(should_run(&filter, "anything-at-all"));
}

#[test]
fn unrestricted_always_runs() {
    assert!(should_run(&VersionFilter::Unrestricted, ""));
    assert!(should_run(&VersionFilter::Unrestricted, "nightly"));
}

#[test]
fn unrestricted_needs_no_identity() {
    assert!(!needs_identity(&VersionFilter::Unrestricted));
    assert!(needs_identity(&VersionFilter::Only(String::from("x"))));
    assert!(needs_identity(&VersionFilter::Skip(Vec::new())));
}

#[test]
fn empty_pattern_is_prefix_of_everything() {
    assert!(starts_with("stable", ""));
    assert!(starts_with("", ""));
}

#[test]
fn prefix_match_is_case_sensitive() {
    assert!(!starts_with("Stable-x86_64", "stable"));
    assert!(starts_with("Stable-x86_64", "Stable"));
}
