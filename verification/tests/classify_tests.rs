use cargo_ci::classify::{is_cargo_subcommand, is_whitespace_char};

const LISTING: &str = "Installed Commands:\n    build                Compile a local package\n    check                Check a local package\n    clippy\n";

#[test]
fn listed_name_is_managed() {
    assert!(is_cargo_subcommand("build", LISTING));
    assert!(is_cargo_subcommand("check", LISTING));
    assert!(is_cargo_subcommand("clippy", LISTING));
}

#[test]
fn unlisted_name_is_not_managed() {
    assert!(!is_cargo_subcommand("echo", LISTING));
    assert!(!is_cargo_subcommand("bui", LISTING));
    assert!(!is_cargo_subcommand("builds", LISTING));
}

#[test]
fn header_line_is_discarded() {
    assert!(!is_cargo_subcommand("Installed", LISTING));
    assert!(!is_cargo_subcommand("Installed", "Installed\n"));
}

#[test]
fn only_first_token_of_a_line_counts() {
    assert!(!is_cargo_subcommand("Compile", LISTING));
    assert!(!is_cargo_subcommand("Check", LISTING));
}

#[test]
fn empty_listing_reports_nothing() {
    assert!(!is_cargo_subcommand("build", ""));
    assert!(!is_cargo_subcommand("", ""));
}

#[test]
fn blank_lines_yield_no_candidate() {
    assert!(!is_cargo_subcommand("", "header\n\n   \nbuild\n"));
    assert!(is_cargo_subcommand("build", "header\n\n   \nbuild\n"));
}

#[test]
fn listing_without_trailing_newline_still_matches() {
    assert!(is_cargo_subcommand("fmt", "Installed Commands:\n    fmt"));
}

#[test]
fn whitespace_set_matches_unicode_white_space() {
    for c in [' ', '\t', '\n', '\r', '\u{000B}', '\u{2028}', '\u{3000}'] {
        assert!(is_whitespace_char(c));
        assert!(c.is_whitespace());
    }
    for c in ['a', '0', '-', '_', '\u{200B}'] {
        assert!(!is_whitespace_char(c));
        assert!(!c.is_whitespace());
    }
}
