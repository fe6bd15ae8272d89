use simple_crate::utils::Config;
use simple_crate::utils::format_name;

#[test]
fn format_name_trims_and_lowercases() {
    assert_eq!(format_name("  Bob  "), "bob");
}

#[test]
fn format_name_lowercases_without_whitespace() {
    assert_eq!(format_name("ALICE"), "alice");
}

#[test]
fn format_name_of_empty_is_empty() {
    assert_eq!(format_name(""), "");
}

#[test]
fn format_name_of_whitespace_only_is_empty() {
    assert_eq!(format_name("   "), "");
}

#[test]
fn config_default_values() {
    let config = Config::default();
    assert_eq!(config.max_users, 100);
    assert_eq!(config.timeout_ms, 5000);
}
