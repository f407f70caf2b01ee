use opentempus::ics::tz::{resolve, windows_to_iana};

#[test]
fn resolves_iana_windows_and_prefixed_names() {
    assert_eq!(resolve("Europe/Amsterdam").as_deref(), Some("Europe/Amsterdam"));
    assert_eq!(resolve("W. Europe Standard Time").as_deref(), Some("Europe/Berlin"));
    assert_eq!(resolve("/mozilla.org/20050126_1/Europe/Amsterdam").as_deref(), Some("Europe/Amsterdam"));
    assert_eq!(resolve("Nowhere/Land"), None);
}

#[test]
fn quoted_and_padded_names_resolve() {
    assert_eq!(resolve("  \"America/New_York\" ").as_deref(), Some("America/New_York"));
}

#[test]
fn windows_table_maps_known_names() {
    assert_eq!(windows_to_iana("GMT"), Some("UTC"));
    assert_eq!(windows_to_iana("Romance Standard Time"), Some("Europe/Paris"));
    assert_eq!(windows_to_iana("Atlantis Standard Time"), None);
}
