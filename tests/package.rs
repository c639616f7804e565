use debmagic::package::{EntryVersion, PackageDescription, PackageError};

#[test]
fn entry_becomes_a_package() {
    let p = PackageDescription::from_entry(
        Some("hello".to_string()),
        Some(EntryVersion {
            epoch: Some(2),
            upstream_version: "1.0".to_string(),
            debian_revision: Some("3".to_string()),
        }),
        "/src/hello",
    )
    .unwrap();
    assert_eq!(p.name, "hello");
    assert_eq!(p.version.version(), "2:1.0-3");
    assert_eq!(p.source_dir, "/src/hello");
    let q = PackageDescription::from_entry(
        Some("hello".to_string()),
        Some(EntryVersion { epoch: None, upstream_version: "1.0".to_string(), debian_revision: None }),
        "/s",
    )
    .unwrap();
    assert_eq!(q.version.version(), "1.0");
}

#[test]
fn entry_without_name_or_version_is_refused() {
    assert_eq!(
        PackageDescription::from_entry(None, None, "/s").unwrap_err(),
        PackageError::MissingName
    );
    assert_eq!(
        PackageDescription::from_entry(Some("x".to_string()), None, "/s").unwrap_err(),
        PackageError::MissingVersion
    );
}
