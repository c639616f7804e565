use std::str::FromStr;

use debmagic::version::PackageVersion;

fn check(version: &str, epoch: &str, upstream: &str, revision: &str) {
    let parsed_version = PackageVersion::from_str(version).unwrap();
    let expected = PackageVersion::new(epoch.to_string(), upstream.to_string(), revision.to_string());
    assert_eq!(parsed_version, expected);
    assert_eq!(parsed_version.version(), version);
}

#[test]
fn version_without_epoch_keeps_hyphens_in_upstream() {
    check("1.2.3a.4-42.2-14ubuntu2~20.04.1", "0", "1.2.3a.4-42.2", "14ubuntu2~20.04.1");
}

#[test]
fn version_with_epoch_and_hyphenated_upstream() {
    check("3:1.2.3a.4-42.2-14ubuntu2~20.04.1", "3", "1.2.3a.4-42.2", "14ubuntu2~20.04.1");
}

#[test]
fn version_with_epoch_and_no_revision() {
    check("3:1.2.3a.4ubuntu", "3", "1.2.3a.4ubuntu", "");
}

#[test]
fn version_with_epoch_and_revision() {
    check("3:1.2.3a-4ubuntu", "3", "1.2.3a", "4ubuntu");
}

#[test]
fn version_with_epoch_and_numbered_revision() {
    check("3:1.2.3a-4ubuntu1", "3", "1.2.3a", "4ubuntu1");
}

#[test]
fn parse_agrees_with_from_str() {
    assert_eq!(
        PackageVersion::parse("2:0.9-1").unwrap(),
        PackageVersion::new("2".to_string(), "0.9".to_string(), "1".to_string())
    );
}

#[test]
fn epoch_upstream_and_upstream_revision() {
    let v = PackageVersion::new("3".to_string(), "1.2".to_string(), "4".to_string());
    assert_eq!(v.epoch_upstream(), "3:1.2");
    assert_eq!(v.upstream_revision(), "1.2-4");
    let bare = PackageVersion::new("".to_string(), "1.2".to_string(), "".to_string());
    assert_eq!(bare.epoch_upstream(), "1.2");
    assert_eq!(bare.upstream_revision(), "1.2");
}

#[test]
fn version_leaves_out_zero_epoch_and_empty_revision() {
    let v = PackageVersion::new("0".to_string(), "5.1".to_string(), "".to_string());
    assert_eq!(v.version(), "5.1");
}
