use delivery::cookbook::{
    bump_commit_message, bump_patchset, bump_version, metadata_file, metadata_version_from, save_version,
    MetadataVersion,
};

#[test]
fn test_metadata_version_constructor() {
    let version_generator = MetadataVersion::new(None, Some(2), None);
    let MetadataVersion { major: ma, minor: mi, patch: pa } = version_generator;
    assert_eq!(ma, 0);
    assert_eq!(mi, 2);
    assert_eq!(pa, 0);
    assert_eq!("0.2.0", &version_generator.to_string());
}

#[test]
fn verify_version_bumping_using_bump_patchset() {
    let version = MetadataVersion { major: 1, minor: 2, patch: 3 };
    let MetadataVersion { major: ma, minor: mi, patch: pa } = bump_patchset(version).unwrap();
    assert_eq!(ma, 1);
    assert_eq!(mi, 2);
    assert_eq!(pa, 4);
}

#[test]
fn return_the_metadata_file_path() {
    assert_eq!(String::from("/cookbook/metadata.rb"), metadata_file("/cookbook"));
}

fn metadata_from_version(version: &str) -> String {
    String::from(["version '", version, "'"].concat())
}

#[test]
fn verify_happy_metadata_version_from_content() {
    let happy_version = "1.2.3";
    let happy = metadata_version_from(&metadata_from_version(happy_version)).unwrap();
    assert_eq!(happy_version, &happy.to_string());

    let valid = metadata_version_from(&metadata_from_version("1.2")).unwrap();
    assert_eq!("1.2.0", &valid.to_string());

    let awesome_version = "123.123.123";
    let awesome = metadata_version_from(&metadata_from_version(awesome_version)).unwrap();
    assert_eq!(awesome_version, &awesome.to_string());
}

#[test]
fn verify_sad_metadata_version_from_content() {
    assert!(metadata_version_from(&metadata_from_version("1..")).is_err());
    assert!(metadata_version_from(&metadata_from_version("1.2.")).is_err());
    assert!(metadata_version_from(&metadata_from_version("")).is_err());
}

#[test]
fn missing_version_is_missing_metadata_version() {
    let e = metadata_version_from("name 'foo'\n").unwrap_err();
    assert!(matches!(e.kind, delivery::errors::Kind::MissingMetadataVersion));
}

#[test]
fn bump_when_versions_match() {
    let current = "name 'a'\nversion '1.2.3'\n";
    let pipeline = "name 'a'\nversion '1.2.3'\n";
    let bumped = bump_version(Some(current), pipeline).unwrap();
    assert_eq!(Some(MetadataVersion { major: 1, minor: 2, patch: 4 }), bumped);
}

#[test]
fn no_bump_when_versions_differ() {
    let current = "version '1.3.0'\n";
    let pipeline = "version '1.2.3'\n";
    assert_eq!(None, bump_version(Some(current), pipeline).unwrap());
}

#[test]
fn saved_version_replaces_the_old_one() {
    let current = "name 'a'\nversion '1.2.3'\n";
    let saved = save_version(current, "1.2.4").unwrap();
    assert_eq!("name 'a'\nversion '1.2.4'\n", saved);
}

#[test]
fn bump_message_names_the_version() {
    assert!(bump_commit_message("1.2.4").contains("1.2.4"));
}

#[test]
fn version_text_round_trip() {
    let v = MetadataVersion::new(Some(3), Some(0), Some(12));
    let back = metadata_version_from(&metadata_from_version(&v.to_string())).unwrap();
    assert_eq!(v, back);
}

#[test]
fn save_version_of_short_declaration() {
    let current = "name 'x'\nversion '1.2'\n";
    let saved = save_version(current, "1.2.1").unwrap();
    assert_eq!(saved, "name 'x'\nversion '1.2.1'\n");
}

#[test]
fn no_bump_without_metadata() {
    assert_eq!(None, bump_version(None, "version '1.2.3'\n").unwrap());
}
