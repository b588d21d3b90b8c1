use driad::manifest::{FetchMetadataError, ManifestDefect, Metadata};
use driad::version::{ParseVersionError, Version};

fn good_manifest() -> &'static str {
    "name = \"sample\"\nauthors = [\"ada\", \"grace\"]\nversion = \"1.2.3\"\n"
}

#[test]
fn decodes_well_formed_manifest() {
    let m = Metadata::from_toml(good_manifest()).unwrap();
    assert_eq!(m.name, "sample");
    assert_eq!(m.authors, vec!["ada".to_string(), "grace".to_string()]);
    assert_eq!(m.version, Version::new(1, 2, 3));
}

#[test]
fn rejects_unparsable_toml() {
    let r = Metadata::from_toml("name = \"unclosed");
    match r {
        Err(FetchMetadataError::ManifestMalformed(ManifestDefect::Unparsable(msg))) => {
            assert!(!msg.is_empty());
        },
        _ => panic!("expected an unparsable-manifest defect"),
    }
}

#[test]
fn rejects_missing_name() {
    let r = Metadata::from_toml("authors = [\"ada\"]\nversion = \"1.2.3\"\n");
    assert!(matches!(
        r,
        Err(FetchMetadataError::ManifestMalformed(ManifestDefect::MissingName))
    ));
}

#[test]
fn rejects_non_string_name() {
    let r = Metadata::from_toml("name = 3\nauthors = [\"ada\"]\nversion = \"1.2.3\"\n");
    assert!(matches!(
        r,
        Err(FetchMetadataError::ManifestMalformed(ManifestDefect::MissingName))
    ));
}

#[test]
fn rejects_missing_authors() {
    let r = Metadata::from_toml("name = \"sample\"\nversion = \"1.2.3\"\n");
    assert!(matches!(
        r,
        Err(FetchMetadataError::ManifestMalformed(ManifestDefect::MissingAuthors))
    ));
}

#[test]
fn rejects_empty_authors() {
    let r = Metadata::from_toml("name = \"sample\"\nauthors = []\nversion = \"1.2.3\"\n");
    assert!(matches!(
        r,
        Err(FetchMetadataError::ManifestMalformed(ManifestDefect::EmptyAuthors))
    ));
}

#[test]
fn rejects_non_string_author() {
    let r = Metadata::from_toml("name = \"sample\"\nauthors = [\"ada\", 7]\nversion = \"1.2.3\"\n");
    assert!(matches!(
        r,
        Err(FetchMetadataError::ManifestMalformed(ManifestDefect::NonStringAuthor))
    ));
}

#[test]
fn rejects_missing_version() {
    let r = Metadata::from_toml("name = \"sample\"\nauthors = [\"ada\"]\n");
    assert!(matches!(
        r,
        Err(FetchMetadataError::ManifestMalformed(ManifestDefect::MissingVersion))
    ));
}

#[test]
fn rejects_malformed_version_field() {
    let r = Metadata::from_toml("name = \"s\"\nauthors = [\"a\"]\nversion = \"1.2\"\n");
    assert!(matches!(
        r,
        Err(FetchMetadataError::ManifestMalformed(ManifestDefect::BadVersion(
            ParseVersionError::WrongLength,
        )))
    ));
    let r = Metadata::from_toml("name = \"s\"\nauthors = [\"a\"]\nversion = \"1.x.3\"\n");
    assert!(matches!(
        r,
        Err(FetchMetadataError::ManifestMalformed(ManifestDefect::BadVersion(
            ParseVersionError::ParseIntError,
        )))
    ));
}

#[test]
fn describe_renders_name_authors_and_version() {
    let m = Metadata::from_toml(good_manifest()).unwrap();
    assert_eq!(
        m.describe(),
        "Name: sample\nAuthors:\n - ada\n - grace\nVersion 1.2.3"
    );
}

#[test]
fn describe_with_single_author() {
    let m = Metadata {
        name: "solo".to_string(),
        authors: vec!["lin".to_string()],
        version: Version::new(10, 0, 1),
    };
    assert_eq!(m.describe(), "Name: solo\nAuthors:\n - lin\nVersion 10.0.1");
}

#[test]
fn manifest_lookup_finds_first_recognized_name() {
    let entries = vec![
        "readme.md".to_string(),
        "MetaData.TOML".to_string(),
        "data.toml".to_string(),
    ];
    assert_eq!(driad::manifest::manifest_entry_index(&entries).unwrap(), 1);
}

#[test]
fn manifest_lookup_is_case_insensitive() {
    let entries = vec!["DATA.toml".to_string()];
    assert_eq!(driad::manifest::manifest_entry_index(&entries).unwrap(), 0);
    let entries = vec!["META.TOML".to_string()];
    assert_eq!(driad::manifest::manifest_entry_index(&entries).unwrap(), 0);
}

#[test]
fn manifest_lookup_reports_not_found() {
    let entries = vec!["main.lua".to_string(), "readme.md".to_string()];
    assert!(matches!(
        driad::manifest::manifest_entry_index(&entries),
        Err(FetchMetadataError::ManifestNotFound)
    ));
}

#[test]
fn manifest_lookup_ignores_similar_names() {
    let entries = vec!["metadata.toml.bak".to_string(), "xmetadata.toml".to_string()];
    assert!(matches!(
        driad::manifest::manifest_entry_index(&entries),
        Err(FetchMetadataError::ManifestNotFound)
    ));
}
