use audiobook_forge::audible::MetadataSource;
use audiobook_forge::catalogue_text::{clean_sequence, detect_asin};
use audiobook_forge::extraction::{extract_from_filename, CurrentMetadata};

#[test]
fn test_asin_detection() {
    assert_eq!(detect_asin("Book Title [B002V5D7RU]"), Some("B002V5D7RU".to_string()));
    assert_eq!(detect_asin("B002V5D7RU - Book Title"), Some("B002V5D7RU".to_string()));
    assert_eq!(detect_asin("Project Hail Mary [B00G3L6JMS].m4b"), Some("B00G3L6JMS".to_string()));
    assert_eq!(detect_asin("No ASIN Here"), None);
    assert_eq!(detect_asin("Invalid B12345"), None);
}

#[test]
fn test_asin_detection_patterns() {
    assert_eq!(detect_asin("xB002V5D7RU"), None);
    assert_eq!(detect_asin("B002V5D7RUX"), None);
    assert_eq!(detect_asin("B002V5D7RU_"), None);
    assert_eq!(detect_asin("a B002v5D7RU b"), None);
    assert_eq!(detect_asin("(B00000000A)"), Some("B00000000A".to_string()));
}

#[test]
fn test_clean_sequence() {
    assert_eq!(clean_sequence("Book 1"), "1");
    assert_eq!(clean_sequence("1.5"), "1.5");
    assert_eq!(clean_sequence("Book 0.5"), "0.5");
    assert_eq!(clean_sequence("2, Dramatized Adaptation"), "2");
    assert_eq!(clean_sequence("no numbers"), "no numbers");
}

#[test]
fn test_sequence_cleaning() {
    assert_eq!(clean_sequence("Vol. 12."), "12");
    assert_eq!(clean_sequence(".5"), "5");
    assert_eq!(clean_sequence("3.14.15"), "3.14");
    assert_eq!(clean_sequence(""), "");
}

fn meta(title: Option<&str>, author: Option<&str>, year: Option<u32>, source: MetadataSource) -> CurrentMetadata {
    CurrentMetadata {
        title: title.map(|s| s.to_string()),
        author: author.map(|s| s.to_string()),
        year,
        duration_ms: None,
        source,
    }
}

#[test]
fn test_current_metadata_is_sufficient() {
    assert!(meta(Some("Test"), None, None, MetadataSource::Embedded).is_sufficient());
    assert!(!meta(None, None, None, MetadataSource::Embedded).is_sufficient());
}

#[test]
fn test_current_metadata_merge() {
    let embedded = meta(Some("Title from tags"), None, Some(2020), MetadataSource::Embedded);
    let filename = meta(Some("Title from filename"), Some("Author from filename"), None, MetadataSource::Filename);
    let merged = embedded.merge_with(filename);
    assert_eq!(merged.title, Some("Title from tags".to_string()));
    assert_eq!(merged.author, Some("Author from filename".to_string()));
    assert_eq!(merged.year, Some(2020));
    assert_eq!(merged.source, MetadataSource::Embedded);
}

#[test]
fn metadata_from_file_names() {
    let m = extract_from_filename("/books/Andy Weir - Project Hail Mary.m4b");
    assert_eq!(m.author, Some("Andy Weir".to_string()));
    assert_eq!(m.title, Some("Project Hail Mary".to_string()));
    assert_eq!(m.source, MetadataSource::Filename);
    let plain = extract_from_filename("/books/Dune.m4b");
    assert_eq!(plain.author, None);
    assert_eq!(plain.title, Some("Dune".to_string()));
}
