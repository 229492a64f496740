use audiobook_forge::audible::AudibleRegion;
use audiobook_forge::book::{BookCase, BookFolder};
use audiobook_forge::config::Config;
use audiobook_forge::organizer::Organizer;
use audiobook_forge::scanner::Scanner;

/// The folders of a small library, each with the paths of its regular files.
fn library() -> Vec<(String, Vec<String>)> {
    let folder = |name: &str, files: &[&str]| {
        let dir = format!("/lib/{}", name);
        let paths = files.iter().map(|f| format!("{}/{}", dir, f)).collect();
        (dir, paths)
    };
    vec![
        folder("The_Hobbit", &["01-Chapter1.mp3", "02-Chapter2.mp3", "03-Chapter3.mp3", "cover.jpg"]),
        folder("1984", &["1984_Complete.mp3", "folder.jpg"]),
        folder("Sapiens", &["Sapiens.m4b"]),
        folder("Random_Files", &["notes.txt", "image.png"]),
    ]
}

fn scan_library(scanner: &Scanner) -> Vec<BookFolder> {
    library().into_iter().filter_map(|(dir, files)| scanner.scan_folder(dir, &files)).collect()
}

#[test]
fn test_region_parsing() {
    assert_eq!(AudibleRegion::from_str("us").unwrap(), AudibleRegion::US);
    assert_eq!(AudibleRegion::from_str("UK").unwrap(), AudibleRegion::UK);
    assert_eq!(AudibleRegion::from_str("Ca").unwrap(), AudibleRegion::CA);
    assert_eq!(AudibleRegion::from_str("jp").unwrap(), AudibleRegion::JP);
    assert_eq!(AudibleRegion::US.tld(), "us");
    assert_eq!(AudibleRegion::UK.tld(), "uk");
    assert_eq!(AudibleRegion::JP.tld(), "jp");
    assert!(AudibleRegion::from_str("invalid").is_err());
}

#[test]
fn test_scanner_integration() {
    let books = scan_library(&Scanner::new());
    assert_eq!(books.len(), 3);
    let cases: Vec<BookCase> = books.iter().map(|b| b.case).collect();
    assert!(cases.contains(&BookCase::A));
    assert!(cases.contains(&BookCase::B));
    assert!(cases.contains(&BookCase::C));
    assert!(!cases.contains(&BookCase::D));
}

#[test]
fn test_organizer_integration() {
    let books = scan_library(&Scanner::new());
    let config = Config::default();
    let organizer = Organizer::with_dry_run("/lib".to_string(), &config, true);
    let results = organizer.organize_batch(&books, &vec![]);
    assert_eq!(results.len(), 3);
    assert!(results.iter().all(|r| r.success));
}

#[test]
fn test_organizer_actual_move() {
    let books = scan_library(&Scanner::new());
    let config = Config::default();
    let organizer = Organizer::new("/lib".to_string(), &config);
    let results = organizer.organize_batch(&books, &vec![]);
    assert!(results.iter().all(|r| r.success));
    let dest: Vec<String> = results.iter().filter_map(|r| r.destination_path.clone()).collect();
    assert!(dest.contains(&"/lib/M4B/Sapiens".to_string()));
    assert!(dest.contains(&"/lib/To_Convert/The_Hobbit".to_string()));
    assert!(dest.contains(&"/lib/To_Convert/1984".to_string()));
}

#[test]
fn test_scanner_with_hidden_directories() {
    let scanner = Scanner::new();
    assert!(scanner.is_hidden("/lib/.hidden"));
    assert!(!scanner.is_hidden("/lib/Normal_Book"));
    let book = scanner.scan_folder("/lib/Normal_Book".to_string(), &vec!["/lib/Normal_Book/01.mp3".to_string()]);
    assert_eq!(book.unwrap().name, "Normal_Book");
}

#[test]
fn test_naming_conflict_resolution() {
    let scanner = Scanner::new();
    let book = scanner.scan_folder("/lib/Book1".to_string(), &vec!["/lib/Book1/01.mp3".to_string()]).unwrap();
    let config = Config::default();
    let organizer = Organizer::new("/lib".to_string(), &config);
    let results = organizer.organize_batch(&vec![book], &vec!["/lib/To_Convert/Book1".to_string()]);
    assert!(results[0].success);
    assert_eq!(results[0].destination_path, Some("/lib/To_Convert/Book1_2".to_string()));
}

#[test]
fn test_natural_sorting() {
    let scanner = Scanner::new();
    let files: Vec<String> = ["Chapter_10.mp3", "Chapter_2.mp3", "Chapter_1.mp3", "Chapter_20.mp3"]
        .iter()
        .map(|f| format!("/lib/Book/{}", f))
        .collect();
    let book = scanner.scan_folder("/lib/Book".to_string(), &files).unwrap();
    let names: Vec<&str> = book.mp3_files.iter().map(|p| p.rsplit('/').next().unwrap()).collect();
    assert_eq!(names, vec!["Chapter_1.mp3", "Chapter_2.mp3", "Chapter_10.mp3", "Chapter_20.mp3"]);
}
