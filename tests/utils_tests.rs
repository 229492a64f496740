use audiobook_forge::cache::AudibleCache;
use audiobook_forge::config::{Config, ConfigManager, MatchMode};
use audiobook_forge::batch::concurrency_setting;
use audiobook_forge::encoder::{encoder_listed, AacEncoder};
use audiobook_forge::extraction::parse_author_title_pattern;
use audiobook_forge::path::{extension, file_name, join, parent, stem};
use audiobook_forge::prompts::format_duration;
use audiobook_forge::scoring::normalize_string;
use audiobook_forge::sorting::{natural_sort, natural_sort_strings};
use audiobook_forge::validation::{DependencyChecker, DependencyStatus};

#[test]
fn test_default_config() {
    let config = Config::default();
    assert_eq!(config.processing.parallel_workers, 2);
    assert_eq!(config.quality.prefer_stereo, true);
    assert_eq!(config.metadata.default_language, "es");
    assert_eq!(config.metadata.match_mode, MatchMode::Disabled);
    assert_eq!(config.metadata.audible.cache_duration_hours, 168);
    assert_eq!(config.organization.convert_folder, "To_Convert");
}

#[test]
fn test_validate_config() {
    let mut config = Config::default();
    config.processing.parallel_workers = 10;
    let warnings = ConfigManager::validate(&config, true);
    assert!(!warnings.is_empty());
    assert_eq!(warnings, vec!["parallel_workers (10) should be between 1 and 8".to_string()]);
}

#[test]
fn validate_config_warnings() {
    let mut config = Config::default();
    assert!(ConfigManager::validate(&config, true).is_empty());
    config.logging.log_level = "debug".to_string();
    assert!(ConfigManager::validate(&config, true).is_empty());
    config.logging.log_level = "loud".to_string();
    config.quality.chapter_source = "epub".to_string();
    config.directories.source = Some("/nowhere".to_string());
    let w = ConfigManager::validate(&config, false);
    assert_eq!(w.len(), 3);
    assert!(w[0].starts_with("chapter_source 'epub'"));
    assert!(w[1].starts_with("log_level 'loud'"));
    assert_eq!(w[2], "source directory does not exist: /nowhere");
}

#[test]
fn test_parse_author_title_pattern() {
    let (author, title) = parse_author_title_pattern("Andy Weir - Project Hail Mary").unwrap();
    assert_eq!(author, "Andy Weir");
    assert_eq!(title, "Project Hail Mary");
    let (author, title) = parse_author_title_pattern("Isaac Asimov - I, Robot - Complete Edition").unwrap();
    assert_eq!(author, "Isaac Asimov");
    assert_eq!(title, "I, Robot - Complete Edition");
    let (author, title) = parse_author_title_pattern("Adam_Phillips_-_On_Giving_Up").unwrap();
    assert_eq!(author, "Adam Phillips");
    assert_eq!(title, "On Giving Up");
    let (author, title) = parse_author_title_pattern("Morgan_Housel_-_The_Art_of_Spending_Money").unwrap();
    assert_eq!(author, "Morgan Housel");
    assert_eq!(title, "The Art of Spending Money");
    let (author, title) = parse_author_title_pattern("Neil_deGrasse_Tyson - Just Visiting This Planet").unwrap();
    assert_eq!(author, "Neil deGrasse Tyson");
    assert_eq!(title, "Just Visiting This Planet");
    assert_eq!(parse_author_title_pattern("JustATitle"), None);
}

#[test]
fn test_normalize_string() {
    assert_eq!(normalize_string("The Hobbit"), "hobbit");
    assert_eq!(normalize_string("  Project Hail Mary  "), "project hail mary");
    assert_eq!(normalize_string("Author's Name"), "authors name");
    assert_eq!(normalize_string("Title! @ # $"), "title");
}

#[test]
fn test_natural_sort() {
    let mut paths = vec![
        "track10.mp3".to_string(),
        "track2.mp3".to_string(),
        "track1.mp3".to_string(),
        "track20.mp3".to_string(),
    ];
    natural_sort(&mut paths);
    assert_eq!(paths[0], "track1.mp3");
    assert_eq!(paths[1], "track2.mp3");
    assert_eq!(paths[2], "track10.mp3");
    assert_eq!(paths[3], "track20.mp3");
}

#[test]
fn test_natural_sort_strings() {
    let mut strings = vec!["Chapter 10".to_string(), "Chapter 2".to_string(), "Chapter 1".to_string()];
    natural_sort_strings(&mut strings);
    assert_eq!(strings[0], "Chapter 1");
    assert_eq!(strings[1], "Chapter 2");
    assert_eq!(strings[2], "Chapter 10");
}

#[test]
fn test_check_dependencies() {
    let deps = vec![
        DependencyChecker::status("ffmpeg", Some("/usr/bin/ffmpeg".to_string()), Some("6.1".to_string())),
        DependencyChecker::status("AtomicParsley", None, Some("ignored".to_string())),
        DependencyChecker::status("MP4Box", Some("/usr/bin/MP4Box".to_string()), None),
    ];
    assert_eq!(deps.len(), 3);
    let ffmpeg: Option<&DependencyStatus> = deps.iter().find(|d| d.name == "ffmpeg");
    assert!(ffmpeg.is_some());
    assert!(ffmpeg.unwrap().found);
    assert!(!deps[1].found);
    assert_eq!(deps[1].version, None);
    assert!(!DependencyChecker::all_dependencies_met(&deps));
    assert!(DependencyChecker::all_dependencies_met(&vec![deps[0].clone()]));
    assert_eq!(
        DependencyChecker::get_available_encoders(&vec![AacEncoder::LibFdk, AacEncoder::Native]),
        vec!["libfdk_aac".to_string(), "aac".to_string()]
    );
    assert_eq!(DependencyChecker::get_selected_encoder(AacEncoder::AppleSilicon), "aac_at");
}

#[test]
fn test_cache_creation() {
    let cache = AudibleCache::new("/home/u/.cache");
    assert_eq!(cache.cache_dir(), "/home/u/.cache/audiobook-forge/audible");
    assert_eq!(cache.ttl_secs, 604_800);
    assert_eq!(cache.cache_path("B00G3L6JMS"), "/home/u/.cache/audiobook-forge/audible/B00G3L6JMS.json");
}

#[test]
fn test_cache_disabled() {
    let cache = AudibleCache::with_ttl_hours("/c", 0);
    assert!(!cache.is_enabled());
    let cache = AudibleCache::with_ttl_hours("/c", 2);
    assert!(cache.is_enabled());
    assert!(!cache.is_expired(7200));
    assert!(cache.is_expired(7201));
    assert_eq!(AudibleCache::with_ttl_hours("/c", u64::MAX).ttl_secs, u64::MAX);
}

#[test]
fn durations_in_prompts() {
    assert_eq!(format_duration(Some(5_400_000)), "1h 30m");
    assert_eq!(format_duration(Some(59_999)), "0h 0m");
    assert_eq!(format_duration(None), "N/A");
}

#[test]
fn whitespace_table() {
    assert_eq!(normalize_string("\u{3000}Quiet\u{00A0}Night\u{2009}"), "quiet\u{00A0}night");
    assert_eq!(normalize_string("\u{200B}x"), "\u{200B}x".trim().to_lowercase().chars().filter(|c| c.is_alphanumeric() || c.is_whitespace()).collect::<String>());
}

#[test]
fn path_helpers() {
    assert_eq!(file_name("/a/b/c.mp3"), "c.mp3");
    assert_eq!(file_name("c.mp3"), "c.mp3");
    assert_eq!(parent("/a/b/c.mp3"), "/a/b");
    assert_eq!(parent("/c"), "/");
    assert_eq!(parent("c"), "");
    assert_eq!(stem("book.tar.gz"), "book.tar");
    assert_eq!(stem(".hidden"), ".hidden");
    assert_eq!(extension("x.MP3"), Some("MP3".to_string()));
    assert_eq!(extension(".hidden"), None);
    assert_eq!(join("/a", "b"), "/a/b");
    assert_eq!(join("/a/", "b"), "/a/b");
    assert_eq!(join("", "b"), "b");
}

#[test]
fn tool_versions_from_output() {
    assert_eq!(
        DependencyChecker::ffmpeg_version("ffmpeg version 6.1.1 Copyright (c) 2000-2023\nbuilt with gcc"),
        Some("6.1.1".to_string())
    );
    assert_eq!(DependencyChecker::ffmpeg_version("ffmpeg"), None);
    assert_eq!(
        DependencyChecker::atomic_parsley_version("AtomicParsley\nAtomicParsley version: 20210715.151551.0\n"),
        Some("20210715.151551.0".to_string())
    );
    assert_eq!(DependencyChecker::atomic_parsley_version("nothing here"), None);
    assert_eq!(
        DependencyChecker::mp4box_version("MP4Box - GPAC version 2.2.1-rev0\n"),
        Some("version".to_string())
    );
    assert_eq!(DependencyChecker::mp4box_version("MP4Box 2.2"), None);
}

#[test]
fn concurrency_settings() {
    assert_eq!(concurrency_setting("auto", 12, 8, 16), 12);
    assert_eq!(concurrency_setting("4", 12, 8, 16), 4);
    assert_eq!(concurrency_setting("0", 12, 8, 16), 1);
    assert_eq!(concurrency_setting("99", 12, 8, 16), 16);
    assert_eq!(concurrency_setting("lots", 12, 8, 32), 8);
}

#[test]
fn encoder_listing_lines() {
    let listing = " V..... libx264   H.264\n A....D aac       AAC (Advanced Audio Coding)\n A..... libfdk_aac Fraunhofer FDK AAC\n";
    assert!(encoder_listed(listing, AacEncoder::Native));
    assert!(encoder_listed(listing, AacEncoder::LibFdk));
    assert!(!encoder_listed(listing, AacEncoder::AppleSilicon));
    assert!(!encoder_listed(" V..... aac_at fake", AacEncoder::AppleSilicon));
}
