use audiobook_forge::batch::{book_outcome, count_successes, BatchProcessor, BatchRun};
use audiobook_forge::book::{BookCase, BookFolder};
use audiobook_forge::config::{Config, OrganizationConfig};
use audiobook_forge::encoder::AacEncoder;
use audiobook_forge::ffmpeg::FFmpeg;
use audiobook_forge::organizer::{OrganizeAction, OrganizeError, Organizer};
use audiobook_forge::pool::Dispatcher;
use audiobook_forge::processor::{intermediate_name, select_strategy, temp_dir_name, ChapterPlan, ProcessError, Processor, Strategy};
use audiobook_forge::progress::{format_hms, BatchProgress, BookProgress, ProcessingStage};
use audiobook_forge::quality::QualityProfile;
use audiobook_forge::result::ProcessingResult;
use audiobook_forge::retry::{classify_error, next_step, ErrorType, RetryConfig, RetryStep};
use audiobook_forge::scanner::{is_m4b_file, FileKind, Scanner};
use audiobook_forge::track::Track;

fn tool() -> FFmpeg {
    FFmpeg::with_paths("/usr/bin/ffmpeg".to_string(), "/usr/bin/ffprobe".to_string())
}

fn create_test_config() -> Config {
    let mut config = Config::default();
    config.organization = OrganizationConfig { m4b_folder: "M4B".to_string(), convert_folder: "To_Convert".to_string() };
    config
}

#[test]
fn test_retry_config_creation() {
    let config = RetryConfig::new();
    assert_eq!(config.max_retries, 2);
    assert_eq!(config.initial_delay_ms, 1000);
    assert_eq!(config.backoff_multiplier, 2);
}

#[test]
fn test_retry_config_no_retry() {
    let config = RetryConfig::no_retry();
    assert_eq!(config.max_retries, 0);
}

#[test]
fn test_calculate_delay() {
    let config = RetryConfig::new();
    assert_eq!(config.calculate_delay(0), 1000);
    assert_eq!(config.calculate_delay(1), 2000);
    assert_eq!(config.calculate_delay(2), 4000);
    assert_eq!(config.calculate_delay(3), 8000);
    let config = RetryConfig::with_settings(5, 1000, 5000, 2);
    assert_eq!(config.calculate_delay(10), 5000);
}

#[test]
fn delay_is_capped_and_never_shrinks() {
    let config = RetryConfig::with_settings(5, 300, 10_000, 3);
    let mut last = 0;
    for k in 0..20 {
        let d = config.calculate_delay(k);
        assert!(d >= last);
        assert!(d <= 10_000);
        last = d;
    }
    assert_eq!(config.calculate_delay(2), 2700);
    assert_eq!(config.calculate_delay(4), 10_000);
    let huge = RetryConfig::with_settings(1, u64::MAX, u64::MAX, u64::MAX);
    assert_eq!(huge.calculate_delay(60), u64::MAX);
}

#[test]
fn test_classify_error() {
    assert_eq!(classify_error("Connection timeout"), ErrorType::Transient);
    assert_eq!(classify_error("File not found"), ErrorType::Permanent);
    assert_eq!(classify_error("Some random error"), ErrorType::Transient);
}

#[test]
fn classify_error_markers() {
    assert_eq!(classify_error("permission denied"), ErrorType::Permanent);
    assert_eq!(classify_error("Invalid data found"), ErrorType::Permanent);
    assert_eq!(classify_error("Unsupported codec"), ErrorType::Permanent);
    assert_eq!(classify_error("file is CORRUPTED"), ErrorType::Permanent);
    assert_eq!(classify_error("timeout"), ErrorType::Transient);
    assert_eq!(classify_error("connection reset"), ErrorType::Transient);
    assert_eq!(classify_error("Too many open files"), ErrorType::Transient);
    assert_eq!(classify_error("timeout: file not found"), ErrorType::Permanent);
    assert_eq!(classify_error(""), ErrorType::Transient);
}

/// Drives the retry decisions with the given outcomes; returns the number of
/// attempts made and whether the last one succeeded.
fn drive(config: &RetryConfig, outcomes: &[Option<ErrorType>]) -> (usize, bool) {
    let mut attempt = 0usize;
    loop {
        let outcome = outcomes[attempt];
        match next_step(config, attempt, outcome) {
            RetryStep::Done => return (attempt + 1, true),
            RetryStep::GiveUp => return (attempt + 1, false),
            RetryStep::RetryAfter(_) => attempt += 1,
        }
    }
}

#[test]
fn test_retry_async_success_first_try() {
    let config = RetryConfig::new();
    assert_eq!(drive(&config, &[None]), (1, true));
}

#[test]
fn test_retry_async_success_after_retries() {
    let config = RetryConfig::with_settings(3, 10, 100, 2);
    let t = Some(ErrorType::Transient);
    assert_eq!(drive(&config, &[t, t, None, None]), (3, true));
}

#[test]
fn test_retry_async_all_fail() {
    let config = RetryConfig::with_settings(2, 10, 100, 2);
    let t = Some(ErrorType::Transient);
    assert_eq!(drive(&config, &[t, t, t, t]), (3, false));
}

#[test]
fn retry_with_two_retries_fails_twice_then_succeeds() {
    let config = RetryConfig::with_settings(2, 10, 100, 2);
    let t = Some(classify_error("connection timeout"));
    assert_eq!(drive(&config, &[t, t, None]), (3, true));
    assert_eq!(next_step(&config, 0, t), RetryStep::RetryAfter(10));
    assert_eq!(next_step(&config, 1, t), RetryStep::RetryAfter(20));
    assert_eq!(next_step(&config, 2, t), RetryStep::GiveUp);
}

#[test]
fn test_smart_retry_permanent_error() {
    let config = RetryConfig::new();
    let p = Some(classify_error("File not found"));
    assert_eq!(drive(&config, &[p, None, None]), (1, false));
}

#[test]
fn test_smart_retry_transient_error() {
    let config = RetryConfig::with_settings(2, 10, 100, 2);
    let t = Some(classify_error("Connection timeout"));
    assert_eq!(drive(&config, &[t, t, None]), (3, true));
}

#[test]
fn test_organizer_creation() {
    let config = create_test_config();
    let organizer = Organizer::new("/tmp".to_string(), &config);
    assert_eq!(organizer.m4b_folder, "M4B");
    assert_eq!(organizer.convert_folder, "To_Convert");
    assert!(!organizer.dry_run);
}

#[test]
fn test_organizer_dry_run() {
    let config = create_test_config();
    let organizer = Organizer::with_dry_run("/tmp".to_string(), &config, true);
    assert!(organizer.dry_run);
}

#[test]
fn test_organize_action_description() {
    assert_eq!(OrganizeAction::MovedToConvert.description(), "Moved to conversion folder");
    assert_eq!(OrganizeAction::MovedToM4B.description(), "Moved to M4B folder");
    assert_eq!(OrganizeAction::Skipped.description(), "Already in correct location");
    assert_eq!(OrganizeAction::SkippedInvalid.description(), "Skipped (not a valid audiobook)");
}

#[test]
fn test_get_target_folder() {
    let config = create_test_config();
    let organizer = Organizer::new("/audiobooks".to_string(), &config);
    assert_eq!(organizer.get_target_folder(BookCase::A), Some("/audiobooks/To_Convert".to_string()));
    assert_eq!(organizer.get_target_folder(BookCase::B), Some("/audiobooks/To_Convert".to_string()));
    assert_eq!(organizer.get_target_folder(BookCase::C), Some("/audiobooks/M4B".to_string()));
    assert_eq!(organizer.get_target_folder(BookCase::D), None);
}

#[test]
fn test_organize_invalid_book() {
    let config = create_test_config();
    let organizer = Organizer::new("/lib".to_string(), &config);
    let mut book = BookFolder::new("/lib/Invalid".to_string());
    book.case = BookCase::D;
    let result = organizer.organize_book(&book, &vec![]).unwrap();
    assert!(result.success);
    assert_eq!(result.action, OrganizeAction::SkippedInvalid);
    assert!(result.destination_path.is_none());
}

#[test]
fn test_organize_batch() {
    let config = create_test_config();
    let organizer = Organizer::with_dry_run("/lib".to_string(), &config, true);
    let mut book1 = BookFolder::new("/lib/Book1".to_string());
    book1.case = BookCase::A;
    let mut book2 = BookFolder::new("/lib/Book2".to_string());
    book2.case = BookCase::C;
    let results = organizer.organize_batch(&vec![book1, book2], &vec![]);
    assert_eq!(results.len(), 2);
    assert!(results[0].success);
    assert!(results[1].success);
    assert_eq!(results[0].destination_path, Some("/lib/To_Convert/Book1".to_string()));
    assert_eq!(results[1].destination_path, Some("/lib/M4B/Book2".to_string()));
}

#[test]
fn test_resolve_naming_conflict() {
    let config = create_test_config();
    let organizer = Organizer::new("/lib".to_string(), &config);
    let existing = "/lib/book".to_string();
    let mut taken = vec![existing.clone()];
    let resolved = organizer.resolve_naming_conflict(&existing, &taken).unwrap();
    assert_eq!(resolved, "/lib/book_2");
    taken.push(resolved);
    let resolved2 = organizer.resolve_naming_conflict(&existing, &taken).unwrap();
    assert_eq!(resolved2, "/lib/book_3");
}

#[test]
fn destination_taken_twice_gets_suffix_three() {
    let config = create_test_config();
    let organizer = Organizer::new("/lib".to_string(), &config);
    let mut book = BookFolder::new("/incoming/Dune".to_string());
    book.case = BookCase::A;
    let taken = vec!["/lib/To_Convert/Dune".to_string(), "/lib/To_Convert/Dune_2".to_string()];
    let r = organizer.organize_book(&book, &taken).unwrap();
    assert_eq!(r.destination_path, Some("/lib/To_Convert/Dune_3".to_string()));
    assert_eq!(r.action, OrganizeAction::MovedToConvert);
}

#[test]
fn organizer_skips_books_already_in_place_and_exhausts_names() {
    let config = create_test_config();
    let organizer = Organizer::new("/lib".to_string(), &config);
    let mut placed = BookFolder::new("/lib/M4B/Done".to_string());
    placed.case = BookCase::C;
    let r = organizer.organize_book(&placed, &vec![]).unwrap();
    assert_eq!(r.action, OrganizeAction::Skipped);
    assert!(r.destination_path.is_none());

    let mut taken = vec!["/lib/To_Convert/X".to_string()];
    for i in 2..=999 {
        taken.push(format!("/lib/To_Convert/X_{}", i));
    }
    let mut book = BookFolder::new("/in/X".to_string());
    book.case = BookCase::B;
    assert_eq!(organizer.organize_book(&book, &taken).unwrap_err(), OrganizeError::NamingConflictExhausted);
    let results = organizer.organize_batch(&vec![book], &taken);
    assert!(!results[0].success);
    assert_eq!(results[0].action, OrganizeAction::Skipped);
    assert_eq!(results[0].error_message, Some("Could not resolve naming conflict".to_string()));
}

#[test]
fn batch_destinations_do_not_collide() {
    let config = create_test_config();
    let organizer = Organizer::new("/lib".to_string(), &config);
    let mut a = BookFolder::new("/in1/Same".to_string());
    a.case = BookCase::A;
    let mut b = BookFolder::new("/in2/Same".to_string());
    b.case = BookCase::B;
    let results = organizer.organize_batch(&vec![a, b], &vec![]);
    assert_eq!(results[0].destination_path, Some("/lib/To_Convert/Same".to_string()));
    assert_eq!(results[1].destination_path, Some("/lib/To_Convert/Same_2".to_string()));
}

#[test]
fn test_processor_creation() {
    let processor = Processor::new(tool(), AacEncoder::Native);
    assert!(!processor.keep_temp);
    assert_eq!(processor.max_concurrent_files, 8);
}

#[test]
fn test_processor_with_options() {
    let processor = Processor::with_options(tool(), true, AacEncoder::AppleSilicon, true, 8, None);
    assert!(processor.keep_temp);
    assert_eq!(processor.encoder, AacEncoder::AppleSilicon);
    assert_eq!(processor.max_concurrent_files, 8);
    assert_eq!(processor.quality_preset, None);
    let processor_with_preset =
        Processor::with_options(tool(), false, AacEncoder::Native, true, 4, Some("high".to_string()));
    assert_eq!(processor_with_preset.quality_preset, Some("high".to_string()));
    assert_eq!(Processor::with_options(tool(), false, AacEncoder::Native, true, 0, None).max_concurrent_files, 1);
    assert_eq!(Processor::with_options(tool(), false, AacEncoder::Native, true, 99, None).max_concurrent_files, 32);
}

#[test]
fn test_create_temp_dir() {
    let name = temp_dir_name("Test Book");
    assert!(name.contains("audiobook-forge"));
    assert_eq!(name, "audiobook-forge-Test Book");
    assert_ne!(temp_dir_name("Book One"), temp_dir_name("Book Two"));
    assert_eq!(temp_dir_name("a<b>c?"), "audiobook-forge-abc");
    let odd = temp_dir_name("a/b:c");
    assert!(odd.starts_with("audiobook-forge-"));
    assert!(!odd["audiobook-forge-".len()..].contains('/'));
}

#[test]
fn strategy_selection_rules() {
    assert_eq!(select_strategy(1, true, true), Strategy::SingleFile);
    assert_eq!(select_strategy(1, false, false), Strategy::SingleFile);
    assert_eq!(select_strategy(3, true, false), Strategy::DirectConcatCopy);
    assert_eq!(select_strategy(3, false, true), Strategy::ParallelTranscode);
    assert_eq!(select_strategy(3, false, false), Strategy::SerialTranscode);
    assert_eq!(select_strategy(0, false, true), Strategy::SerialTranscode);
}

fn track(path: &str, bitrate: u32, codec: &str, ms: u64) -> Track {
    Track::new(path.to_string(), QualityProfile::new(bitrate, 44100, 2, codec.to_string(), ms).unwrap())
}

#[test]
fn plan_book_decisions() {
    let processor = Processor::with_options(tool(), false, AacEncoder::Native, true, 2, Some("low".to_string()));
    let mut book = BookFolder::new("/in/Book".to_string());
    assert_eq!(processor.plan_book(&book).unwrap_err(), ProcessError::NoTracks);
    book.tracks = vec![
        track("/in/Book/01.mp3", 128, "mp3", 1000),
        track("/in/Book/02.mp3", 192, "mp3", 2000),
        track("/in/Book/03.mp3", 128, "mp3", 3000),
        track("/in/Book/04.mp3", 128, "mp3", 4000),
    ];
    let plan = processor.plan_book(&book).unwrap();
    assert_eq!(plan.strategy, Strategy::ParallelTranscode);
    assert_eq!(plan.file_limit, 2);
    assert!(!plan.use_copy);
    assert_eq!(plan.quality.bitrate, 64);
    assert_eq!(plan.output_filename, "Book.m4b");
    assert_eq!(plan.temp_dir_name, "audiobook-forge-Book");

    let plain = Processor::new(tool(), AacEncoder::Native);
    let p2 = plain.plan_book(&book).unwrap();
    assert_eq!(p2.quality.bitrate, 192);
    assert_eq!(p2.file_limit, 4);
}

#[test]
fn parallel_encodes_stay_under_the_per_book_cap() {
    let mut d = Dispatcher::new(4, 2);
    let mut peak = 0;
    let mut order = Vec::new();
    loop {
        while let Some(i) = d.start_next() {
            order.push(i);
            peak = peak.max(d.running);
        }
        if d.running == 0 {
            break;
        }
        assert!(!d.all_done());
        d.finish_one();
    }
    assert!(d.all_done());
    assert_eq!(peak, 2);
    assert_eq!(order, vec![0, 1, 2, 3]);
}

#[test]
fn chapter_plans() {
    let processor = Processor::new(tool(), AacEncoder::Native);
    let mut book = BookFolder::new("/in/Book".to_string());
    book.tracks = vec![track("/in/Book/One.mp3", 128, "mp3", 1500), track("/in/Book/Two.mp3", 128, "mp3", 2500)];
    match processor.generate_chapters(&book, "auto").unwrap() {
        ChapterPlan::FromFiles(cs) => {
            assert_eq!(cs.len(), 2);
            assert_eq!(cs[0].title, "One");
            assert_eq!(cs[1].start_time_ms, 1500);
            assert_eq!(cs[1].end_time_ms, 4000);
        },
        _ => panic!("expected chapters from files"),
    }
    assert!(matches!(processor.generate_chapters(&book, "none").unwrap(), ChapterPlan::Nothing));
    assert!(matches!(processor.generate_chapters(&book, "cue").unwrap(), ChapterPlan::Nothing));
    book.cue_file = Some("/in/Book/b.cue".to_string());
    assert!(matches!(processor.generate_chapters(&book, "cue").unwrap(), ChapterPlan::FromCue(_)));
    assert!(matches!(processor.generate_chapters(&book, "whatever").unwrap(), ChapterPlan::FromFiles(_)));
    assert_eq!(intermediate_name(7), "encoded_0007.m4a");
}

#[test]
fn test_batch_processor_creation() {
    let processor = BatchProcessor::new(4);
    assert_eq!(processor.workers, 4);
    assert_eq!(processor.max_concurrent_encodes, 2);
    assert!(!processor.keep_temp);
    assert!(!processor.use_apple_silicon);
}

#[test]
fn test_batch_processor_with_options() {
    let processor = BatchProcessor::with_options(8, true, true, true, 4, RetryConfig::new());
    assert_eq!(processor.workers, 8);
    assert_eq!(processor.max_concurrent_encodes, 4);
    assert!(processor.keep_temp);
    assert!(processor.use_apple_silicon);
}

#[test]
fn test_worker_clamping() {
    assert_eq!(BatchProcessor::new(0).workers, 1);
    assert_eq!(BatchProcessor::new(100).workers, 16);
}

#[test]
fn test_concurrent_encode_clamping() {
    let processor = BatchProcessor::with_options(4, false, false, true, 0, RetryConfig::new());
    assert_eq!(processor.max_concurrent_encodes, 1);
    let processor = BatchProcessor::with_options(4, false, false, true, 100, RetryConfig::new());
    assert_eq!(processor.max_concurrent_encodes, 16);
}

#[test]
fn test_recommended_workers() {
    let workers = BatchProcessor::recommended_workers();
    assert!(workers >= 1);
    assert!(workers <= 8);
    assert_eq!(BatchProcessor::recommended_workers_for(1), 1);
    assert_eq!(BatchProcessor::recommended_workers_for(6), 3);
    assert_eq!(BatchProcessor::recommended_workers_for(64), 8);
}

#[test]
fn test_empty_batch() {
    let processor = BatchProcessor::new(4);
    let mut run = processor.start_run(0);
    assert!(run.is_complete());
    assert!(run.start_next().is_none());
}

#[test]
fn permanent_failure_of_one_book_spares_the_others() {
    let processor = BatchProcessor::new(4);
    let config = processor.retry_config;
    let mut run = processor.start_run(3);
    let mut attempts = vec![0usize; 3];
    let names = ["Book One", "Book Two", "Book Three"];
    while let Some(i) = run.start_next() {
        let mut attempt = 0usize;
        let outcome = loop {
            attempts[i] += 1;
            let error = if i == 1 { Some(classify_error("Invalid data: file is corrupted")) } else { None };
            match next_step(&config, attempt, error) {
                RetryStep::Done => break Ok(ProcessingResult::new(names[i].to_string()).success(
                    format!("/out/{}.m4b", names[i]),
                    10,
                    false,
                    None,
                )),
                RetryStep::GiveUp => break Err("Invalid data: file is corrupted".to_string()),
                RetryStep::RetryAfter(_) => attempt += 1,
            }
        };
        run.record(i, book_outcome(names[i], outcome));
    }
    assert!(run.is_complete());
    assert_eq!(attempts, vec![1, 1, 1]);
    let results: Vec<ProcessingResult> = run.results.into_iter().map(|r| r.unwrap()).collect();
    assert_eq!(count_successes(&results), 2);
    assert!(!results[1].success);
    assert_eq!(results[1].book_name, "Book Two");
    assert_eq!(results[1].error_message, Some("All retries failed: Invalid data: file is corrupted".to_string()));
}

#[test]
fn batch_run_respects_global_cap() {
    let processor = BatchProcessor::with_options(8, false, false, true, 2, RetryConfig::no_retry());
    let mut run = processor.start_run(5);
    assert_eq!(run.start_next(), Some(0));
    assert_eq!(run.start_next(), Some(1));
    assert_eq!(run.start_next(), None);
    run.record(1, ProcessingResult::new("b".to_string()));
    assert_eq!(run.start_next(), Some(2));
    assert!(!run.is_complete());
}

#[test]
fn test_processing_stage_name() {
    assert_eq!(ProcessingStage::Scanning.name(), "Scanning");
    assert_eq!(ProcessingStage::Analyzing.name(), "Analyzing");
    assert_eq!(ProcessingStage::Complete.name(), "Complete");
}

#[test]
fn test_batch_progress_bytes() {
    let mut progress = BatchProgress::new(5);
    assert_eq!(progress.total_bytes(), 0);
    progress.add_bytes(1024);
    assert_eq!(progress.total_bytes(), 1024);
    progress.add_bytes(2048);
    assert_eq!(progress.total_bytes(), 3072);
}

#[test]
fn test_batch_progress_eta() {
    let mut progress = BatchProgress::new(10);
    assert!(progress.eta_seconds().is_none());
    progress.mark_completed();
    assert!(progress.eta_seconds().is_some());
    assert_eq!(progress.eta_seconds_at(10), Some(90));
}

#[test]
fn test_batch_progress_is_complete() {
    let mut progress = BatchProgress::new(3);
    assert!(!progress.is_complete());
    progress.mark_completed();
    progress.mark_completed();
    assert!(!progress.is_complete());
    progress.mark_completed();
    assert!(progress.is_complete());
}

#[test]
fn test_format_eta() {
    let progress = BatchProgress::new(1);
    assert_eq!(progress.format_eta(), "calculating...");
    assert_eq!(BatchProgress::format_eta_of(Some(3725)), "1h 02m 05s");
    assert_eq!(BatchProgress::format_eta_of(Some(0)), "calculating...");
}

#[test]
fn test_format_elapsed() {
    let progress = BatchProgress::new(1);
    assert!(progress.format_elapsed().ends_with('s'));
    assert_eq!(format_hms(65), "1m 05s");
    assert_eq!(format_hms(7), "7s");
}

#[test]
fn test_scanner_creation() {
    let scanner = Scanner::new();
    assert_eq!(scanner.cover_filenames.len(), 4);
}

#[test]
fn test_scanner_with_custom_covers() {
    let scanner = Scanner::with_cover_filenames(vec!["custom.jpg".to_string()]);
    assert_eq!(scanner.cover_filenames.len(), 1);
    assert_eq!(scanner.cover_filenames[0], "custom.jpg");
}

#[test]
fn test_scan_empty_directory() {
    let scanner = Scanner::new();
    assert!(scanner.scan_folder("/lib/empty".to_string(), &vec![]).is_none());
}

#[test]
fn test_scan_directory_with_audiobook() {
    let scanner = Scanner::new();
    let files = vec![
        "/lib/Book/track10.mp3".to_string(),
        "/lib/Book/track2.MP3".to_string(),
        "/lib/Book/track1.m4a".to_string(),
        "/lib/Book/Cover.JPG".to_string(),
        "/lib/Book/notes.txt".to_string(),
        "/lib/Book/book.cue".to_string(),
    ];
    let book = scanner.scan_folder("/lib/Book".to_string(), &files).unwrap();
    assert_eq!(book.case, BookCase::A);
    assert_eq!(book.name, "Book");
    assert_eq!(book.mp3_files, vec![
        "/lib/Book/track1.m4a".to_string(),
        "/lib/Book/track2.MP3".to_string(),
        "/lib/Book/track10.mp3".to_string(),
    ]);
    assert_eq!(book.cover_file, Some("/lib/Book/Cover.JPG".to_string()));
    assert_eq!(book.cue_file, Some("/lib/Book/book.cue".to_string()));
    assert!(!scanner.wants_embedded_cover(&book));
}

#[test]
fn test_hidden_directory_skipped() {
    let scanner = Scanner::new();
    assert!(scanner.is_hidden("/lib/.hidden"));
    assert!(!scanner.is_hidden("/lib/visible"));
}

#[test]
fn test_m4a_files_treated_as_mp3() {
    assert_eq!(Scanner::file_kind("a/b.m4a"), FileKind::Source);
    assert_eq!(Scanner::file_kind("a/b.M4B"), FileKind::Output);
    assert_eq!(Scanner::file_kind("a/b.cue"), FileKind::Cue);
    assert_eq!(Scanner::file_kind("a/b.jpeg"), FileKind::Image);
    assert_eq!(Scanner::file_kind("a/b"), FileKind::Other);
    let scanner = Scanner::new();
    let book = scanner.scan_folder("/l/B".to_string(), &vec!["/l/B/a.m4a".to_string()]).unwrap();
    assert_eq!(book.case, BookCase::B);
    assert!(scanner.wants_embedded_cover(&book));
}

#[test]
fn test_cover_art_detection() {
    let scanner = Scanner::new();
    assert!(scanner.is_cover_art("/x/FOLDER.PNG"));
    assert!(!scanner.is_cover_art("/x/back.png"));
    let files = vec!["/l/B/back.png".to_string(), "/l/B/x.m4b".to_string(), "/l/B/folder.jpg".to_string()];
    let book = scanner.scan_folder("/l/B".to_string(), &files).unwrap();
    assert_eq!(book.case, BookCase::C);
    assert_eq!(book.cover_file, Some("/l/B/folder.jpg".to_string()));
}

#[test]
fn test_book_progress() {
    let mut progress = BookProgress::new("Test Book".to_string());
    assert_eq!(progress.name, "Test Book");
    assert_eq!(progress.stage, ProcessingStage::Scanning);
    assert_eq!(progress.progress, 0);
    progress.set_stage(ProcessingStage::Processing);
    assert_eq!(progress.stage, ProcessingStage::Processing);
    progress.set_progress(50);
    assert_eq!(progress.progress, 50);
    progress.set_progress(150);
    assert_eq!(progress.progress, 100);
    progress.set_progress(25);
    progress.update_eta_at(30);
    assert_eq!(progress.eta_seconds, Some(90));
}

#[test]
fn test_batch_progress() {
    let mut progress = BatchProgress::new(10);
    assert_eq!(progress.total_books(), 10);
    assert_eq!(progress.completed_count(), 0);
    assert_eq!(progress.failed_count(), 0);
    assert_eq!(progress.overall_progress(), 0);
    progress.mark_completed();
    assert_eq!(progress.completed_count(), 1);
    assert_eq!(progress.overall_progress(), 10);
    progress.mark_failed();
    assert_eq!(progress.failed_count(), 1);
    assert_eq!(progress.overall_progress(), 20);
    assert_eq!(BatchProgress::new(0).overall_progress(), 0);
}

#[test]
fn m4b_files_by_extension() {
    assert!(is_m4b_file("/x/Book.m4b"));
    assert!(is_m4b_file("/x/Book.M4B"));
    assert!(!is_m4b_file("/x/Book.m4a"));
    assert!(!is_m4b_file("/x/m4b"));
}
