use audiobook_forge::chapter_import::{merge_chapters, parse_ffprobe_time, parse_simple_format, ChapterComparison, ChapterError, ChapterMergeStrategy};
use audiobook_forge::chapters::{format_time_ms, generate_chapters_from_files, Chapter};
use audiobook_forge::encoder::{resolve_encoder, AacEncoder, EncoderDetector};
use audiobook_forge::cue::parse_cue;
use audiobook_forge::ffmpeg::{concat_args, concat_list, convert_args, failure_message, profile_from_probe, FFmpeg, ProbeError};
use audiobook_forge::quality::QualityError;
use audiobook_forge::analyzer::Analyzer;
use audiobook_forge::book::BookFolder;
use audiobook_forge::quality::QualityProfile;
use audiobook_forge::track::Track;

#[test]
fn test_chapter_comparison() {
    let existing = vec![Chapter::new(1, "Ch1".to_string(), 0, 1000), Chapter::new(2, "Ch2".to_string(), 1000, 2000)];
    let new_matching = vec![
        Chapter::new(1, "Chapter One".to_string(), 0, 1000),
        Chapter::new(2, "Chapter Two".to_string(), 1000, 2000),
    ];
    let new_different = vec![Chapter::new(1, "Chapter One".to_string(), 0, 1000)];
    let comp1 = ChapterComparison::new(&existing, &new_matching);
    assert!(comp1.matches);
    assert_eq!(comp1.existing_count, 2);
    let comp2 = ChapterComparison::new(&existing, &new_different);
    assert!(!comp2.matches);
}

#[test]
fn test_merge_strategy_display() {
    assert_eq!(ChapterMergeStrategy::KeepTimestamps.description(), "Keep existing timestamps, update names only");
}

#[test]
fn test_parse_simple_format() {
    let content = "Prologue\nChapter 1: The Beginning\nChapter 2: The Journey";
    let chapters = parse_simple_format(content).unwrap();
    assert_eq!(chapters.len(), 3);
    assert_eq!(chapters[0].title, "Prologue");
    assert_eq!(chapters[1].title, "Chapter 1: The Beginning");
    assert_eq!(chapters[2].title, "Chapter 2: The Journey");
}

#[test]
fn parse_simple_format_skips_blank_lines() {
    let chapters = parse_simple_format("  One  \r\n\n   \nTwo\n").unwrap();
    assert_eq!(chapters.len(), 2);
    assert_eq!(chapters[0].title, "One");
    assert_eq!(chapters[1].number, 2);
    assert_eq!(chapters[1].title, "Two");
    assert_eq!(parse_simple_format(" \n\n").unwrap_err(), ChapterError::NoChapters);
}

#[test]
fn test_merge_keep_timestamps() {
    let existing = vec![
        Chapter::new(1, "Chapter 1".to_string(), 0, 1000),
        Chapter::new(2, "Chapter 2".to_string(), 1000, 2000),
        Chapter::new(3, "Chapter 3".to_string(), 2000, 3000),
    ];
    let new = vec![
        Chapter::new(1, "Prologue".to_string(), 0, 0),
        Chapter::new(2, "The Beginning".to_string(), 0, 0),
        Chapter::new(3, "The Journey".to_string(), 0, 0),
    ];
    let merged = merge_chapters(&existing, &new, ChapterMergeStrategy::KeepTimestamps).unwrap();
    assert_eq!(merged.len(), 3);
    assert_eq!(merged[0].title, "Prologue");
    assert_eq!(merged[0].start_time_ms, 0);
    assert_eq!(merged[0].end_time_ms, 1000);
    assert_eq!(merged[1].title, "The Beginning");
    assert_eq!(merged[1].start_time_ms, 1000);
    assert_eq!(merged[2].title, "The Journey");
    assert_eq!(merged[2].start_time_ms, 2000);
}

#[test]
fn test_merge_replace_all() {
    let existing = vec![Chapter::new(1, "Chapter 1".to_string(), 0, 1000), Chapter::new(2, "Chapter 2".to_string(), 1000, 2000)];
    let new = vec![
        Chapter::new(1, "Prologue".to_string(), 0, 500),
        Chapter::new(2, "The Beginning".to_string(), 500, 1500),
        Chapter::new(3, "The Journey".to_string(), 1500, 2500),
    ];
    let merged = merge_chapters(&existing, &new, ChapterMergeStrategy::ReplaceAll).unwrap();
    assert_eq!(merged.len(), 3);
    assert_eq!(merged[0].title, "Prologue");
    assert_eq!(merged[0].start_time_ms, 0);
    assert_eq!(merged[0].end_time_ms, 500);
    assert_eq!(merged[2].title, "The Journey");
}

#[test]
fn test_merge_skip_on_mismatch() {
    let existing = vec![Chapter::new(1, "Chapter 1".to_string(), 0, 1000), Chapter::new(2, "Chapter 2".to_string(), 1000, 2000)];
    let new = vec![Chapter::new(1, "Prologue".to_string(), 0, 0)];
    let result = merge_chapters(&existing, &new, ChapterMergeStrategy::SkipOnMismatch);
    assert!(result.is_err());
    let err = result.unwrap_err();
    assert!(err.message().contains("Chapter count mismatch"));
}

#[test]
fn test_merge_keep_timestamps_with_extra_existing() {
    let existing = vec![
        Chapter::new(1, "Chapter 1".to_string(), 0, 1000),
        Chapter::new(2, "Chapter 2".to_string(), 1000, 2000),
        Chapter::new(3, "Chapter 3".to_string(), 2000, 3000),
    ];
    let new = vec![Chapter::new(1, "Prologue".to_string(), 0, 0)];
    let merged = merge_chapters(&existing, &new, ChapterMergeStrategy::KeepTimestamps).unwrap();
    assert_eq!(merged.len(), 3);
    assert_eq!(merged[0].title, "Prologue");
    assert_eq!(merged[1].title, "Chapter 2");
    assert_eq!(merged[2].title, "Chapter 3");
}

#[test]
fn test_merge_keep_timestamps_strategy() {
    let existing = vec![
        Chapter::new(1, "Chapter 1".to_string(), 0, 300_000),
        Chapter::new(2, "Chapter 2".to_string(), 300_000, 600_000),
        Chapter::new(3, "Chapter 3".to_string(), 600_000, 900_000),
    ];
    let new = vec![
        Chapter::new(1, "Prologue".to_string(), 0, 0),
        Chapter::new(2, "The Adventure Begins".to_string(), 0, 0),
        Chapter::new(3, "The Journey Continues".to_string(), 0, 0),
    ];
    let merged = merge_chapters(&existing, &new, ChapterMergeStrategy::KeepTimestamps).unwrap();
    assert_eq!(merged.len(), 3);
    assert_eq!(merged[0].title, "Prologue");
    assert_eq!(merged[1].title, "The Adventure Begins");
    assert_eq!(merged[2].title, "The Journey Continues");
    assert_eq!(merged[0].start_time_ms, 0);
    assert_eq!(merged[0].end_time_ms, 300_000);
    assert_eq!(merged[1].start_time_ms, 300_000);
    assert_eq!(merged[1].end_time_ms, 600_000);
    assert_eq!(merged[2].start_time_ms, 600_000);
    assert_eq!(merged[2].end_time_ms, 900_000);
}

#[test]
fn test_merge_replace_all_strategy() {
    let existing = vec![
        Chapter::new(1, "Chapter 1".to_string(), 0, 300_000),
        Chapter::new(2, "Chapter 2".to_string(), 300_000, 600_000),
    ];
    let new = vec![
        Chapter::new(1, "Prologue".to_string(), 0, 200_000),
        Chapter::new(2, "Chapter 1".to_string(), 200_000, 500_000),
        Chapter::new(3, "Chapter 2".to_string(), 500_000, 800_000),
    ];
    let merged = merge_chapters(&existing, &new, ChapterMergeStrategy::ReplaceAll).unwrap();
    assert_eq!(merged.len(), 3);
    assert_eq!(merged[0].title, "Prologue");
    assert_eq!(merged[0].start_time_ms, 0);
    assert_eq!(merged[0].end_time_ms, 200_000);
    assert_eq!(merged[2].title, "Chapter 2");
}

#[test]
fn test_merge_skip_on_mismatch_strategy() {
    let existing = vec![
        Chapter::new(1, "Chapter 1".to_string(), 0, 300_000),
        Chapter::new(2, "Chapter 2".to_string(), 300_000, 600_000),
    ];
    let new = vec![Chapter::new(1, "Single Chapter".to_string(), 0, 600_000)];
    let result = merge_chapters(&existing, &new, ChapterMergeStrategy::SkipOnMismatch);
    assert!(result.is_err());
    let err_msg = result.unwrap_err().message();
    assert!(err_msg.contains("Chapter count mismatch"));
    assert!(err_msg.contains("existing has 2"));
    assert!(err_msg.contains("new has 1"));
}

#[test]
fn test_merge_with_extra_existing_chapters() {
    let existing = vec![
        Chapter::new(1, "Chapter 1".to_string(), 0, 300_000),
        Chapter::new(2, "Chapter 2".to_string(), 300_000, 600_000),
        Chapter::new(3, "Chapter 3".to_string(), 600_000, 900_000),
        Chapter::new(4, "Chapter 4".to_string(), 900_000, 1_200_000),
    ];
    let new = vec![Chapter::new(1, "Prologue".to_string(), 0, 0), Chapter::new(2, "Part One".to_string(), 0, 0)];
    let merged = merge_chapters(&existing, &new, ChapterMergeStrategy::KeepTimestamps).unwrap();
    assert_eq!(merged.len(), 4);
    assert_eq!(merged[0].title, "Prologue");
    assert_eq!(merged[1].title, "Part One");
    assert_eq!(merged[2].title, "Chapter 3");
    assert_eq!(merged[3].title, "Chapter 4");
}

#[test]
fn test_parse_ffprobe_time() {
    assert_eq!(parse_ffprobe_time("0.000000"), Some(0));
    assert_eq!(parse_ffprobe_time("5.5"), Some(5500));
    assert_eq!(parse_ffprobe_time("330.500"), Some(330_500));
    assert_eq!(parse_ffprobe_time("3661.250"), Some(3_661_250));
    assert_eq!(parse_ffprobe_time("invalid"), None);
    assert_eq!(parse_ffprobe_time(""), None);
}

#[test]
fn parse_ffprobe_time_forms() {
    assert_eq!(parse_ffprobe_time("12"), Some(12_000));
    assert_eq!(parse_ffprobe_time(".25"), Some(250));
    assert_eq!(parse_ffprobe_time("7."), Some(7000));
    assert_eq!(parse_ffprobe_time("1.2345"), Some(1234));
    assert_eq!(parse_ffprobe_time("."), None);
    assert_eq!(parse_ffprobe_time("1.2.3"), None);
    assert_eq!(parse_ffprobe_time("99999999999999999999"), None);
}

#[test]
fn test_format_time_ms() {
    assert_eq!(format_time_ms(0), "00:00:00.000");
    assert_eq!(format_time_ms(1000), "00:00:01.000");
    assert_eq!(format_time_ms(60000), "00:01:00.000");
    assert_eq!(format_time_ms(3661500), "01:01:01.500");
}

#[test]
fn test_chapter_creation() {
    let chapter = Chapter::new(1, "Introduction".to_string(), 0, 60000);
    assert_eq!(chapter.number, 1);
    assert_eq!(chapter.title, "Introduction");
    assert_eq!(chapter.duration_ms(), 60000);
}

#[test]
fn test_generate_chapters_from_files() {
    let files = vec!["chapter01.mp3".to_string(), "chapter02.mp3".to_string(), "chapter03.mp3".to_string()];
    let durations = vec![120_500, 180_300, 95_700];
    let chapters = generate_chapters_from_files(&files, &durations);
    assert_eq!(chapters.len(), 3);
    assert_eq!(chapters[0].title, "chapter01");
    assert_eq!(chapters[0].start_time_ms, 0);
    assert_eq!(chapters[1].start_time_ms, 120500);
    assert_eq!(chapters[2].start_time_ms, 300800);
    assert_eq!(chapters[2].end_time_ms, 396500);
}

#[test]
fn test_chapter_mp4box_format() {
    let chapter = Chapter::new(1, "Test Chapter".to_string(), 0, 60000);
    let formatted = chapter.to_mp4box_format();
    assert!(formatted.contains("CHAPTER1=00:00:00.000"));
    assert!(formatted.contains("CHAPTER1NAME=Test Chapter"));
    assert_eq!(formatted, "CHAPTER1=00:00:00.000\nCHAPTER1NAME=Test Chapter\n");
}

#[test]
fn test_encoder_name() {
    assert_eq!(AacEncoder::AppleSilicon.name(), "aac_at");
    assert_eq!(AacEncoder::LibFdk.name(), "libfdk_aac");
    assert_eq!(AacEncoder::Native.name(), "aac");
}

#[test]
fn test_encoder_threading() {
    assert!(!AacEncoder::AppleSilicon.supports_threading());
    assert!(!AacEncoder::LibFdk.supports_threading());
    assert!(AacEncoder::Native.supports_threading());
}

#[test]
fn test_encoder_from_str() {
    assert_eq!(AacEncoder::from_str("aac_at"), Some(AacEncoder::AppleSilicon));
    assert_eq!(AacEncoder::from_str("libfdk_aac"), Some(AacEncoder::LibFdk));
    assert_eq!(AacEncoder::from_str("libfdk"), Some(AacEncoder::LibFdk));
    assert_eq!(AacEncoder::from_str("aac"), Some(AacEncoder::Native));
    assert_eq!(AacEncoder::from_str("unknown"), None);
    assert_eq!(AacEncoder::from_str("AAC_AT"), Some(AacEncoder::AppleSilicon));
}

#[test]
fn test_encoder_display() {
    assert_eq!(AacEncoder::AppleSilicon.to_name_string(), "aac_at");
    assert_eq!(AacEncoder::LibFdk.to_name_string(), "libfdk_aac");
    assert_eq!(AacEncoder::Native.to_name_string(), "aac");
}

#[test]
fn test_detect_encoder() {
    assert_eq!(EncoderDetector::detect_best_encoder(&vec![AacEncoder::Native]), AacEncoder::Native);
    assert_eq!(
        EncoderDetector::detect_best_encoder(&vec![AacEncoder::Native, AacEncoder::LibFdk]),
        AacEncoder::LibFdk
    );
    assert_eq!(
        EncoderDetector::detect_best_encoder(&vec![AacEncoder::LibFdk, AacEncoder::AppleSilicon]),
        AacEncoder::AppleSilicon
    );
    assert_eq!(EncoderDetector::detect_best_encoder(&vec![]), AacEncoder::Native);
}

#[test]
fn test_get_available_encoders() {
    let encoders = EncoderDetector::get_available_encoders([false, true, true]);
    assert_eq!(encoders, vec![AacEncoder::LibFdk, AacEncoder::Native]);
    assert!(EncoderDetector::get_available_encoders([false, false, false]).is_empty());
}

#[test]
fn encoder_resolution_order() {
    assert_eq!(resolve_encoder("auto", None, Some("libfdk"), AacEncoder::Native), AacEncoder::LibFdk);
    assert_eq!(resolve_encoder("auto", Some(true), Some("bogus"), AacEncoder::Native), AacEncoder::AppleSilicon);
    assert_eq!(resolve_encoder("aac_at", Some(false), None, AacEncoder::LibFdk), AacEncoder::Native);
    assert_eq!(resolve_encoder("AUTO", None, None, AacEncoder::LibFdk), AacEncoder::LibFdk);
    assert_eq!(resolve_encoder("aac", None, None, AacEncoder::LibFdk), AacEncoder::Native);
    assert_eq!(resolve_encoder("nonsense", None, None, AacEncoder::LibFdk), AacEncoder::LibFdk);
}

#[test]
fn test_ffmpeg_initialization() {
    let ffmpeg = FFmpeg::with_paths("ffmpeg".to_string(), "ffprobe".to_string());
    assert_eq!(ffmpeg.ffmpeg_path, "ffmpeg");
    assert_eq!(ffmpeg.ffprobe_path, "ffprobe");
}

#[test]
fn tool_arguments() {
    let q = QualityProfile::new(96, 44100, 1, "aac".to_string(), 0).unwrap();
    let copy = convert_args("in.mp3", "out.m4b", &q, true, AacEncoder::Native);
    assert_eq!(copy, vec!["-y", "-i", "in.mp3", "-vn", "-c", "copy", "-movflags", "+faststart", "out.m4b"]);
    let enc = concat_args("list.txt", "out.m4b", &q, false, AacEncoder::Native);
    assert_eq!(enc, vec![
        "-y", "-f", "concat", "-safe", "0", "-i", "list.txt", "-vn", "-c:a", "aac", "-b:a", "96k", "-ar", "44100",
        "-ac", "1", "-threads", "0", "-movflags", "+faststart", "out.m4b",
    ]);
    let hw = convert_args("a", "b", &q, false, AacEncoder::AppleSilicon);
    assert!(!hw.contains(&"-threads".to_string()));
    assert!(hw.contains(&"aac_at".to_string()));
}

#[test]
fn concat_list_escapes_quotes() {
    let list = concat_list(&vec!["/a/one.mp3".to_string(), "/a/it's.mp3".to_string()]);
    assert_eq!(list, "file '/a/one.mp3'\nfile '/a/it'\\''s.mp3'\n");
    assert_eq!(concat_list(&vec![]), "");
}

#[test]
fn tool_failures_mention_the_encoder() {
    let m = failure_message("Unknown Encoder 'aac_at'", AacEncoder::AppleSilicon, true);
    assert!(m.starts_with("FFmpeg encoding failed with encoder 'aac_at': Unknown Encoder"));
    assert!(m.contains("Tip:"));
    assert_eq!(failure_message("disk full", AacEncoder::Native, true), "FFmpeg concatenation failed: disk full");
    assert_eq!(failure_message("disk full", AacEncoder::Native, false), "FFmpeg conversion failed: disk full");
}

#[test]
fn test_analyzer_creation() {
    let analyzer = Analyzer::new(FFmpeg::with_paths("ffmpeg".to_string(), "ffprobe".to_string()));
    assert_eq!(analyzer.parallel_workers, 8);
}

#[test]
fn test_analyzer_with_workers() {
    let tool = FFmpeg::with_paths("ffmpeg".to_string(), "ffprobe".to_string());
    let analyzer = Analyzer::with_workers(tool.clone(), 4);
    assert_eq!(analyzer.parallel_workers, 4);
    let analyzer = Analyzer::with_workers(tool, 20);
    assert_eq!(analyzer.parallel_workers, 16);
}

#[test]
fn test_can_use_copy_mode() {
    let analyzer = Analyzer::new(FFmpeg::with_paths("ffmpeg".to_string(), "ffprobe".to_string()));
    let mut book = BookFolder::new("/test".to_string());
    let aac_quality = QualityProfile::new(128, 44100, 2, "aac".to_string(), 3_600_000).unwrap();
    book.tracks = vec![Track::new("1.m4a".to_string(), aac_quality.clone()), Track::new("2.m4a".to_string(), aac_quality)];
    assert!(analyzer.can_use_copy_mode(&book));
    let mp3_quality = QualityProfile::new(128, 44100, 2, "mp3".to_string(), 3_600_000).unwrap();
    book.tracks = vec![Track::new("1.mp3".to_string(), mp3_quality.clone()), Track::new("2.mp3".to_string(), mp3_quality)];
    assert!(!analyzer.can_use_copy_mode(&book));
}

#[test]
fn test_get_encoder_cached() {
    let mut cache = None;
    let encoder1 = audiobook_forge::encoder::get_encoder(&mut cache, &vec![AacEncoder::LibFdk, AacEncoder::Native]);
    let encoder2 = audiobook_forge::encoder::get_encoder(&mut cache, &vec![AacEncoder::Native]);
    assert_eq!(encoder1, encoder2);
    assert_eq!(encoder1, AacEncoder::LibFdk);
}

fn probe(stream_br: Option<&str>, format_br: Option<&str>, channels: Option<u64>) -> audiobook_forge::ffmpeg::ProbeFields {
    audiobook_forge::ffmpeg::ProbeFields {
        stream_bit_rate: stream_br.map(|s| s.to_string()),
        format_bit_rate: format_br.map(|s| s.to_string()),
        sample_rate: Some("44100".to_string()),
        channels,
        codec_name: Some("mp3".to_string()),
        stream_duration: Some("3600.5".to_string()),
        format_duration: Some("3600.5".to_string()),
    }
}

#[test]
fn test_parse_ffprobe_json() {
    let profile = profile_from_probe(&probe(Some("128000"), Some("128000"), Some(2))).unwrap();
    assert_eq!(profile.bitrate, 128);
    assert_eq!(profile.sample_rate, 44100);
    assert_eq!(profile.channels, 2);
    assert_eq!(profile.codec, "mp3");
    assert_eq!(profile.duration_ms, 3_600_500);
}

#[test]
fn probe_fallbacks_and_errors() {
    assert_eq!(profile_from_probe(&probe(None, Some("64000"), Some(1))).unwrap().bitrate, 64);
    assert_eq!(profile_from_probe(&probe(None, None, Some(1))).unwrap_err(), ProbeError::NoBitrate);
    assert_eq!(profile_from_probe(&probe(Some("12x"), None, Some(1))).unwrap_err(), ProbeError::NoBitrate);
    assert_eq!(profile_from_probe(&probe(Some("128000"), None, None)).unwrap_err(), ProbeError::NoChannels);
    assert_eq!(
        profile_from_probe(&probe(Some("128000"), None, Some(6))).unwrap_err(),
        ProbeError::Invalid(QualityError::BadChannels(6))
    );
    assert_eq!(
        profile_from_probe(&probe(Some("999"), None, Some(2))).unwrap_err(),
        ProbeError::Invalid(QualityError::ZeroBitrate)
    );
}

#[test]
fn test_cue_file_detection() {
    let sheet = "FILE \"book.mp3\" MP3\n  TRACK 01 AUDIO\n    TITLE \"Opening\"\n    INDEX 01 00:00:00\n  TRACK 02 AUDIO\r\n    TITLE \"The \"Middle\" Part\"\r\n    INDEX 01 05:30:15\r\n  TRACK 03 AUDIO\n    TITLE \"End\"\n    INDEX 01 61:00:74\n";
    let chapters = parse_cue(sheet);
    assert_eq!(chapters.len(), 3);
    assert_eq!(chapters[0].number, 1);
    assert_eq!(chapters[0].title, "Opening");
    assert_eq!((chapters[0].start_time_ms, chapters[0].end_time_ms), (0, 0));
    assert_eq!(chapters[1].number, 2);
    assert_eq!(chapters[1].title, "The \"Middle\" Part");
    assert_eq!((chapters[1].start_time_ms, chapters[1].end_time_ms), (0, 330_200));
    assert_eq!(chapters[2].title, "End");
    assert_eq!((chapters[2].start_time_ms, chapters[2].end_time_ms), (330_200, 3_660_986));
    assert!(parse_cue("TITLE \"\"\nINDEX 01 00:01:00\n").is_empty());
    assert!(parse_cue("").is_empty());
}
