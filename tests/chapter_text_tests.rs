use audiobook_forge::chapter_import::{ChapterError, TextFormat};
use audiobook_forge::chapter_text::{detect_text_format, parse_mp4box_format, parse_text_chapters, parse_timestamped_format};

#[test]
fn test_detect_simple_format() {
    assert_eq!(detect_text_format("Prologue\nChapter 1\nChapter 2"), TextFormat::Simple);
}

#[test]
fn test_detect_timestamped_format() {
    assert_eq!(detect_text_format("00:00:00 Prologue\n00:05:30 Chapter 1"), TextFormat::Timestamped);
}

#[test]
fn test_detect_mp4box_format() {
    assert_eq!(detect_text_format("CHAPTER1=00:00:00.000\nCHAPTER1NAME=Prologue"), TextFormat::Mp4Box);
}

#[test]
fn test_parse_timestamped_format() {
    let content = "0:00:00 Prologue\n0:05:30 Chapter 1\n0:15:45 Chapter 2";
    let chapters = parse_timestamped_format(content).unwrap();
    assert_eq!(chapters.len(), 3);
    assert_eq!(chapters[0].start_time_ms, 0);
    assert_eq!(chapters[1].start_time_ms, 330_000);
    assert_eq!(chapters[2].start_time_ms, 945_000);
}

#[test]
fn timestamped_separators_and_skips() {
    let content = "intro text\n1:00:00 - Part One\n01:00:05: Part Two\n\n2:00:00 -\n3:4:5 bad";
    let chapters = parse_timestamped_format(content).unwrap();
    assert_eq!(chapters.len(), 3);
    assert_eq!(chapters[0].number, 2);
    assert_eq!(chapters[0].title, "Part One");
    assert_eq!(chapters[0].end_time_ms, 3_605_000);
    assert_eq!(chapters[1].title, "Part Two");
    assert_eq!(chapters[2].title, "-");
    assert_eq!(chapters[2].start_time_ms, 7_200_000);
    assert_eq!(chapters[2].end_time_ms, 0);
    assert_eq!(parse_timestamped_format("no stamps").unwrap_err(), ChapterError::NoTimestampedChapters);
}

#[test]
fn chapter_import_test_parse_mp4box_format() {
    let content = "CHAPTER1=00:00:00.000\nCHAPTER1NAME=Prologue\nCHAPTER2=00:05:30.500\nCHAPTER2NAME=Chapter 1";
    let chapters = parse_mp4box_format(content).unwrap();
    assert_eq!(chapters.len(), 2);
    assert_eq!(chapters[0].title, "Prologue");
    assert_eq!(chapters[0].start_time_ms, 0);
    assert_eq!(chapters[1].title, "Chapter 1");
    assert_eq!(chapters[1].start_time_ms, 330_500);
}

#[test]
fn mp4box_order_overrides_and_defaults() {
    let content = "CHAPTER10=00:10:00.000\nCHAPTER2=00:02:00.000\nCHAPTER2NAME=Two\nCHAPTER2=00:03:00.000\nCHAPTER2NAME=  Second  \r\n";
    let chapters = parse_mp4box_format(content).unwrap();
    assert_eq!(chapters.len(), 2);
    assert_eq!(chapters[0].number, 2);
    assert_eq!(chapters[0].title, "Second");
    assert_eq!(chapters[0].start_time_ms, 180_000);
    assert_eq!(chapters[0].end_time_ms, 600_000);
    assert_eq!(chapters[1].number, 10);
    assert_eq!(chapters[1].title, "Chapter 10");
    assert_eq!(chapters[1].end_time_ms, 0);
    assert_eq!(parse_mp4box_format("CHAPTER1NAME=x").unwrap_err(), ChapterError::NoMp4BoxChapters);
    assert_eq!(
        parse_mp4box_format("CHAPTER99999999999=00:00:00.000").unwrap_err(),
        ChapterError::InvalidChapterNumber
    );
}

#[test]
fn test_parse_simple_text_file() {
    let chapters = parse_text_chapters("Prologue\nChapter 1: The Beginning\nChapter 2: The Journey\n\nEpilogue\n").unwrap();
    assert_eq!(chapters.len(), 4);
    assert_eq!(chapters[0].title, "Prologue");
    assert_eq!(chapters[1].title, "Chapter 1: The Beginning");
    assert_eq!(chapters[2].title, "Chapter 2: The Journey");
    assert_eq!(chapters[3].title, "Epilogue");
}

#[test]
fn test_parse_timestamped_text_file() {
    let chapters = parse_text_chapters("0:00:00 Prologue\n0:05:30 Chapter 1\n0:15:45 Chapter 2\n1:30:00 Epilogue\n").unwrap();
    assert_eq!(chapters.len(), 4);
    assert_eq!(chapters[0].start_time_ms, 0);
    assert_eq!(chapters[1].start_time_ms, 330_000);
    assert_eq!(chapters[2].start_time_ms, 945_000);
    assert_eq!(chapters[3].start_time_ms, 5_400_000);
    assert_eq!(chapters[0].end_time_ms, 330_000);
    assert_eq!(chapters[1].end_time_ms, 945_000);
    assert_eq!(chapters[2].end_time_ms, 5_400_000);
}

#[test]
fn chapter_integration_test_parse_mp4box_format() {
    let content = "CHAPTER1=00:00:00.000\nCHAPTER1NAME=Prologue\nCHAPTER2=00:05:30.500\nCHAPTER2NAME=Chapter 1: The Beginning\nCHAPTER3=00:15:45.250\nCHAPTER3NAME=Chapter 2: The Journey\n";
    let chapters = parse_text_chapters(content).unwrap();
    assert_eq!(chapters.len(), 3);
    assert_eq!(chapters[0].title, "Prologue");
    assert_eq!(chapters[0].start_time_ms, 0);
    assert_eq!(chapters[1].title, "Chapter 1: The Beginning");
    assert_eq!(chapters[1].start_time_ms, 330_500);
    assert_eq!(chapters[2].title, "Chapter 2: The Journey");
    assert_eq!(chapters[2].start_time_ms, 945_250);
}
