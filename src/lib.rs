//! Batch conversion of audiobook folders: folder classification, quality
//! profiles, assembly strategy selection, retry policy, scheduling and
//! folder organisation, with the text formats they read and write.

pub mod text;
pub mod path;
pub mod sorting;

pub mod quality;
pub mod track;
pub mod book;
pub mod result;
pub mod config;

pub mod encoder;
pub mod ffmpeg;
pub mod chapters;
pub mod chapter_import;
pub mod chapter_text;
pub mod cue;

pub mod retry;
pub mod pool;
pub mod processor;
pub mod batch;
pub mod progress;
pub mod scanner;
pub mod organizer;
pub mod analyzer;

pub mod audible;
pub mod catalogue_text;
pub mod scoring;
pub mod extraction;
pub mod prompts;
pub mod cache;
pub mod validation;
