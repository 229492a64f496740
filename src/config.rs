//! Configuration values and their defaults, and the checks made on them.

use vstd::prelude::*;
use crate::text::{decimal, push_decimal, push_str, string_of, text_is};

verus! {

/// Everything the tool can be configured with.
#[derive(Debug, Clone)]
pub struct Config {
    pub directories: DirectoryConfig,
    pub performance: PerformanceConfig,
    pub processing: ProcessingConfig,
    pub quality: QualityConfig,
    pub metadata: MetadataConfig,
    pub organization: OrganizationConfig,
    pub logging: LoggingConfig,
    pub advanced: AdvancedConfig,
}

/// Source and output directories.
#[derive(Debug, Clone)]
pub struct DirectoryConfig {
    /// Directory to scan, if fixed.
    pub source: Option<String>,
    /// Output directory, or "same_as_source".
    pub output: String,
}

/// Concurrency settings, as written in the configuration file.
#[derive(Debug, Clone)]
pub struct PerformanceConfig {
    /// Books encoded at once: a number or "auto".
    pub max_concurrent_encodes: String,
    /// Encode the tracks of one book in parallel.
    pub enable_parallel_encoding: bool,
    /// Encoder speed preset name.
    pub encoding_preset: String,
    /// Tracks of one book encoded at once: a number or "auto".
    pub max_concurrent_files_per_book: String,
}

/// Batch processing settings.
#[derive(Debug, Clone)]
pub struct ProcessingConfig {
    pub parallel_workers: u8,
    pub skip_existing: bool,
    pub force_reprocess: bool,
    pub normalize_existing: bool,
    pub keep_temp_files: bool,
    pub max_retries: u8,
    /// Delay between retries, in seconds.
    pub retry_delay: u64,
}

/// Output quality settings.
#[derive(Debug, Clone)]
pub struct QualityConfig {
    pub prefer_stereo: bool,
    /// Chapter source policy: auto, files, cue, id3 or none.
    pub chapter_source: String,
    pub default_bitrate: String,
    pub default_sample_rate: String,
}

/// How metadata is matched against the online catalogue.
#[derive(Debug, Clone, Copy, PartialEq, Eq, Structural)]
pub enum MatchMode {
    Disabled,
    Auto,
    Interactive,
}

/// Metadata settings.
#[derive(Debug, Clone)]
pub struct MetadataConfig {
    pub default_language: String,
    /// File names taken as cover images, compared without regard to case.
    pub cover_filenames: Vec<String>,
    pub auto_extract_cover: bool,
    pub audible: AudibleConfig,
    pub match_mode: MatchMode,
}

/// Online catalogue settings.
#[derive(Debug, Clone)]
pub struct AudibleConfig {
    pub enabled: bool,
    pub region: String,
    pub auto_match: bool,
    pub download_covers: bool,
    pub cache_duration_hours: u64,
    pub rate_limit_per_minute: u32,
    pub api_max_retries: u8,
    pub api_retry_delay_secs: u64,
    pub api_max_retry_delay_secs: u64,
}

/// Names of the destination folders used when organising.
#[derive(Debug, Clone)]
pub struct OrganizationConfig {
    /// Folder for books that already have a finished output.
    pub m4b_folder: String,
    /// Folder for books still to be converted.
    pub convert_folder: String,
}

/// Logging settings.
#[derive(Debug, Clone)]
pub struct LoggingConfig {
    pub log_to_file: bool,
    pub log_file: Option<String>,
    pub log_level: String,
}

/// Tool locations and encoder choice.
#[derive(Debug, Clone)]
pub struct AdvancedConfig {
    pub ffmpeg_path: Option<String>,
    pub atomic_parsley_path: Option<String>,
    pub mp4box_path: Option<String>,
    pub temp_directory: Option<String>,
    pub use_apple_silicon_encoder: Option<bool>,
    pub aac_encoder: String,
}

/// The default output directory setting.
pub fn default_output() -> (r: String)
    ensures
        r@ == "same_as_source"@,
{
    "same_as_source".to_owned()
}

/// The default number of books encoded at once.
pub fn default_max_concurrent_encodes() -> (r: String)
    ensures
        r@ == "auto"@,
{
    "auto".to_owned()
}

/// The default encoder speed preset.
pub fn default_encoding_preset() -> (r: String)
    ensures
        r@ == "balanced"@,
{
    "balanced".to_owned()
}

/// The default number of tracks of one book encoded at once.
pub fn default_max_concurrent_files_per_book() -> (r: String)
    ensures
        r@ == "8"@,
{
    "8".to_owned()
}

/// The default number of retries.
pub fn default_max_retries() -> (r: u8)
    ensures
        r == 2,
{
    2
}

/// The default delay between retries, in seconds.
pub fn default_retry_delay() -> (r: u64)
    ensures
        r == 1,
{
    1
}

/// The default number of parallel workers.
pub fn default_parallel_workers() -> (r: u8)
    ensures
        r == 2,
{
    2
}

/// The value `true`, the default of several switches.
pub fn default_true() -> (r: bool)
    ensures
        r,
{
    true
}

/// The default chapter source policy.
pub fn default_chapter_source() -> (r: String)
    ensures
        r@ == "auto"@,
{
    "auto".to_owned()
}

/// The default bitrate setting.
pub fn default_bitrate() -> (r: String)
    ensures
        r@ == "auto"@,
{
    "auto".to_owned()
}

/// The default sample rate setting.
pub fn default_sample_rate() -> (r: String)
    ensures
        r@ == "auto"@,
{
    "auto".to_owned()
}

/// The default metadata language.
pub fn default_language() -> (r: String)
    ensures
        r@ == "es"@,
{
    "es".to_owned()
}

/// The cover file names looked for by default.
pub open spec fn default_cover_names() -> Seq<Seq<char>> {
    seq!["cover.jpg"@, "folder.jpg"@, "cover.png"@, "folder.png"@]
}

/// The texts of a list of strings.
pub open spec fn names_of(v: Seq<String>) -> Seq<Seq<char>> {
    v.map_values(|s: String| s@)
}

/// The default cover file names.
pub fn default_cover_filenames() -> (r: Vec<String>)
    ensures
        names_of(r@) == default_cover_names(),
{
    let mut v: Vec<String> = Vec::new();
    v.push("cover.jpg".to_owned());
    v.push("folder.jpg".to_owned());
    v.push("cover.png".to_owned());
    v.push("folder.png".to_owned());
    assert(names_of(v@) =~= default_cover_names());
    v
}

/// Embedded covers are extracted by default.
pub fn default_auto_extract_cover() -> (r: bool)
    ensures
        r,
{
    true
}

/// The default catalogue region.
pub fn default_audible_region() -> (r: String)
    ensures
        r@ == "us"@,
{
    "us".to_owned()
}

/// The default catalogue cache lifetime, in hours (seven days).
pub fn default_cache_duration() -> (r: u64)
    ensures
        r == 168,
{
    168
}

/// The default catalogue request rate, per minute.
pub fn default_rate_limit() -> (r: u32)
    ensures
        r == 100,
{
    100
}

/// The default number of catalogue request retries.
pub fn default_api_max_retries() -> (r: u8)
    ensures
        r == 3,
{
    3
}

/// The default first delay between catalogue retries, in seconds.
pub fn default_api_retry_delay() -> (r: u64)
    ensures
        r == 1,
{
    1
}

/// The default longest delay between catalogue retries, in seconds.
pub fn default_api_max_retry_delay() -> (r: u64)
    ensures
        r == 30,
{
    30
}

/// The default folder for finished books.
pub fn default_m4b_folder() -> (r: String)
    ensures
        r@ == "M4B"@,
{
    "M4B".to_owned()
}

/// The default folder for books to convert.
pub fn default_convert_folder() -> (r: String)
    ensures
        r@ == "To_Convert"@,
{
    "To_Convert".to_owned()
}

/// The default log level.
pub fn default_log_level() -> (r: String)
    ensures
        r@ == "INFO"@,
{
    "INFO".to_owned()
}

/// The default encoder setting.
pub fn default_aac_encoder() -> (r: String)
    ensures
        r@ == "auto"@,
{
    "auto".to_owned()
}

impl Default for DirectoryConfig {
    fn default() -> (r: DirectoryConfig)
        ensures
            r.source is None,
            r.output@ == "same_as_source"@,
    {
        DirectoryConfig { source: None, output: default_output() }
    }
}

impl Default for PerformanceConfig {
    fn default() -> (r: PerformanceConfig)
        ensures
            r.max_concurrent_encodes@ == "auto"@,
            r.enable_parallel_encoding,
            r.encoding_preset@ == "balanced"@,
            r.max_concurrent_files_per_book@ == "8"@,
    {
        PerformanceConfig {
            max_concurrent_encodes: default_max_concurrent_encodes(),
            enable_parallel_encoding: true,
            encoding_preset: default_encoding_preset(),
            max_concurrent_files_per_book: default_max_concurrent_files_per_book(),
        }
    }
}

impl Default for ProcessingConfig {
    fn default() -> (r: ProcessingConfig)
        ensures
            r.parallel_workers == 2,
            r.skip_existing,
            !r.force_reprocess,
            !r.normalize_existing,
            !r.keep_temp_files,
            r.max_retries == 2,
            r.retry_delay == 1,
    {
        ProcessingConfig {
            parallel_workers: default_parallel_workers(),
            skip_existing: true,
            force_reprocess: false,
            normalize_existing: false,
            keep_temp_files: false,
            max_retries: default_max_retries(),
            retry_delay: default_retry_delay(),
        }
    }
}

impl Default for QualityConfig {
    fn default() -> (r: QualityConfig)
        ensures
            r.prefer_stereo,
            r.chapter_source@ == "auto"@,
            r.default_bitrate@ == "auto"@,
            r.default_sample_rate@ == "auto"@,
    {
        QualityConfig {
            prefer_stereo: true,
            chapter_source: default_chapter_source(),
            default_bitrate: default_bitrate(),
            default_sample_rate: default_sample_rate(),
        }
    }
}

impl Default for MatchMode {
    fn default() -> (r: MatchMode)
        ensures
            r == MatchMode::Disabled,
    {
        MatchMode::Disabled
    }
}

impl Default for AudibleConfig {
    fn default() -> (r: AudibleConfig)
        ensures
            !r.enabled,
            r.region@ == "us"@,
            !r.auto_match,
            r.download_covers,
            r.cache_duration_hours == 168,
            r.rate_limit_per_minute == 100,
            r.api_max_retries == 3,
            r.api_retry_delay_secs == 1,
            r.api_max_retry_delay_secs == 30,
    {
        AudibleConfig {
            enabled: false,
            region: default_audible_region(),
            auto_match: false,
            download_covers: true,
            cache_duration_hours: default_cache_duration(),
            rate_limit_per_minute: default_rate_limit(),
            api_max_retries: default_api_max_retries(),
            api_retry_delay_secs: default_api_retry_delay(),
            api_max_retry_delay_secs: default_api_max_retry_delay(),
        }
    }
}

impl Default for MetadataConfig {
    fn default() -> (r: MetadataConfig)
        ensures
            r.default_language@ == "es"@,
            names_of(r.cover_filenames@) == default_cover_names(),
            r.auto_extract_cover,
            !r.audible.enabled,
            r.audible.region@ == "us"@,
            r.match_mode == MatchMode::Disabled,
    {
        MetadataConfig {
            default_language: default_language(),
            cover_filenames: default_cover_filenames(),
            auto_extract_cover: default_auto_extract_cover(),
            audible: AudibleConfig::default(),
            match_mode: MatchMode::default(),
        }
    }
}

impl Default for OrganizationConfig {
    fn default() -> (r: OrganizationConfig)
        ensures
            r.m4b_folder@ == "M4B"@,
            r.convert_folder@ == "To_Convert"@,
    {
        OrganizationConfig { m4b_folder: default_m4b_folder(), convert_folder: default_convert_folder() }
    }
}

impl Default for LoggingConfig {
    fn default() -> (r: LoggingConfig)
        ensures
            !r.log_to_file,
            r.log_file is None,
            r.log_level@ == "INFO"@,
    {
        LoggingConfig { log_to_file: false, log_file: None, log_level: default_log_level() }
    }
}

impl Default for AdvancedConfig {
    fn default() -> (r: AdvancedConfig)
        ensures
            r.ffmpeg_path is None && r.atomic_parsley_path is None && r.mp4box_path is None,
            r.temp_directory is None && r.use_apple_silicon_encoder is None,
            r.aac_encoder@ == "auto"@,
    {
        AdvancedConfig {
            ffmpeg_path: None,
            atomic_parsley_path: None,
            mp4box_path: None,
            temp_directory: None,
            use_apple_silicon_encoder: None,
            aac_encoder: default_aac_encoder(),
        }
    }
}

impl Default for Config {
    fn default() -> (r: Config)
        ensures
            r.directories.source is None,
            r.directories.output@ == "same_as_source"@,
            r.performance.enable_parallel_encoding,
            r.processing.parallel_workers == 2,
            r.processing.max_retries == 2,
            r.processing.retry_delay == 1,
            !r.processing.keep_temp_files,
            r.quality.prefer_stereo,
            r.quality.chapter_source@ == "auto"@,
            r.metadata.default_language@ == "es"@,
            names_of(r.metadata.cover_filenames@) == default_cover_names(),
            r.metadata.auto_extract_cover,
            r.organization.m4b_folder@ == "M4B"@,
            r.organization.convert_folder@ == "To_Convert"@,
            r.logging.log_level@ == "INFO"@,
            r.advanced.aac_encoder@ == "auto"@,
            r.advanced.use_apple_silicon_encoder is None,
    {
        Config {
            directories: DirectoryConfig::default(),
            performance: PerformanceConfig::default(),
            processing: ProcessingConfig::default(),
            quality: QualityConfig::default(),
            metadata: MetadataConfig::default(),
            organization: OrganizationConfig::default(),
            logging: LoggingConfig::default(),
            advanced: AdvancedConfig::default(),
        }
    }
}

/// What `str::to_uppercase` makes of a character sequence.
pub uninterp spec fn upper_of(s: Seq<char>) -> Seq<char>;

/// Relies on `str::to_uppercase`: the result depends on the characters alone.
#[verifier::external_body]
fn to_upper(s: &str) -> (r: String)
    ensures
        r@ == upper_of(s@),
{
    s.to_uppercase()
}

/// The chapter source policies that are recognised.
pub open spec fn known_chapter_source(s: Seq<char>) -> bool {
    s == "auto"@ || s == "files"@ || s == "cue"@ || s == "id3"@ || s == "none"@
}

/// The log levels that are recognised (in capitals).
pub open spec fn known_log_level(s: Seq<char>) -> bool {
    s == "TRACE"@ || s == "DEBUG"@ || s == "INFO"@ || s == "WARN"@ || s == "ERROR"@
}

/// The warnings for a configuration, in order: workers outside [1, 8], an
/// unknown chapter source, an unknown log level, a missing source directory.
pub open spec fn config_warnings(c: Config, source_exists: bool) -> Seq<Seq<char>> {
    let w1: Seq<Seq<char>> = if c.processing.parallel_workers < 1 || c.processing.parallel_workers > 8 {
        seq![
            "parallel_workers ("@ + decimal(c.processing.parallel_workers as nat)
                + ") should be between 1 and 8"@,
        ]
    } else {
        Seq::empty()
    };
    let w2: Seq<Seq<char>> = if !known_chapter_source(c.quality.chapter_source@) {
        seq![
            "chapter_source '"@ + c.quality.chapter_source@
                + "' is not recognized. Valid options: auto, files, cue, id3, none"@,
        ]
    } else {
        Seq::empty()
    };
    let w3: Seq<Seq<char>> = if !known_log_level(upper_of(c.logging.log_level@)) {
        seq![
            "log_level '"@ + c.logging.log_level@
                + "' is not recognized. Valid options: TRACE, DEBUG, INFO, WARN, ERROR"@,
        ]
    } else {
        Seq::empty()
    };
    let w4: Seq<Seq<char>> = match c.directories.source {
        Some(p) => if !source_exists {
            seq!["source directory does not exist: "@ + p@]
        } else {
            Seq::empty()
        },
        None => Seq::empty(),
    };
    w1 + w2 + w3 + w4
}

/// Loading, saving and checking configuration.
pub struct ConfigManager;

fn text_of(parts: &Vec<char>) -> (r: String)
    ensures
        r@ == parts@,
{
    string_of(parts)
}

impl ConfigManager {
    /// The warnings for `config` (see [`config_warnings`]); `source_exists`
    /// tells whether the configured source directory, if any, exists.
    pub fn validate(config: &Config, source_exists: bool) -> (r: Vec<String>)
        ensures
            names_of(r@) == config_warnings(*config, source_exists),
    {
        let mut warnings: Vec<String> = Vec::new();
        let ghost c = *config;
        let w = config.processing.parallel_workers;
        if w < 1 || w > 8 {
            let mut v: Vec<char> = Vec::new();
            push_str(&mut v, "parallel_workers (");
            push_decimal(&mut v, w as u64);
            push_str(&mut v, ") should be between 1 and 8");
            warnings.push(text_of(&v));
        }
        let ghost g1 = names_of(warnings@);
        let cs = config.quality.chapter_source.as_str();
        if !(text_is(cs, "auto") || text_is(cs, "files") || text_is(cs, "cue") || text_is(cs, "id3")
            || text_is(cs, "none")) {
            let mut m = "chapter_source '".to_owned();
            m.append(cs);
            m.append("' is not recognized. Valid options: auto, files, cue, id3, none");
            warnings.push(m);
        }
        let ghost g2 = names_of(warnings@);
        let up = to_upper(config.logging.log_level.as_str());
        let u = up.as_str();
        if !(text_is(u, "TRACE") || text_is(u, "DEBUG") || text_is(u, "INFO") || text_is(u, "WARN")
            || text_is(u, "ERROR")) {
            let mut m = "log_level '".to_owned();
            m.append(config.logging.log_level.as_str());
            m.append("' is not recognized. Valid options: TRACE, DEBUG, INFO, WARN, ERROR");
            warnings.push(m);
        }
        let ghost g3 = names_of(warnings@);
        if let Some(p) = &config.directories.source {
            if !source_exists {
                let mut m = "source directory does not exist: ".to_owned();
                m.append(p.as_str());
                warnings.push(m);
            }
        }
        assert(names_of(warnings@) =~= config_warnings(c, source_exists));
        warnings
    }
}

} // verus!
