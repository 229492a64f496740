//! The terminal outcome of processing one book.

use vstd::prelude::*;

verus! {

/// What became of one book: made once, by [`ProcessingResult::success`] or
/// [`ProcessingResult::failure`] on a fresh record.
#[derive(Debug, Clone)]
pub struct ProcessingResult {
    /// Name of the book.
    pub book_name: String,
    /// Whether the output was produced.
    pub success: bool,
    /// Path of the output file, on success.
    pub output_path: Option<String>,
    /// Time spent, in milliseconds.
    pub processing_time_ms: u64,
    /// What went wrong, on failure.
    pub error_message: Option<String>,
    /// Size of the output file in bytes, when known.
    pub output_size: Option<u64>,
    /// Whether the streams were copied rather than re-encoded.
    pub used_copy_mode: bool,
}

impl ProcessingResult {
    /// A fresh record for `book_name`, not yet successful.
    pub fn new(book_name: String) -> (r: ProcessingResult)
        ensures
            r.book_name == book_name,
            !r.success,
            r.output_path is None && r.error_message is None && r.output_size is None,
            r.processing_time_ms == 0,
            !r.used_copy_mode,
    {
        ProcessingResult {
            book_name,
            success: false,
            output_path: None,
            processing_time_ms: 0,
            error_message: None,
            output_size: None,
            used_copy_mode: false,
        }
    }

    /// This record marked successful, with the output path, the time spent,
    /// the copy-mode flag, and the output size when it could be read.
    pub fn success(
        self,
        output_path: String,
        processing_time_ms: u64,
        used_copy_mode: bool,
        output_size: Option<u64>,
    ) -> (r: ProcessingResult)
        ensures
            r.book_name == self.book_name,
            r.success,
            r.output_path == Some(output_path),
            r.processing_time_ms == processing_time_ms,
            r.used_copy_mode == used_copy_mode,
            r.output_size == output_size,
            r.error_message == self.error_message,
    {
        ProcessingResult {
            book_name: self.book_name,
            success: true,
            output_path: Some(output_path),
            processing_time_ms,
            error_message: self.error_message,
            output_size,
            used_copy_mode,
        }
    }

    /// This record marked failed, with the error message and the time spent.
    pub fn failure(self, error_message: String, processing_time_ms: u64) -> (r: ProcessingResult)
        ensures
            r.book_name == self.book_name,
            !r.success,
            r.error_message == Some(error_message),
            r.processing_time_ms == processing_time_ms,
            r.output_path == self.output_path,
            r.output_size == self.output_size,
            r.used_copy_mode == self.used_copy_mode,
    {
        ProcessingResult {
            book_name: self.book_name,
            success: false,
            output_path: self.output_path,
            processing_time_ms,
            error_message: Some(error_message),
            output_size: self.output_size,
            used_copy_mode: self.used_copy_mode,
        }
    }
}

} // verus!
