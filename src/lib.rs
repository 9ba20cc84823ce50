//! Resumable downloads into a local file, and a multi-row terminal progress view.
//!
//! The library makes every decision of a download (how local files are
//! reconciled with the remote size, what to request, how to read answers and
//! failures, what progress to show) and computes the terminal output of the
//! progress view. The program around it performs the requests, file
//! operations, pauses and writes.
pub mod downloader;
pub mod error;
pub mod headers;
pub mod progress;
pub mod session;
pub mod text;

pub use downloader::Downloader;
pub use error::DownloadError;
pub use progress::ProgressManager;
