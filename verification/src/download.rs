//! Running the transcoder: the job with its states and listeners, the parser
//! of the transcoder's progress reports, and the plain download.

pub mod downloader;
pub mod ffmpeg;
pub mod progress;
pub mod run;
