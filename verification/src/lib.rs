//! The orchestration of a clip download: the job that drives an external
//! transcoder, the parser of its progress reports, and the extraction of a
//! clip's streams and time range from the text of its page.

pub mod decimal;
pub mod download;
pub mod extract;
pub mod pattern;
