//! Reading a clip's streams and time range out of its page.

pub mod extractor;
