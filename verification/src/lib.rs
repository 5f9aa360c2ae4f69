//! A layered packet-decoding library: raw capture frames are decoded through
//! link, network and transport layers into structured records, formatted as
//! one-line summaries, and replayed or mirrored in arrival order.

pub mod config;
pub mod decode;
pub mod driver;
pub mod parse;
pub mod raw_headers;
pub mod record;
pub mod render;
pub mod report;
