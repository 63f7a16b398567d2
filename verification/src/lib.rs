//! Pretty-printing of logstash-style JSON log lines.

pub mod colors;
pub mod json;
pub mod laws;
pub mod level;
pub mod options;
pub mod pipeline;
pub mod record;
pub mod render;
pub mod text;
pub mod timestamp;
