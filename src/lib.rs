//! Encoding of typed telemetry values into the records of a Sparkplug-style
//! payload, with the birth/death sequencing of an edge node.

pub mod error;
pub mod record;
pub mod schema;
pub mod sequence;
pub mod text;
pub mod types;
pub mod value;
