//! Verified core of the RTJam real time music jam software.
pub mod float_text;
pub mod json_fields;
pub mod pedals;
pub mod search;
pub mod server;
pub mod sound;
