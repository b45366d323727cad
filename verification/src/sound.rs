//! components used to make the rtjam_sound client
pub mod channel_map;
pub mod click_track;
pub mod client;
pub mod jam_engine;
pub mod jam_socket;
pub mod jitter_buffer;
pub mod midi_event;
pub mod mixer;
pub mod param_message;
