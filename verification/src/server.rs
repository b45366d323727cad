//! components used by the broadcast server
pub mod audio_thread;
pub mod cmd_message;
pub mod metronome;
pub mod player_list;
