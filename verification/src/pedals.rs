//! effect pedals and the pedal board that chains them
pub mod controls;
pub mod delay_base;
pub mod distortion_base;
pub mod guitar_envelope;
pub mod midi_event;
pub mod pedal;
pub mod pedal_board;
pub mod room_simulator;
