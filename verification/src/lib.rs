//! The playback core of a streaming player.
pub mod alsa;
pub mod command;
pub mod config;
pub mod effect;
pub mod json;
pub mod laws;
pub mod load;
pub mod load_laws;
pub mod message_laws;
pub mod metadata;
pub mod player;
pub mod state;
pub mod text;
pub mod token;
