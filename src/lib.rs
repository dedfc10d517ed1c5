//! A terminal music player's core: the playback state shared between the
//! command path and the progress renderer, the renderer's tick, the rendered
//! frame, the controller's decisions on playback commands, and the parsing of
//! the interactive commands.

pub mod audio_handler;
pub mod command;
pub mod errors;
pub mod playback_state;
pub mod progress;
pub mod time_format;
pub mod track;
