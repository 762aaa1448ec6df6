//! A terminal music player for Tidal: the state machine of the player and
//! of its screens, the messages it shows, and the protocol it speaks with the
//! helper script and with the audio process.
pub mod app;
pub mod i18n;
pub mod laws;
pub mod media;
pub mod player;
pub mod text;
pub mod tidal;
