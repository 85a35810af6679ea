//! Scopobot's companion logic: the normalised device state, the Director that
//! turns state changes into animations, character-pack validation and playback,
//! and the small rules around them (launch modes, dialogue, weather, sampling).

pub mod reading;
pub mod state;
pub mod director;
pub mod text;
pub mod pack;
pub mod imaging;
pub mod dialogue;
pub mod launch;
pub mod weather;
pub mod sensors;
pub mod settings;
pub mod console;
pub mod companion;
pub mod laws;
