//! A small Pomodoro timer library together with a Base16 palette resolver.
//!
//! The heart of the crate is the phase computation: given the seconds elapsed
//! since a session started and a configured cadence (work length, short-break
//! length, long-break length, number of work blocks per long break), decide
//! which phase the session is in and how much of it remains. Around it sit a
//! flat session record with a binary codec, a status-line renderer, a palette
//! alias resolver, and the argument builders for a status-bar bridge.

pub mod codec;
pub mod colors;
pub mod palette;
pub mod phase;
pub mod render;
pub mod sketchybar;
pub mod state;
pub mod strutil;

pub use colors::load_colors;
pub use colors::Colors;
pub use palette::get_color;
pub use palette::ColorError;
pub use palette::Palette;
pub use phase::current_pomo_state;
pub use phase::CurrentStates;
pub use render::update;
pub use sketchybar::sketchybar_handler;
pub use sketchybar::SketchybarCommand;
pub use state::State;
