// Debounced gesture recognition for a headset button and chapter-aware
// playback transport control, as verified state machines. The runtime that
// reads devices, sleeps and drives the audio sink feeds these with plain
// values (milliseconds on a monotonic clock, sink snapshots) and carries out
// the actions they return.

pub mod trigger_action;
pub mod button_handler;
pub mod debouncer;
pub mod dispatcher;
pub mod media_source;
pub mod chapters;
pub mod player;
pub mod time;
pub mod picture;
pub mod input;
pub mod output;
