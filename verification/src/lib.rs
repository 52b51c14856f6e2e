//! Coordination and playback logic for a notification-sound player that
//! ducks whatever audio is currently playing, plays a short sound, and then
//! restores the audio exactly as it was.
//!
//! The crate holds the decisions only: every function maps plain values to
//! plain values, and a thin host program performs the commands, sleeps and
//! file accesses that these functions hand out.

pub mod fade;
pub mod guard;
pub mod lock;
pub mod playback;
pub mod pulse;
pub mod queue;
pub mod server;
pub mod sound;
pub mod text;
