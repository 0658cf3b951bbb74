//! Decision logic of an always-on instant-replay screen recorder: settings,
//! frame pacing, the segment rotation session, encoder arguments and the clip
//! finalizer.
pub mod finalize;
pub mod hotkey;
pub mod pacer;
pub mod session;
pub mod settings;
pub mod spawn;
