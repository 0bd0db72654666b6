//! Supervision of an out-of-process speech-recognition worker: discovery of the
//! worker executable, the launch policy, the line protocol spoken over the
//! worker's standard streams, and the recording session driven by a hotkey.

pub mod text;
pub mod platform;
pub mod discovery;
pub mod protocol;
pub mod session;
pub mod events;
pub mod supervisor;
pub mod settings;
