//! Control core of a push-to-talk dictation tool: the recording session
//! controller, the clipboard-based text injector and the backend protocol.

pub mod backend;
pub mod inject;
pub mod session;
pub mod utf16;
