//! Verified core of a small embedded camera web server: the multipart frame
//! framing and pacing of a live MJPEG stream, the storage-initialization
//! retry state machine, the bounded JSON form handler, and the access-point
//! configuration values.

pub mod config;
pub mod digits;
pub mod frame;
pub mod form;
pub mod session;
pub mod storage;
