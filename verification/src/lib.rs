//! Core logic of a meeting-recording daemon: the recording state machine,
//! the framed IPC protocol, capture-target resolution, and the OGG/Opus
//! container writer, each with a verified contract.

pub mod crc;
pub mod daemon;
pub mod encoder;
pub mod ipc;
pub mod ogg;
pub mod resolve;
pub mod settings;
pub mod storage;
pub mod summary;
pub mod transcript;
pub mod text;
