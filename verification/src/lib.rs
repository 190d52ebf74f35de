//! Concurrent OCR dispatch core: per-path transcription outcomes are mapped
//! to typed events and streamed through a shared event sink, so that one
//! failing path never alters any other path's result.

pub mod dispatch;
pub mod event;
pub mod laws;
pub mod sink;
