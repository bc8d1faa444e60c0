//! Verified core of a video download backend: request planning, command
//! construction, metadata shaping and the download task state machine.

pub mod text;
pub mod request;
pub mod conversion;
pub mod source;
pub mod inspect;
pub mod task;
pub mod output;
pub mod pipeline;
pub mod laws;
pub mod tools;
pub mod errors;
