//! The sensor and display loops' arithmetic.

pub mod audio_task;
pub mod display_task;
