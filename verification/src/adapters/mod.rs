//! The DLsite Play v3 API: request URLs and the data its responses carry.

pub mod download;
pub mod play_library;
pub mod viewer;
