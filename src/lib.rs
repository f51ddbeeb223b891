pub mod alarm;
pub mod audio;
pub mod config;
pub mod format;
pub mod timer;
