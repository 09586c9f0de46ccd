//! The decisions behind the application's commands.

pub mod browser;
