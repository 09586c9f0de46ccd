//! Verified core of a multi-account chat desktop client: the browser
//! instance pool and its scheduling rules, fingerprint generation, the
//! account/session data model, and the decisions made around launching
//! and installing the embedded browser.

pub mod text;
pub mod cloak;
pub mod commands;
pub mod config;
pub mod error;
pub mod scripts;
pub mod storage;
