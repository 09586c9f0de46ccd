//! The browser installer tooling: fetching and checking a download,
//! choosing how to install, and the first generation of fingerprints.

pub mod downloader;
pub mod fingerprint;
pub mod installer;
