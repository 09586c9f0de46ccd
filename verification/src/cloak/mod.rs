//! The embedded browser: instance pool, fingerprints, injected scripts and
//! the platform hooks around the browser process.

pub mod apply;
pub mod cdp;
pub mod config;
pub mod fingerprint;
pub mod fingerprint_laws;
pub mod injector;
pub mod instance;
pub mod job;
pub mod pool;
pub mod position;
pub mod process;
pub mod window_embed;
pub mod pool_laws;
