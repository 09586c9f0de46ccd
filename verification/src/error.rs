//! Shared enumerations of the application: platforms and account states.

use vstd::prelude::*;

verus! {

/// Social platform enumeration.
#[derive(Debug, Clone, PartialEq, Eq)]
pub enum Platform {
    WhatsApp,
    Facebook,
    Instagram,
    Telegram,
    Line,
    Messenger,
    TikTok,
    X,
    Zalo,
    Tgkcn,
    Custom(String),
}

/// Connection state of an account.
#[derive(Debug, Clone, PartialEq, Eq)]
pub enum AccountStatus {
    Offline,
    Connecting,
    Online,
    Disconnected,
    Error(String),
}

} // verus!
