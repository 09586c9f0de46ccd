//! Record types of the stored data, and the text form of a platform.

use vstd::prelude::*;
use std::collections::HashMap;
use crate::text::{owned, str_eq};

verus! {

/// A social platform an account belongs to.
#[derive(Debug, Clone)]
pub enum Platform {
    WhatsApp,
    Facebook,
    Instagram,
    Telegram,
    Line,
    Messenger,
    TikTok,
    X,
    Zalo,
    Tgkcn,
    Custom(String),
}

/// The stored text of a platform: its lower-case name, or `custom_` and the
/// custom name.
pub open spec fn platform_text(p: Platform) -> Seq<char> {
    match p {
        Platform::WhatsApp => "whatsapp"@,
        Platform::Facebook => "facebook"@,
        Platform::Instagram => "instagram"@,
        Platform::Telegram => "telegram"@,
        Platform::Line => "line"@,
        Platform::Messenger => "messenger"@,
        Platform::TikTok => "tiktok"@,
        Platform::X => "x"@,
        Platform::Zalo => "zalo"@,
        Platform::Tgkcn => "tgkcn"@,
        Platform::Custom(s) => "custom_"@ + s@,
    }
}

/// `p` is what the text `s` reads as: the platform of that lower-case name,
/// or a custom platform named by the whole text.
pub open spec fn parsed_as(s: Seq<char>, p: Platform) -> bool {
    if s == "whatsapp"@ {
        p is WhatsApp
    } else if s == "facebook"@ {
        p is Facebook
    } else if s == "instagram"@ {
        p is Instagram
    } else if s == "telegram"@ {
        p is Telegram
    } else if s == "line"@ {
        p is Line
    } else if s == "messenger"@ {
        p is Messenger
    } else if s == "tiktok"@ {
        p is TikTok
    } else if s == "x"@ {
        p is X
    } else if s == "zalo"@ {
        p is Zalo
    } else if s == "tgkcn"@ {
        p is Tgkcn
    } else {
        p matches Platform::Custom(c) && c@ == s
    }
}

impl Platform {
    /// The stored text of this platform (see `platform_text`).
    pub fn to_text(&self) -> (r: String)
        ensures
            r@ == platform_text(*self),
    {
        match self {
            Platform::WhatsApp => owned("whatsapp"),
            Platform::Facebook => owned("facebook"),
            Platform::Instagram => owned("instagram"),
            Platform::Telegram => owned("telegram"),
            Platform::Line => owned("line"),
            Platform::Messenger => owned("messenger"),
            Platform::TikTok => owned("tiktok"),
            Platform::X => owned("x"),
            Platform::Zalo => owned("zalo"),
            Platform::Tgkcn => owned("tgkcn"),
            Platform::Custom(s) => {
                let mut r = owned("custom_");
                r.append(s.as_str());
                r
            },
        }
    }

    /// The platform a stored text reads as (see `parsed_as`); every text
    /// reads as some platform.
    pub fn parse(s: &str) -> (r: Platform)
        ensures
            parsed_as(s@, r),
    {
        if str_eq(s, "whatsapp") {
            Platform::WhatsApp
        } else if str_eq(s, "facebook") {
            Platform::Facebook
        } else if str_eq(s, "instagram") {
            Platform::Instagram
        } else if str_eq(s, "telegram") {
            Platform::Telegram
        } else if str_eq(s, "line") {
            Platform::Line
        } else if str_eq(s, "messenger") {
            Platform::Messenger
        } else if str_eq(s, "tiktok") {
            Platform::TikTok
        } else if str_eq(s, "x") {
            Platform::X
        } else if str_eq(s, "zalo") {
            Platform::Zalo
        } else if str_eq(s, "tgkcn") {
            Platform::Tgkcn
        } else {
            Platform::Custom(owned(s))
        }
    }
}

impl std::str::FromStr for Platform {
    type Err = String;

    fn from_str(s: &str) -> (r: Result<Platform, String>)
        ensures
            r matches Ok(p) && parsed_as(s@, p),
    {
        Ok(Platform::parse(s))
    }
}

/// A named platform reads back from its stored text as itself; a custom
/// platform reads back as a custom platform named by its whole stored text
/// (`custom_` included).
pub proof fn law_platform_text_round_trip(p: Platform)
    ensures
        !(p is Custom) ==> parsed_as(platform_text(p), p),
        p matches Platform::Custom(c) ==> forall|q: Platform| parsed_as(platform_text(p), q) <==> (q matches Platform::Custom(d) && d@ == "custom_"@ + c@),
{
    reveal_strlit("whatsapp");
    reveal_strlit("facebook");
    reveal_strlit("instagram");
    reveal_strlit("telegram");
    reveal_strlit("line");
    reveal_strlit("messenger");
    reveal_strlit("tiktok");
    reveal_strlit("x");
    reveal_strlit("zalo");
    reveal_strlit("tgkcn");
    reveal_strlit("custom_");
    assert("whatsapp"@.len() == 8 && "whatsapp"@[0] == 'w' && "whatsapp"@[7] == 'p');
    assert("facebook"@.len() == 8 && "facebook"@[0] == 'f' && "facebook"@[7] == 'k');
    assert("instagram"@.len() == 9 && "instagram"@[0] == 'i' && "instagram"@[8] == 'm');
    assert("telegram"@.len() == 8 && "telegram"@[0] == 't' && "telegram"@[7] == 'm');
    assert("line"@.len() == 4 && "line"@[0] == 'l' && "line"@[3] == 'e');
    assert("messenger"@.len() == 9 && "messenger"@[0] == 'm' && "messenger"@[8] == 'r');
    assert("tiktok"@.len() == 6 && "tiktok"@[0] == 't' && "tiktok"@[5] == 'k');
    assert("x"@.len() == 1 && "x"@[0] == 'x' && "x"@[0] == 'x');
    assert("zalo"@.len() == 4 && "zalo"@[0] == 'z' && "zalo"@[3] == 'o');
    assert("tgkcn"@.len() == 5 && "tgkcn"@[0] == 't' && "tgkcn"@[4] == 'n');
    if let Platform::Custom(c) = p {
        let t = "custom_"@ + c@;
        assert(t[0] == 'c');
        assert(t.len() >= 7);
        assert(t[1] == 'u');
        assert(t[6] == '_');
    }
}

/// A proxy stored with an account.
#[derive(Debug, Clone)]
pub struct ProxyConfig {
    pub proxy_type: String,
    pub host: String,
    pub port: u16,
    pub username: Option<String>,
    pub password: Option<String>,
}

/// A social media account.
#[derive(Debug, Clone)]
pub struct Account {
    pub id: String,
    pub platform: Platform,
    pub nickname: String,
    pub avatar_url: Option<String>,
    pub status: String,
    pub proxy: Option<ProxyConfig>,
    pub fingerprint: String,
    pub user_data_dir: String,
    pub cookie_encrypted: Option<Vec<u8>>,
    pub sort_order: i32,
    pub created_at: i64,
    pub updated_at: i64,
}

/// A conversation of an account.
#[derive(Debug, Clone)]
pub struct Session {
    pub id: String,
    pub platform: String,
    pub account_id: String,
    pub contact_id: Option<String>,
    pub group_id: Option<String>,
    pub name: String,
    pub avatar_url: Option<String>,
    pub last_message_preview: Option<String>,
    pub unread_count: u32,
    pub last_active_at: i64,
    pub created_at: i64,
    pub is_pinned: bool,
    pub sort_order: i32,
}

/// A message of a conversation.
#[derive(Debug, Clone)]
pub struct Message {
    pub id: String,
    pub platform: String,
    pub platform_message_id: String,
    pub account_id: String,
    pub session_id: String,
    pub sender_id: String,
    pub sender_name: String,
    pub content_json: String,
    pub timestamp: i64,
    pub direction: String,
    pub status: String,
    pub translated_json: Option<String>,
    pub is_deleted: bool,
}

/// A contact of an account.
#[derive(Debug, Clone)]
pub struct Contact {
    pub id: String,
    pub platform: String,
    pub platform_contact_id: String,
    pub account_id: String,
    pub name: String,
    pub avatar_url: Option<String>,
    pub language: Option<String>,
    pub remarks: HashMap<String, String>,
    pub labels: Vec<String>,
    pub added_at: i64,
    pub last_active_at: i64,
    pub is_deleted: bool,
    pub sync_version: i64,
}

/// A label that contacts can carry.
#[derive(Debug, Clone)]
pub struct Label {
    pub id: String,
    pub name: String,
    pub color: String,
    pub account_id: String,
    pub created_at: i64,
}

/// Each platform is stored under its lower-case name, and a custom one
/// under `custom_` followed by its own name; every named platform is read
/// back from that name.
pub proof fn law_platform_names()
    ensures
        platform_text(Platform::WhatsApp) == "whatsapp"@,
        platform_text(Platform::Facebook) == "facebook"@,
        platform_text(Platform::Instagram) == "instagram"@,
        platform_text(Platform::Telegram) == "telegram"@,
        platform_text(Platform::Line) == "line"@,
        platform_text(Platform::Messenger) == "messenger"@,
        platform_text(Platform::TikTok) == "tiktok"@,
        platform_text(Platform::X) == "x"@,
        platform_text(Platform::Zalo) == "zalo"@,
        platform_text(Platform::Tgkcn) == "tgkcn"@,
        forall|c: String| #[trigger] platform_text(Platform::Custom(c)) == "custom_"@ + c@,
        parsed_as("whatsapp"@, Platform::WhatsApp),
        parsed_as("telegram"@, Platform::Telegram),
        parsed_as("tgkcn"@, Platform::Tgkcn),
{
    law_platform_text_round_trip(Platform::WhatsApp);
    law_platform_text_round_trip(Platform::Telegram);
    law_platform_text_round_trip(Platform::Tgkcn);
}

} // verus!
