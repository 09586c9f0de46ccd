//! Downloading the browser: the configuration, the checks made before and
//! after the download, and what marks an installation as complete.

use vstd::prelude::*;
use crate::cloak::fingerprint::{sha256, sha256_spec};
use crate::scripts::installer::TargetOs;
use crate::text::{append_decimal, decimal, owned, push_char};

verus! {

/// Where to download the browser from and what to expect of it.
#[derive(Debug)]
pub struct DownloadConfig {
    /// Download address (must be configured).
    pub cdn_url: String,
    /// Expected SHA-256 of the archive, in lower-case hex (empty: unchecked).
    pub expected_sha256: String,
    /// Directory to install into.
    pub install_dir: String,
    pub version: String,
}

impl Default for DownloadConfig {
    fn default() -> (r: Self)
        ensures
            r.cdn_url@ == Seq::<char>::empty(),
            r.expected_sha256@ == Seq::<char>::empty(),
            r.install_dir@ == Seq::<char>::empty(),
            r.version@ == "1.0.0"@,
    {
        DownloadConfig {
            cdn_url: String::new(),
            expected_sha256: String::new(),
            install_dir: String::new(),
            version: owned("1.0.0"),
        }
    }
}

/// The refusal to download without a configured address.
pub open spec fn no_cdn_message() -> Seq<char> {
    "CDN_URL 未配置，请在 config 中设置 CloakBrowser 下载地址"@
}

/// A download needs a configured address.
pub fn check_download_config(config: &DownloadConfig) -> (r: Result<(), String>)
    ensures
        config.cdn_url@.len() == 0 ==> (r matches Err(e) && e@ == no_cdn_message()),
        config.cdn_url@.len() != 0 ==> r is Ok,
{
    if config.cdn_url.as_str().is_empty() {
        Err(owned("CDN_URL 未配置，请在 config 中设置 CloakBrowser 下载地址"))
    } else {
        Ok(())
    }
}

/// The refusal of a download whose digest is not the expected one.
pub open spec fn mismatch_message(expected: Seq<char>, actual: Seq<char>) -> Seq<char> {
    "SHA256 不匹配: 期望 "@ + expected + " 实际 "@ + actual
}

/// A download passes its check when no digest is expected or the digest is
/// the expected one.
pub fn verify_checksum(expected: &str, actual: &str) -> (r: Result<(), String>)
    ensures
        (expected@.len() == 0 || expected@ == actual@) ==> r is Ok,
        !(expected@.len() == 0 || expected@ == actual@) ==> (r matches Err(e) && e@ == mismatch_message(expected@, actual@)),
{
    if expected.is_empty() {
        return Ok(());
    }
    if crate::text::str_eq(expected, actual) {
        return Ok(());
    }
    let mut m = owned("SHA256 不匹配: 期望 ");
    m.append(expected);
    m.append(" 实际 ");
    m.append(actual);
    Err(m)
}

/// Lower-case hex digit of a value below 16.
pub open spec fn hex_digit(d: int) -> char {
    if d < 10 {
        (48 + d) as char
    } else {
        (87 + d) as char
    }
}

/// Lower-case hex text of bytes, two digits a byte, high digit first.
pub open spec fn hex_lower(bytes: Seq<u8>) -> Seq<char>
    decreases bytes.len(),
{
    if bytes.len() == 0 {
        Seq::empty()
    } else {
        hex_lower(bytes.drop_last()) + seq![hex_digit(bytes.last() as int / 16), hex_digit(bytes.last() as int % 16)]
    }
}

fn hex_char(d: u8) -> (c: char)
    requires
        d < 16,
    ensures
        c == hex_digit(d as int),
{
    if d < 10 {
        (48 + d) as char
    } else {
        (87 + d) as char
    }
}

/// The `Range` header value that asks for the rest of a partial download
/// of `existing` bytes.
pub open spec fn range_value(existing: u64) -> Seq<char> {
    "bytes="@ + decimal(existing as nat) + "-"@
}

/// The range to ask for when a download starts over a partial file of
/// `existing` bytes: none for an empty or missing file, otherwise the bytes
/// from `existing` on.
pub fn resume_range(existing: u64) -> (r: Option<String>)
    ensures
        existing == 0 ==> r is None,
        existing > 0 ==> (r matches Some(v) && v@ == range_value(existing)),
{
    if existing == 0 {
        return None;
    }
    let mut v = owned("bytes=");
    append_decimal(&mut v, existing);
    v.append("-");
    Some(v)
}

/// Where the body of the server's reply goes in the file: after the
/// `existing` bytes when a partial file was there and the server answered
/// with partial content (206), at the start otherwise (the file is written
/// anew).
pub fn resume_offset(existing: u64, status: u16) -> (r: u64)
    ensures
        r == (if existing > 0 && status == 206 { existing } else { 0 }),
{
    if existing > 0 && status == 206 { existing } else { 0 }
}

/// The size of the whole download: the bytes kept plus those the reply
/// announces (at most `u64::MAX`).
pub fn download_total(offset: u64, announced: u64) -> (r: u64)
    ensures
        r == (if offset + announced <= u64::MAX { (offset + announced) as u64 } else { u64::MAX }),
{
    offset.saturating_add(announced)
}

/// A hex digit is the character at its value in "0123456789abcdef".
proof fn lemma_hex_digit_table(d: int)
    requires
        0 <= d < 16,
    ensures
        hex_digit(d) == "0123456789abcdef"@[d],
{
    reveal_strlit("0123456789abcdef");
}

/// The hex text of bytes has two characters for each byte: at position
/// `2i` the digit of the high half of byte `i` and at `2i + 1` that of its
/// low half, each taken from "0123456789abcdef".
pub proof fn law_hex_lower_digits(bytes: Seq<u8>)
    ensures
        hex_lower(bytes).len() == 2 * bytes.len(),
        forall|i: int| 0 <= i < bytes.len() ==> hex_lower(bytes)[2 * i] == "0123456789abcdef"@[(#[trigger] bytes[i]) as int / 16]
            && hex_lower(bytes)[2 * i + 1] == "0123456789abcdef"@[bytes[i] as int % 16],
    decreases bytes.len(),
{
    if bytes.len() > 0 {
        let d = bytes.drop_last();
        law_hex_lower_digits(d);
        let last = bytes.last();
        lemma_hex_digit_table(last as int / 16);
        lemma_hex_digit_table(last as int % 16);
        assert forall|i: int| 0 <= i < bytes.len() implies hex_lower(bytes)[2 * i] == "0123456789abcdef"@[(#[trigger] bytes[i]) as int / 16]
            && hex_lower(bytes)[2 * i + 1] == "0123456789abcdef"@[bytes[i] as int % 16] by {
            if i < d.len() {
                assert(bytes[i] == d[i]);
            }
        }
    }
}

/// The lower-case hex text of a digest.
pub fn to_hex_lower(bytes: &[u8]) -> (r: String)
    ensures
        r@ == hex_lower(bytes@),
{
    let mut s = String::new();
    let mut i: usize = 0;
    while i < bytes.len()
        invariant
            i <= bytes@.len(),
            s@ == hex_lower(bytes@.take(i as int)),
        decreases bytes@.len() - i,
    {
        assert(bytes@.take(i + 1).drop_last() =~= bytes@.take(i as int));
        let b = bytes[i];
        push_char(&mut s, hex_char(b / 16));
        push_char(&mut s, hex_char(b % 16));
        assert(s@ =~= hex_lower(bytes@.take(i + 1)));
        i += 1;
    }
    assert(bytes@.take(bytes@.len() as int) =~= bytes@);
    s
}

/// The SHA-256 digest of a downloaded archive, in lower-case hex.
pub fn archive_sha256_hex(data: &[u8]) -> (r: String)
    ensures
        r@ == hex_lower(sha256_spec(data@)),
{
    let digest = sha256(data);
    to_hex_lower(digest.as_slice())
}

/// Checks a downloaded archive against the expected digest: it passes when
/// no digest is expected or its SHA-256 (in lower-case hex) is the expected
/// one; otherwise the refusal names both.
pub fn check_archive(expected: &str, data: &[u8]) -> (r: Result<(), String>)
    ensures
        (expected@.len() == 0 || expected@ == hex_lower(sha256_spec(data@))) ==> r is Ok,
        !(expected@.len() == 0 || expected@ == hex_lower(sha256_spec(data@))) ==> (r matches Err(e) && e@ == mismatch_message(expected@, hex_lower(sha256_spec(data@)))),
{
    if expected.is_empty() {
        return Ok(());
    }
    let actual = archive_sha256_hex(data);
    verify_checksum(expected, actual.as_str())
}

/// White space as Unicode defines it (the White_Space property).
pub open spec fn unicode_white_space(c: char) -> bool {
    let u = c as u32;
    ||| 0x09 <= u <= 0x0D
    ||| u == 0x20
    ||| u == 0x85
    ||| u == 0xA0
    ||| u == 0x1680
    ||| 0x2000 <= u <= 0x200A
    ||| u == 0x2028
    ||| u == 0x2029
    ||| u == 0x202F
    ||| u == 0x205F
    ||| u == 0x3000
}

/// Whether a character is white space: the Unicode White_Space property,
/// the set `char::is_whitespace` documents.
fn is_whitespace(c: char) -> (r: bool)
    ensures
        r == unicode_white_space(c),
{
    let u = c as u32;
    (0x09 <= u && u <= 0x0D) || u == 0x20 || u == 0x85 || u == 0xA0 || u == 0x1680 || (0x2000 <= u && u <= 0x200A)
        || u == 0x2028 || u == 0x2029 || u == 0x202F || u == 0x205F || u == 0x3000
}

/// Whether a text holds nothing but white space.
pub fn is_blank(s: &str) -> (r: bool)
    ensures
        r == (forall|i: int| 0 <= i < s@.len() ==> unicode_white_space(#[trigger] s@[i])),
{
    let n = s.unicode_len();
    let mut i: usize = 0;
    while i < n
        invariant
            n == s@.len(),
            i <= n,
            forall|k: int| 0 <= k < i ==> unicode_white_space(#[trigger] s@[k]),
        decreases n - i,
    {
        if !is_whitespace(s.get_char(i)) {
            return false;
        }
        i += 1;
    }
    true
}

/// An installation is complete when its version marker could be read and
/// holds more than white space.
pub fn marker_shows_installed(content: Option<&str>) -> (r: bool)
    ensures
        r == (content matches Some(c) && exists|i: int| 0 <= i < c@.len() && !unicode_white_space(#[trigger] c@[i])),
{
    match content {
        Some(c) => !is_blank(c),
        None => false,
    }
}

/// File name of the browser executable in an unpacked download.
pub fn executable_name(os: TargetOs) -> (r: &'static str)
    ensures
        os == TargetOs::Windows ==> r@ == "cloak-browser.exe"@,
        os != TargetOs::Windows ==> r@ == "cloak-browser"@,
{
    match os {
        TargetOs::Windows => "cloak-browser.exe",
        _ => "cloak-browser",
    }
}

} // verus!
