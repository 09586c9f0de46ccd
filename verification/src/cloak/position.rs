//! Placing browser windows. Moving and restyling windows is a Windows
//! facility driven from the application; this module computes the window
//! styles it applies and answers for every other platform, where nothing
//! can be moved.

use vstd::prelude::*;
use crate::text::owned;

verus! {

/// The frame bits of an overlapped window: caption, system menu, sizing
/// border, minimise and maximise boxes.
pub const WS_OVERLAPPEDWINDOW: i32 = 0x00CF0000;
/// Popup, visible, clip-siblings and clip-children bits.
pub const POPUP_CONTENT_BITS: u32 = 0x9600_0000;
/// Child and visible bits.
pub const CHILD_VISIBLE_BITS: i32 = 0x5000_0000;
/// App-window bit of the extended style.
pub const WS_EX_APPWINDOW: i32 = 0x0004_0000;
/// Tool-window bit of the extended style.
pub const WS_EX_TOOLWINDOW: i32 = 0x0000_0080;

/// A frameless popup style: the frame bits cleared, popup, visible and
/// clipping bits set, every other bit kept.
pub fn chromeless_style(style: i32) -> (r: i32)
    ensures
        r & WS_OVERLAPPEDWINDOW == 0,
        r as u32 & POPUP_CONTENT_BITS == POPUP_CONTENT_BITS,
        r & !(WS_OVERLAPPEDWINDOW | (POPUP_CONTENT_BITS as i32)) == style & !(WS_OVERLAPPEDWINDOW | (POPUP_CONTENT_BITS as i32)),
{
    let r = (style & !WS_OVERLAPPEDWINDOW) | (POPUP_CONTENT_BITS as i32);
    assert(r & 0x00CF0000i32 == 0) by (bit_vector)
        requires r == (style & !0x00CF0000i32) | (0x9600_0000u32 as i32);
    assert(r as u32 & 0x9600_0000u32 == 0x9600_0000u32) by (bit_vector)
        requires r == (style & !0x00CF0000i32) | (0x9600_0000u32 as i32);
    assert(r & !(0x00CF0000i32 | (0x9600_0000u32 as i32)) == style & !(0x00CF0000i32 | (0x9600_0000u32 as i32))) by (bit_vector)
        requires r == (style & !0x00CF0000i32) | (0x9600_0000u32 as i32);
    r
}

/// An extended style that keeps a window off the task bar: the app-window
/// bit cleared, the tool-window bit set, every other bit kept.
pub fn tool_window_ex_style(ex_style: i32) -> (r: i32)
    ensures
        r & WS_EX_APPWINDOW == 0,
        r & WS_EX_TOOLWINDOW == WS_EX_TOOLWINDOW,
        r & !(WS_EX_APPWINDOW | WS_EX_TOOLWINDOW) == ex_style & !(WS_EX_APPWINDOW | WS_EX_TOOLWINDOW),
{
    let r = ex_style & !WS_EX_APPWINDOW | WS_EX_TOOLWINDOW;
    assert(r & 0x0004_0000i32 == 0) by (bit_vector)
        requires r == ex_style & !0x0004_0000i32 | 0x80i32;
    assert(r & 0x80i32 == 0x80i32) by (bit_vector)
        requires r == ex_style & !0x0004_0000i32 | 0x80i32;
    assert(r & !(0x0004_0000i32 | 0x80i32) == ex_style & !(0x0004_0000i32 | 0x80i32)) by (bit_vector)
        requires r == ex_style & !0x0004_0000i32 | 0x80i32;
    r
}

/// The style of a window embedded as a child: the frame bits cleared, the
/// child and visible bits set, every other bit kept.
pub fn embedded_child_style(style: i32) -> (r: i32)
    ensures
        r & WS_OVERLAPPEDWINDOW == 0,
        r & CHILD_VISIBLE_BITS == CHILD_VISIBLE_BITS,
        r & !(WS_OVERLAPPEDWINDOW | CHILD_VISIBLE_BITS) == style & !(WS_OVERLAPPEDWINDOW | CHILD_VISIBLE_BITS),
{
    let r = (style & !WS_OVERLAPPEDWINDOW) | CHILD_VISIBLE_BITS;
    assert(r & 0x00CF0000i32 == 0) by (bit_vector)
        requires r == (style & !0x00CF0000i32) | 0x5000_0000i32;
    assert(r & 0x5000_0000i32 == 0x5000_0000i32) by (bit_vector)
        requires r == (style & !0x00CF0000i32) | 0x5000_0000i32;
    assert(r & !(0x00CF0000i32 | 0x5000_0000i32) == style & !(0x00CF0000i32 | 0x5000_0000i32)) by (bit_vector)
        requires r == (style & !0x00CF0000i32) | 0x5000_0000i32;
    r
}

/// Removing the window frame: no window can be restyled on this platform.
pub fn remove_window_chrome(_pid: u32) -> (r: bool)
    ensures
        !r,
{
    false
}

/// Embedding a browser window into the application window is supported
/// on Windows only.
pub fn embed_window(_pid: u32, _parent: isize) -> (r: Result<(), String>)
    ensures
        r matches Err(e) && e@ == "只支持 Windows"@,
{
    Err(owned("只支持 Windows"))
}

/// Moving a window off screen: no window can be moved on this platform.
pub fn hide_window(_pid: u32) -> (r: bool)
    ensures
        !r,
{
    false
}

/// Moving a window back on screen: no window can be moved on this platform.
pub fn show_window(_pid: u32, _x: i32, _y: i32, _w: i32, _h: i32) -> (r: bool)
    ensures
        !r,
{
    false
}

/// Placing a window: no window can be moved on this platform.
pub fn position_window(_pid: u32, _x: i32, _y: i32, _w: i32, _h: i32) -> (r: bool)
    ensures
        !r,
{
    false
}

} // verus!
