//! Embedding a browser window into the application window. The window
//! calls themselves are made by the application on Windows; this module
//! holds the embedding state and decides which move to make.

use vstd::prelude::*;
use crate::text::owned;

verus! {

/// A window move to perform: the window handle and its new rectangle.
#[derive(Debug, Clone, Copy, PartialEq, Eq, Structural)]
pub struct WindowMove {
    pub hwnd: isize,
    pub x: i32,
    pub y: i32,
    pub width: i32,
    pub height: i32,
}

/// The embedding state of one browser window.
pub struct WindowEmbed {
    cloak_hwnd: Option<isize>,
    child_pid: u32,
    is_embedded: bool,
}

/// What the contracts see of an embedding.
pub struct EmbedState {
    pub cloak_hwnd: Option<isize>,
    pub child_pid: u32,
    pub embedded: bool,
}

impl View for WindowEmbed {
    type V = EmbedState;

    closed spec fn view(&self) -> EmbedState {
        EmbedState { cloak_hwnd: self.cloak_hwnd, child_pid: self.child_pid, embedded: self.is_embedded }
    }
}

impl WindowEmbed {
    /// Not yet embedded window of process `child_pid`.
    pub fn new(child_pid: u32) -> (r: Self)
        ensures
            r@ == (EmbedState { cloak_hwnd: None, child_pid, embedded: false }),
    {
        WindowEmbed { cloak_hwnd: None, child_pid, is_embedded: false }
    }

    /// The handle of the embedded window, once known.
    pub fn cloak_hwnd(&self) -> (r: Option<isize>)
        ensures
            r == self@.cloak_hwnd,
    {
        self.cloak_hwnd
    }

    /// The process whose window is embedded.
    pub fn child_pid(&self) -> (r: u32)
        ensures
            r == self@.child_pid,
    {
        self.child_pid
    }

    /// Whether the window is embedded.
    pub fn is_embedded(&self) -> (r: bool)
        ensures
            r == self@.embedded,
    {
        self.is_embedded
    }

    /// Embedding is supported on Windows only; nothing changes here.
    pub fn embed(&mut self, _parent_hwnd: isize) -> (r: Result<(), String>)
        ensures
            r matches Err(e) && e@ == "Not supported on this platform"@,
            final(self)@ == old(self)@,
    {
        Err(owned("Not supported on this platform"))
    }

    /// Records that the window `hwnd` has been embedded.
    pub fn mark_embedded(&mut self, hwnd: isize)
        ensures
            final(self)@ == (EmbedState { cloak_hwnd: Some(hwnd), child_pid: old(self)@.child_pid, embedded: true }),
    {
        self.cloak_hwnd = Some(hwnd);
        self.is_embedded = true;
    }

    /// The move that fits the embedded window to a new rectangle: none
    /// unless the window is embedded and its handle known.
    pub fn resize(&self, x: i32, y: i32, width: i32, height: i32) -> (r: Option<WindowMove>)
        ensures
            self@.embedded && self@.cloak_hwnd is Some ==> r == Some(
                WindowMove { hwnd: self@.cloak_hwnd.unwrap(), x, y, width, height },
            ),
            !(self@.embedded && self@.cloak_hwnd is Some) ==> r is None,
    {
        if !self.is_embedded {
            return None;
        }
        match self.cloak_hwnd {
            Some(hwnd) => Some(WindowMove { hwnd, x, y, width, height }),
            None => None,
        }
    }

    /// Marks the window as no longer embedded.
    pub fn unembed(&mut self)
        ensures
            final(self)@ == (EmbedState { embedded: false, ..old(self)@ }),
    {
        self.is_embedded = false;
    }
}

/// The handle of the currently embedded window (0 for none).
pub struct EmbedRegistry {
    hwnd: isize,
}

impl View for EmbedRegistry {
    type V = isize;

    closed spec fn view(&self) -> isize {
        self.hwnd
    }
}

impl EmbedRegistry {
    /// No window embedded.
    pub fn new() -> (r: Self)
        ensures
            r@ == 0,
    {
        EmbedRegistry { hwnd: 0 }
    }
}

/// Records the handle of the embedded window.
pub fn set_embed_hwnd(reg: &mut EmbedRegistry, hwnd: isize)
    ensures
        final(reg)@ == hwnd,
{
    reg.hwnd = hwnd;
}

/// The handle of the embedded window (0 for none).
pub fn get_embed_hwnd(reg: &EmbedRegistry) -> (r: isize)
    ensures
        r == reg@,
{
    reg.hwnd
}

/// Forgets the embedded window.
pub fn clear_embed_hwnd(reg: &mut EmbedRegistry)
    ensures
        final(reg)@ == 0,
{
    reg.hwnd = 0;
}

/// The move that fits the embedded window to the rectangle `x, y, w, h`
/// with its title bar (48 pixels) pushed above the top edge; none when no
/// window is embedded.
pub fn resize_embed(reg: &EmbedRegistry, x: i32, y: i32, w: i32, h: i32) -> (r: Option<WindowMove>)
    requires
        reg@ != 0 ==> y >= i32::MIN + 48 && h <= i32::MAX - 48,
    ensures
        reg@ != 0 ==> r == Some(WindowMove { hwnd: reg@, x, y: (y - 48) as i32, width: w, height: (h + 48) as i32 }),
        reg@ == 0 ==> r is None,
{
    let hwnd = get_embed_hwnd(reg);
    if hwnd != 0 {
        Some(WindowMove { hwnd, x, y: y - 48, width: w, height: h + 48 })
    } else {
        None
    }
}

} // verus!
