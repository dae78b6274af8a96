//! The settings a shell window is built from.
use vstd::prelude::*;
use crate::window::{CW_USEDEFAULT, WS_OVERLAPPEDWINDOW, styles_of, window_styles};

verus! {

/// How to build a shell window: its styles, place and size (at the base
/// density), title, first page, and switches.
pub struct WebViewBuilder<'a> {
    pub style: u32,
    pub exstyle: u32,
    pub x: i32,
    pub y: i32,
    pub width: i32,
    pub height: i32,
    pub title: &'a str,
    pub url: &'a str,
    /// Keeps the page's context menus and developer tools.
    pub debug: bool,
    pub frameless: bool,
    pub resizable: bool,
    pub transparent: bool,
}

impl<'a> Default for WebViewBuilder<'a> {
    /// An overlapped, resizable, opaque window with debugging on, placed and
    /// sized by the platform, with no title and no page.
    fn default() -> (r: Self)
        ensures
            r.style == WS_OVERLAPPEDWINDOW,
            r.exstyle == 0,
            r.x == CW_USEDEFAULT,
            r.y == CW_USEDEFAULT,
            r.width == CW_USEDEFAULT,
            r.height == CW_USEDEFAULT,
            r.title@.len() == 0,
            r.url@.len() == 0,
            r.debug,
            !r.frameless,
            r.resizable,
            !r.transparent,
    {
        proof {
            reveal_strlit("");
        }
        WebViewBuilder {
            style: WS_OVERLAPPEDWINDOW,
            exstyle: 0,
            x: CW_USEDEFAULT,
            y: CW_USEDEFAULT,
            width: CW_USEDEFAULT,
            height: CW_USEDEFAULT,
            title: "",
            url: "",
            debug: true,
            frameless: false,
            resizable: true,
            transparent: false,
        }
    }
}

impl<'a> WebViewBuilder<'a> {
    /// The style and extended style the window is created with.
    pub fn styles(&self) -> (r: (u32, u32))
        ensures
            r == styles_of(self.style, self.exstyle, self.frameless, self.resizable, self.transparent),
    {
        window_styles(self.style, self.exstyle, self.frameless, self.resizable, self.transparent)
    }
}

} // verus!
