//! The native window: how the pump reads a fetch result, which listeners a
//! window message reaches, and the geometry handed to the platform.
use vstd::prelude::*;

verus! {

pub const WS_OVERLAPPEDWINDOW: u32 = 0x00CF_0000;

pub const WS_POPUP: u32 = 0x8000_0000;

pub const WS_THICKFRAME: u32 = 0x0004_0000;

pub const WS_EX_LAYERED: u32 = 0x0008_0000;

/// Lets the platform pick a position or a size.
pub const CW_USEDEFAULT: i32 = -2147483648;

pub const WM_DESTROY: u32 = 0x0002;

pub const WM_SIZE: u32 = 0x0005;

pub const WM_CLOSE: u32 = 0x0010;

pub const WM_DPICHANGED: u32 = 0x02E0;

/// The message that tells the pump a dispatched item waits.
pub const WM_APP: u32 = 0x8000;

/// The pixel density at which sizes are given.
pub const BASE_DPI: u32 = 96;

/// A rectangle in pixels, by its edges.
#[derive(Clone, Copy, Debug, PartialEq, Eq, Structural)]
pub struct Rect {
    pub left: i32,
    pub top: i32,
    pub right: i32,
    pub bottom: i32,
}

/// A rectangle whose width and height fit in `i32`.
pub open spec fn rect_fits(r: Rect) -> bool {
    &&& i32::MIN <= r.right - r.left <= i32::MAX
    &&& i32::MIN <= r.bottom - r.top <= i32::MAX
}

impl Rect {
    /// Whether the width and height fit in `i32`.
    pub fn fits(&self) -> (r: bool)
        ensures
            r == rect_fits(*self),
    {
        let w: i64 = self.right as i64 - self.left as i64;
        let h: i64 = self.bottom as i64 - self.top as i64;
        i32::MIN as i64 <= w && w <= i32::MAX as i64 && i32::MIN as i64 <= h && h <= i32::MAX as i64
    }
}

/// The bounds of the embedded surface for a window whose client area is
/// `client`: its origin at the corner, and exactly the client's size.
pub fn surface_bounds(client: Rect) -> (r: Rect)
    requires
        rect_fits(client),
    ensures
        r == (Rect {
            left: 0,
            top: 0,
            right: (client.right - client.left) as i32,
            bottom: (client.bottom - client.top) as i32,
        }),
{
    Rect { left: 0, top: 0, right: client.right - client.left, bottom: client.bottom - client.top }
}

/// Position and size `(x, y, width, height)` that move a window onto the
/// rectangle the platform suggests after a change of pixel density.
pub fn placement(suggested: Rect) -> (r: (i32, i32, i32, i32))
    requires
        rect_fits(suggested),
    ensures
        r == (
            suggested.left,
            suggested.top,
            (suggested.right - suggested.left) as i32,
            (suggested.bottom - suggested.top) as i32,
        ),
{
    (
        suggested.left,
        suggested.top,
        suggested.right - suggested.left,
        suggested.bottom - suggested.top,
    )
}

/// `a / b` rounded toward zero.
pub open spec fn div_toward_zero(a: int, b: int) -> int {
    if a >= 0 {
        a / b
    } else {
        -((-a) / b)
    }
}

/// `v` held to the range of `i32`.
pub open spec fn saturate(v: int) -> int {
    if v < i32::MIN {
        i32::MIN as int
    } else if v > i32::MAX {
        i32::MAX as int
    } else {
        v
    }
}

/// A length given at the base density, at `dpi`: the exact product rounded
/// toward zero and held to `i32`, so that `CW_USEDEFAULT` stays itself at
/// every density from the base one up.
pub fn scale_for_dpi(len: i32, dpi: u32) -> (r: i32)
    ensures
        r == saturate(div_toward_zero(len * dpi, BASE_DPI as int)),
{
    proof {
        assert(-0x8000_0000 * 0xFFFF_FFFF <= len * dpi <= 0x7FFF_FFFF * 0xFFFF_FFFF) by (nonlinear_arith)
            requires
                -0x8000_0000 <= len <= 0x7FFF_FFFF,
                0 <= dpi <= 0xFFFF_FFFF,
        ;
    }
    let p: i64 = len as i64 * dpi as i64;
    let q: i64 = if p >= 0 {
        p / BASE_DPI as i64
    } else {
        -((-p) / BASE_DPI as i64)
    };
    if q < i32::MIN as i64 {
        i32::MIN
    } else if q > i32::MAX as i64 {
        i32::MAX
    } else {
        q as i32
    }
}

/// The outer size of a window that shows a page of the given scroll size:
/// twice the size, for the density, plus the frame and title bar.
pub fn content_frame_size(body_scroll_width: i32, body_scroll_height: i32) -> (r: (i32, i32))
    requires
        i32::MIN <= body_scroll_width * 2 + 26 <= i32::MAX,
        i32::MIN <= body_scroll_height * 2 + 71 <= i32::MAX,
    ensures
        r == ((body_scroll_width * 2 + 26) as i32, (body_scroll_height * 2 + 71) as i32),
{
    let w: i64 = body_scroll_width as i64 * 2 + 26;
    let h: i64 = body_scroll_height as i64 * 2 + 71;
    (w as i32, h as i32)
}

/// The window style and extended style after the builder's switches:
/// frameless swaps the overlapped frame for a popup with a sizing border,
/// not resizable drops the sizing border, transparent adds layering.
pub open spec fn styles_of(
    style: u32,
    exstyle: u32,
    frameless: bool,
    resizable: bool,
    transparent: bool,
) -> (u32, u32) {
    let s1 = if frameless {
        (style & !WS_OVERLAPPEDWINDOW) | WS_POPUP | WS_THICKFRAME
    } else {
        style
    };
    let s2 = if !resizable {
        s1 & !WS_THICKFRAME
    } else {
        s1
    };
    let e = if transparent {
        exstyle | WS_EX_LAYERED
    } else {
        exstyle
    };
    (s2, e)
}

/// Computes `styles_of` for the given switches.
pub fn window_styles(
    style: u32,
    exstyle: u32,
    frameless: bool,
    resizable: bool,
    transparent: bool,
) -> (r: (u32, u32))
    ensures
        r == styles_of(style, exstyle, frameless, resizable, transparent),
{
    let mut s = style;
    if frameless {
        s = s & !WS_OVERLAPPEDWINDOW;
        s = s | WS_POPUP | WS_THICKFRAME;
    }
    if !resizable {
        s = s & !WS_THICKFRAME;
    }
    let mut e = exstyle;
    if transparent {
        e = e | WS_EX_LAYERED;
    }
    (s, e)
}

/// What the pump does with the result of fetching the next message.
#[derive(Clone, Copy, Debug, PartialEq, Eq, Structural)]
pub enum PumpStep {
    /// A message arrived: translate it and hand it to the window procedure.
    Dispatch,
    /// The quit message arrived: the loop ends with success.
    Quit,
    /// Fetching failed: the loop ends with the platform's last error.
    Fail,
}

/// Reads the result of a blocking fetch: `-1` is a failure, `0` the quit
/// message, anything else a message to dispatch.
pub fn pump_step(fetched: i32) -> (r: PumpStep)
    ensures
        fetched == -1 ==> r == PumpStep::Fail,
        fetched == 0 ==> r == PumpStep::Quit,
        fetched != -1 && fetched != 0 ==> r == PumpStep::Dispatch,
{
    if fetched == -1 {
        PumpStep::Fail
    } else if fetched == 0 {
        PumpStep::Quit
    } else {
        PumpStep::Dispatch
    }
}


/// The listeners of one window, by message code, and the window they serve.
/// A code that has listeners is handled by calling each of them in the order
/// they were added; any other code goes to the platform's default handling.
pub struct WindowRunner<C> {
    hwnd: isize,
    wndprocs: Vec<(u32, Vec<C>)>,
    table: Ghost<Map<u32, Seq<C>>>,
}

impl<C> View for WindowRunner<C> {
    type V = Map<u32, Seq<C>>;

    closed spec fn view(&self) -> Map<u32, Seq<C>> {
        self.table@
    }
}

/// The listeners for `msg` once `f` is added to them.
pub open spec fn with_listener<C>(table: Map<u32, Seq<C>>, msg: u32, f: C) -> Map<u32, Seq<C>> {
    if table.contains_key(msg) {
        table.insert(msg, table[msg].push(f))
    } else {
        table.insert(msg, seq![f])
    }
}

impl<C> WindowRunner<C> {
    /// Codes are unique among the entries, and the entries are the table.
    pub closed spec fn wf(&self) -> bool {
        &&& forall|i: int, j: int|
            0 <= i < j < self.wndprocs.len() ==> self.wndprocs@[i].0 != self.wndprocs@[j].0
        &&& forall|i: int|
            0 <= i < self.wndprocs.len() ==> #[trigger] self.table@.contains_key(self.wndprocs@[i].0)
                && self.table@[self.wndprocs@[i].0] == self.wndprocs@[i].1@
        &&& forall|k: u32|
            #[trigger] self.table@.contains_key(k) ==> exists|i: int|
                0 <= i < self.wndprocs.len() && self.wndprocs@[i].0 == k
    }

    /// The window these listeners serve.
    pub closed spec fn window(&self) -> isize {
        self.hwnd
    }

    /// A window with no listeners yet.
    pub fn new(hwnd: isize) -> (r: Self)
        ensures
            r.wf(),
            r@ == Map::<u32, Seq<C>>::empty(),
            r.window() == hwnd,
    {
        WindowRunner { hwnd, wndprocs: Vec::new(), table: Ghost(Map::empty()) }
    }

    /// The window these listeners serve.
    pub fn hwnd(&self) -> (r: isize)
        ensures
            r == self.window(),
    {
        self.hwnd
    }

    fn position(&self, msg: u32) -> (r: Option<usize>)
        requires
            self.wf(),
        ensures
            match r {
                Some(i) => i < self.wndprocs.len() && self.wndprocs@[i as int].0 == msg
                    && self@.contains_key(msg) && self@[msg] == self.wndprocs@[i as int].1@,
                None => !self@.contains_key(msg),
            },
    {
        let mut i: usize = 0;
        while i < self.wndprocs.len()
            invariant
                self.wf(),
                i <= self.wndprocs.len(),
                forall|j: int| 0 <= j < i ==> self.wndprocs@[j].0 != msg,
            decreases self.wndprocs.len() - i,
        {
            if self.wndprocs[i].0 == msg {
                assert(self.table@.contains_key(self.wndprocs@[i as int].0));
                return Some(i);
            }
            i = i + 1;
        }
        None
    }

    /// Adds `f` after the listeners that `msg` already has.
    pub fn add_event_listener(&mut self, msg: u32, f: C)
        requires
            old(self).wf(),
        ensures
            final(self).wf(),
            final(self)@ == with_listener(old(self)@, msg, f),
            final(self).window() == old(self).window(),
    {
        let ghost g = f;
        match self.position(msg) {
            Some(i) => {
                let ghost fs = self.wndprocs@[i as int].1@;
                self.wndprocs[i].1.push(f);
                self.table = Ghost(self.table@.insert(msg, fs.push(g)));
                assert forall|j: int| 0 <= j < self.wndprocs.len() implies #[trigger] self.table@.contains_key(
                    self.wndprocs@[j].0,
                ) && self.table@[self.wndprocs@[j].0] == self.wndprocs@[j].1@ by {
                    if j != i {
                        assert(old(self).wndprocs@[j].0 != msg);
                    }
                }
                assert forall|k: u32| #[trigger] self.table@.contains_key(k) implies exists|j: int|
                    0 <= j < self.wndprocs.len() && self.wndprocs@[j].0 == k by {
                    if k != msg {
                        let j = choose|j: int|
                            0 <= j < old(self).wndprocs.len() && old(self).wndprocs@[j].0 == k;
                        assert(self.wndprocs@[j].0 == k);
                    } else {
                        assert(self.wndprocs@[i as int].0 == k);
                    }
                }
            },
            None => {
                let mut fs: Vec<C> = Vec::new();
                fs.push(f);
                self.wndprocs.push((msg, fs));
                self.table = Ghost(self.table@.insert(msg, seq![g]));
                let ghost n = self.wndprocs.len() - 1;
                assert(self.wndprocs@[n].1@ =~= seq![g]);
                assert forall|j: int| 0 <= j < n implies old(self).wndprocs@[j].0 != msg by {
                    assert(old(self).table@.contains_key(old(self).wndprocs@[j].0));
                }
                assert forall|k: u32| #[trigger] self.table@.contains_key(k) implies exists|j: int|
                    0 <= j < self.wndprocs.len() && self.wndprocs@[j].0 == k by {
                    if k != msg {
                        let j = choose|j: int|
                            0 <= j < old(self).wndprocs.len() && old(self).wndprocs@[j].0 == k;
                        assert(self.wndprocs@[j].0 == k);
                    } else {
                        assert(self.wndprocs@[n].0 == k);
                    }
                }
            },
        }
    }

    /// Removes every listener of `msg`; it goes back to default handling.
    pub fn reset_event_listeners(&mut self, msg: u32)
        requires
            old(self).wf(),
        ensures
            final(self).wf(),
            final(self)@ == old(self)@.remove(msg),
            final(self).window() == old(self).window(),
    {
        match self.position(msg) {
            Some(i) => {
                let ghost before = self.wndprocs@;
                self.wndprocs.remove(i);
                self.table = Ghost(self.table@.remove(msg));
                assert forall|a: int, b: int| 0 <= a < b < self.wndprocs.len() implies self.wndprocs@[a].0
                    != self.wndprocs@[b].0 by {
                    let a0 = if a < i { a } else { a + 1 };
                    let b0 = if b < i { b } else { b + 1 };
                    assert(self.wndprocs@[a] == before[a0]);
                    assert(self.wndprocs@[b] == before[b0]);
                }
                assert forall|j: int| 0 <= j < self.wndprocs.len() implies #[trigger] self.table@.contains_key(
                    self.wndprocs@[j].0,
                ) && self.table@[self.wndprocs@[j].0] == self.wndprocs@[j].1@ by {
                    let j0 = if j < i { j } else { j + 1 };
                    assert(self.wndprocs@[j] == before[j0]);
                    assert(old(self).table@.contains_key(before[j0].0));
                    assert(before[j0].0 != msg);
                }
                assert forall|k: u32| #[trigger] self.table@.contains_key(k) implies exists|j: int|
                    0 <= j < self.wndprocs.len() && self.wndprocs@[j].0 == k by {
                    let j0 = choose|j: int| 0 <= j < before.len() && before[j].0 == k;
                    assert(j0 != i);
                    let j = if j0 < i { j0 } else { j0 - 1 };
                    assert(self.wndprocs@[j] == before[j0]);
                }
            },
            None => {
                assert(self.table@.remove(msg) =~= self.table@);
            },
        }
    }

    /// The listeners that a message `msg` reaches, in the order they were
    /// added; `None` when it goes to the platform's default handling.
    pub fn listeners(&self, msg: u32) -> (r: Option<&Vec<C>>)
        requires
            self.wf(),
        ensures
            match r {
                Some(fs) => self@.contains_key(msg) && fs@ == self@[msg],
                None => !self@.contains_key(msg),
            },
    {
        match self.position(msg) {
            Some(i) => Some(&self.wndprocs[i].1),
            None => None,
        }
    }
}

} // verus!
