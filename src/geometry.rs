//! Rectangles, display metrics and the decoration-compensated geometry that
//! turns a logical tile into the native rectangle to request.
use vstd::prelude::*;

verus! {

/// A rectangle by its four edges, in screen coordinates.
#[derive(Clone, Copy, Debug, Default, PartialEq, Eq, Structural)]
pub struct Rect {
    pub left: i32,
    pub top: i32,
    pub right: i32,
    pub bottom: i32,
}

/// A monitor as the engine sees it.
#[derive(Clone, Copy, Debug, PartialEq, Eq, Structural)]
pub struct Display {
    pub id: i32,
    pub dpi: u32,
}

/// Frame measurements of the platform at a display's DPI, for a window's
/// current style bits.
#[derive(Clone, Copy, Debug, PartialEq, Eq, Structural)]
pub struct FrameMetrics {
    /// Width of the sizing border.
    pub border_width: i32,
    /// Height of the sizing border.
    pub border_height: i32,
    /// Height of a caption.
    pub caption_height: i32,
    /// The non-client area that the platform adds around a client rectangle
    /// for the window's style bits: what it makes of the empty rectangle at
    /// the origin (left and top are then at or below zero).
    pub frame: Rect,
}

/// The configuration switches that geometry reads.
pub struct GeometryFlags {
    pub display_app_bar: bool,
    pub remove_title_bar: bool,
    pub bar_height: int,
    pub use_border: bool,
}

/// The decoration class of a window, taken from its rule.
pub struct DecorationClass {
    pub chromium: bool,
    pub firefox: bool,
    pub has_custom_titlebar: bool,
}

/// `v / 2` rounded toward zero.
pub open spec fn half(v: int) -> int {
    if v >= 0 {
        v / 2
    } else {
        -((-v) / 2)
    }
}

/// The rectangle, as (left, top, right, bottom), to request for a window of
/// class `c` so that its visible bounds are the tile at (`x`, `y`) of size
/// `w` by `h`.
pub open spec fn compensated_rect(
    c: DecorationClass,
    g: GeometryFlags,
    m: FrameMetrics,
    x: int,
    y: int,
    w: int,
    h: int,
) -> (int, int, int, int) {
    let bw = m.border_width as int;
    let bh = m.border_height as int;
    // keep the native caption, or strip it (with an optional 1px border)
    let (l1, t1, r1, b1) = if c.chromium || c.firefox || !g.remove_title_bar {
        (x, y + m.caption_height, x + w, y + h)
    } else if g.use_border {
        (x + 1, y - 2 * bh + 1, x + w - 1, y + h - 1)
    } else {
        (x, y - 2 * bh, x + w, y + h)
    };
    // room for the status bar at the top
    let (t2, b2) = if g.display_app_bar {
        (t1 + g.bar_height, b1 + g.bar_height)
    } else {
        (t1, b1)
    };
    // per-class frame correction
    let (l3, t3, r3, b3) = if c.firefox || c.chromium || (!g.remove_title_bar
        && c.has_custom_titlebar) {
        let (l, t, r, b) = if c.firefox {
            (l1 - half(3 * bw), t2, r1 + half(3 * bw), b2 + half(3 * bh))
        } else if c.chromium {
            (l1 - 2 * bw, t2 - half(bh), r1 + 2 * bw, b2 + 2 * bh)
        } else {
            (l1, t2, r1, b2)
        };
        (l + 2 * bw, t + 2 * bh, r - 2 * bw, b - 2 * bh)
    } else {
        (l1, t2 + 2 * bh, r1, b2)
    };
    // the platform's non-client area for the current style bits
    (l3 + m.frame.left, t3 + m.frame.top, r3 + m.frame.right, b3 + m.frame.bottom)
}

pub open spec fn fits_i32(v: int) -> bool {
    i32::MIN <= v <= i32::MAX
}

/// The rectangle with edges `e`, where each edge fits in 32 bits.
pub open spec fn rect_of(e: (int, int, int, int), r: Option<Rect>) -> bool {
    if fits_i32(e.0) && fits_i32(e.1) && fits_i32(e.2) && fits_i32(e.3) {
        r == Some(Rect { left: e.0 as i32, top: e.1 as i32, right: e.2 as i32, bottom: e.3 as i32 })
    } else {
        r is None
    }
}

fn half_exec(v: i64) -> (r: i64)
    requires
        v > i64::MIN,
    ensures
        r == half(v as int),
{
    if v >= 0 {
        v / 2
    } else {
        -((-v) / 2)
    }
}

fn to_i32(v: i64) -> (r: Option<i32>)
    ensures
        fits_i32(v as int) ==> r == Some(v as i32),
        !fits_i32(v as int) ==> r is None,
{
    if i32::MIN as i64 <= v && v <= i32::MAX as i64 {
        Some(v as i32)
    } else {
        None
    }
}

/// The native rectangle to request for a window of the given class; `None`
/// when an edge of it does not fit in 32 bits.
pub fn compensate(
    chromium: bool,
    firefox: bool,
    has_custom_titlebar: bool,
    display_app_bar: bool,
    remove_title_bar: bool,
    bar_height: i32,
    use_border: bool,
    m: &FrameMetrics,
    x: i32,
    y: i32,
    width: i32,
    height: i32,
) -> (r: Option<Rect>)
    ensures
        rect_of(
            compensated_rect(
                DecorationClass { chromium, firefox, has_custom_titlebar },
                GeometryFlags {
                    display_app_bar,
                    remove_title_bar,
                    bar_height: bar_height as int,
                    use_border,
                },
                *m,
                x as int,
                y as int,
                width as int,
                height as int,
            ),
            r,
        ),
{
    let bw = m.border_width as i64;
    let bh = m.border_height as i64;
    let mut left = x as i64;
    let mut right = x as i64 + width as i64;
    let mut top = y as i64;
    let mut bottom = y as i64 + height as i64;

    if chromium || firefox || !remove_title_bar {
        top = top + m.caption_height as i64;
    } else {
        top = top - bh * 2;
        if use_border {
            left = left + 1;
            right = right - 1;
            top = top + 1;
            bottom = bottom - 1;
        }
    }

    if display_app_bar {
        top = top + bar_height as i64;
        bottom = bottom + bar_height as i64;
    }

    if firefox || chromium || (!remove_title_bar && has_custom_titlebar) {
        if firefox {
            left = left - half_exec(3 * bw);
            right = right + half_exec(3 * bw);
            bottom = bottom + half_exec(3 * bh);
        } else if chromium {
            top = top - half_exec(bh);
            left = left - bw * 2;
            right = right + bw * 2;
            bottom = bottom + bh * 2;
        }
        left = left + bw * 2;
        right = right - bw * 2;
        top = top + bh * 2;
        bottom = bottom - bh * 2;
    } else {
        top = top + bh * 2;
    }

    left = left + m.frame.left as i64;
    top = top + m.frame.top as i64;
    right = right + m.frame.right as i64;
    bottom = bottom + m.frame.bottom as i64;

    match (to_i32(left), to_i32(top), to_i32(right), to_i32(bottom)) {
        (Some(l), Some(t), Some(r), Some(b)) => Some(Rect { left: l, top: t, right: r, bottom: b }),
        _ => None,
    }
}

} // verus!
