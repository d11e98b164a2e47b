use vstd::prelude::*;
use crate::config::views;
use crate::monitor::{resolved_mode_spec, DisplayError, Monitor, MonitorView, Position};

verus! {

/// The blank border kept around the displays, in thousandths of a logical
/// unit (fifty units).
pub const MARGIN: i64 = 50_000;

/// An axis-aligned box in thousandths of a logical unit.
#[derive(Clone, Copy, Debug, PartialEq, Eq, Structural)]
pub struct Extent {
    pub left: i64,
    pub bottom: i64,
    pub right: i64,
    pub top: i64,
}

/// A box as integers.
pub struct Span {
    pub left: int,
    pub bottom: int,
    pub right: int,
    pub top: int,
}

impl View for Extent {
    type V = Span;

    open spec fn view(&self) -> Span {
        Span { left: self.left as int, bottom: self.bottom as int, right: self.right as int, top: self.top as int }
    }
}

/// `px` pixels at a scale of `scale` thousandths, in thousandths of a logical
/// unit, rounded down.
pub open spec fn logical_size(px: int, scale: int) -> int {
    px * 1_000_000 / scale
}

/// The box a display covers in logical space: from its position, as wide
/// and as high as its mode divided by its scale. None when it has no
/// position, no mode to use, or no scale above zero.
pub open spec fn placed_span(m: MonitorView) -> Option<Span> {
    if m.position is Some && resolved_mode_spec(m.modes) is Some && m.scale is Some && m.scale->0
        > 0 {
        let p = m.position->0;
        let r = resolved_mode_spec(m.modes)->0;
        let s = m.scale->0 as int;
        Some(
            Span {
                left: p.x * 1000,
                bottom: p.y * 1000,
                right: p.x * 1000 + logical_size(r.width as int, s),
                top: p.y * 1000 + logical_size(r.height as int, s),
            },
        )
    } else {
        None
    }
}

/// The box of a display that takes part in the layout: an enabled one that
/// can be placed.
pub open spec fn monitor_span(m: MonitorView) -> Option<Span> {
    if m.enabled {
        placed_span(m)
    } else {
        None
    }
}

/// The smallest box holding both.
pub open spec fn union(a: Span, b: Span) -> Span {
    Span {
        left: if a.left <= b.left { a.left } else { b.left },
        bottom: if a.bottom <= b.bottom { a.bottom } else { b.bottom },
        right: if a.right >= b.right { a.right } else { b.right },
        top: if a.top >= b.top { a.top } else { b.top },
    }
}

/// The smallest box holding the boxes of the first `n` displays that take
/// part in the layout; none when none of them does.
pub open spec fn span_upto(ms: Seq<MonitorView>, n: int) -> Option<Span>
    decreases n,
{
    if n <= 0 {
        None
    } else {
        match (span_upto(ms, n - 1), monitor_span(ms[n - 1])) {
            (None, e) => e,
            (Some(a), None) => Some(a),
            (Some(a), Some(b)) => Some(union(a, b)),
        }
    }
}

/// The box holding every display of the layout; the empty box at the origin
/// when no display takes part.
pub open spec fn content_span(ms: Seq<MonitorView>) -> Span {
    match span_upto(ms, ms.len() as int) {
        Some(e) => e,
        None => Span { left: 0, bottom: 0, right: 0, top: 0 },
    }
}

/// The box grown by the margin on every side.
pub open spec fn padded(e: Span) -> Span {
    Span {
        left: e.left - MARGIN,
        bottom: e.bottom - MARGIN,
        right: e.right + MARGIN,
        top: e.top + MARGIN,
    }
}

/// The aspect correction, as a fraction `(numerator, denominator)`: the
/// box's width-to-height ratio divided by the viewport's.
pub open spec fn correction(p: Span, vw: int, vh: int) -> (int, int) {
    ((p.right - p.left) * vh, (p.top - p.bottom) * vw)
}

/// What is added above and below: half the box's height times the
/// correction, rounded down.
pub open spec fn added_height(p: Span, vw: int, vh: int) -> int {
    (p.top - p.bottom) * correction(p, vw, vh).0 / (2 * correction(p, vw, vh).1)
}

/// What is added left and right: half the box's width divided by the
/// correction, rounded down.
pub open spec fn added_width(p: Span, vw: int, vh: int) -> int {
    (p.right - p.left) * correction(p, vw, vh).1 / (2 * correction(p, vw, vh).0)
}

/// The coordinate space in which the layout is drawn, in thousandths of a
/// logical unit: the bounds of the drawing, the top of the displays'
/// content, and the shift that brings content above a negative bottom.
#[derive(Clone, Copy, Debug, PartialEq, Eq)]
pub struct MonitorCanvas {
    pub top: i64,
    pub x_bounds: (i128, i128),
    pub y_bounds: (i128, i128),
    pub offset_y: i64,
}

/// The canvas that `get_monitors_canvas` computes for these displays and a
/// viewport of `vw` by `vh`.
pub open spec fn canvas_spec(ms: Seq<MonitorView>, vw: int, vh: int) -> MonitorCanvas {
    let c = content_span(ms);
    let p = padded(c);
    MonitorCanvas {
        top: c.top as i64,
        x_bounds: ((p.left - added_width(p, vw, vh)) as i128, (p.right + added_width(p, vw, vh)) as i128),
        y_bounds: ((p.bottom - added_height(p, vw, vh)) as i128, (p.top + added_height(p, vw, vh)) as i128),
        offset_y: if c.bottom < 0 { -c.bottom } else { 0 } as i64,
    }
}

/// Where a display is drawn, in thousandths of a logical unit, on the
/// drawing's upward vertical axis, with the place of its name.
#[derive(Clone, Copy, Debug, PartialEq, Eq, Structural)]
pub struct Projection {
    pub x: i128,
    pub y: i128,
    pub width: i128,
    pub height: i128,
    pub label_x: i128,
    pub label_y: i128,
}

/// The drawing of a display's box on a canvas: the vertical axis is turned
/// over below the canvas's top, and the name is set in from the top-left
/// corner by seven hundredths of the width and of the height.
pub open spec fn projection_spec(e: Span, canvas: MonitorCanvas) -> Projection {
    let width = e.right - e.left;
    let height = e.top - e.bottom;
    let y = canvas.top - canvas.offset_y - e.bottom - height;
    Projection {
        x: e.left as i128,
        y: y as i128,
        width: width as i128,
        height: height as i128,
        label_x: (e.left + width * 7 / 100) as i128,
        label_y: (y + height - height * 7 / 100) as i128,
    }
}

/// How far from the origin a coordinate of a display's box can lie.
pub open spec fn coordinate_limit() -> int {
    5_000_000_000_000_000
}

/// A box that is not turned inside out, within the coordinate limit.
pub open spec fn span_ok(e: Span) -> bool {
    &&& -coordinate_limit() <= e.left <= e.right <= coordinate_limit()
    &&& -coordinate_limit() <= e.bottom <= e.top <= coordinate_limit()
}

proof fn lemma_size_limit(px: int, scale: int)
    requires
        0 <= px <= u32::MAX,
        scale >= 1,
    ensures
        0 <= logical_size(px, scale) <= px * 1_000_000,
{
    assert(0 <= px * 1_000_000 / scale <= px * 1_000_000) by (nonlinear_arith)
        requires
            0 <= px <= u32::MAX,
            scale >= 1,
    ;
}

proof fn lemma_span_upto_ok(ms: Seq<MonitorView>, n: int)
    requires
        n <= ms.len(),
    ensures
        span_upto(ms, n) matches Some(e) ==> span_ok(e),
    decreases n,
{
    if n > 0 {
        lemma_span_upto_ok(ms, n - 1);
        lemma_placed_span_ok(ms[n - 1]);
    }
}

proof fn lemma_placed_span_ok(m: MonitorView)
    ensures
        placed_span(m) matches Some(e) ==> span_ok(e),
{
    if placed_span(m) is Some {
        let r = resolved_mode_spec(m.modes)->0;
        let s = m.scale->0 as int;
        lemma_size_limit(r.width as int, s);
        lemma_size_limit(r.height as int, s);
    }
}

/// One enabled display at the origin, at a scale of one, with a mode of
/// `w` by `h`: before the aspect correction the box reaches from minus the
/// margin to the mode's size plus the margin.
pub proof fn lemma_single_display_box(m: MonitorView, w: u32, h: u32)
    requires
        m.enabled,
        m.position == Some(Position { x: 0, y: 0 }),
        m.scale == Some(1000u32),
        resolved_mode_spec(m.modes) matches Some(r) && r.width == w && r.height == h,
    ensures
        padded(content_span(seq![m])) == (Span {
            left: -MARGIN,
            bottom: -MARGIN,
            right: w * 1000 + MARGIN,
            top: h * 1000 + MARGIN,
        }),
{
    assert(logical_size(w as int, 1000) == w * 1000) by (nonlinear_arith);
    assert(logical_size(h as int, 1000) == h * 1000) by (nonlinear_arith);
    assert(seq![m][0] == m);
    assert(span_upto(seq![m], 0) is None);
}

/// A square box in a square viewport: the correction is one, and the box
/// grows by half its side on every side, so that the drawing stays square.
pub proof fn lemma_square_correction(ms: Seq<MonitorView>, v: int)
    requires
        0 < v <= u16::MAX,
        padded(content_span(ms)).right - padded(content_span(ms)).left == padded(
            content_span(ms),
        ).top - padded(content_span(ms)).bottom,
    ensures
        ({
            let p = padded(content_span(ms));
            let c = canvas_spec(ms, v, v);
            &&& correction(p, v, v).0 == correction(p, v, v).1
            &&& added_height(p, v, v) == (p.top - p.bottom) / 2
            &&& added_width(p, v, v) == (p.right - p.left) / 2
            &&& c.x_bounds.1 - c.x_bounds.0 == c.y_bounds.1 - c.y_bounds.0
        }),
{
    let p = padded(content_span(ms));
    lemma_span_upto_ok(ms, ms.len() as int);
    let side = p.right - p.left;
    assert(side > 0);
    assert(side * (side * v) / (2 * (side * v)) == side / 2) by (nonlinear_arith)
        requires
            side > 0,
            v > 0,
    {
        assert(side * (side * v) == (side / 2) * (2 * (side * v)) + (side % 2) * (side * v));
        assert(0 <= (side % 2) * (side * v) < 2 * (side * v));
        vstd::arithmetic::div_mod::lemma_fundamental_div_mod_converse(
            side * (side * v),
            2 * (side * v),
            side / 2,
            (side % 2) * (side * v),
        );
    }
}

impl Monitor {
    /// The box the display covers in logical space, whether or not it is
    /// enabled.
    pub fn placed_extent(&self) -> (r: Option<Extent>)
        ensures
            match placed_span(self@) {
                Some(e) => r matches Some(x) && x@ == e,
                None => r is None,
            },
    {
        let pos = match self.position {
            Some(p) => p,
            None => return None,
        };
        let mode = match self.resolved_mode() {
            Some(m) => m,
            None => return None,
        };
        let scale = match self.scale {
            Some(v) => v,
            None => return None,
        };
        if scale == 0 {
            return None;
        }
        proof {
            lemma_size_limit(mode.width as int, scale as int);
            lemma_size_limit(mode.height as int, scale as int);
        }
        let width: u64 = (mode.width as u64 * 1_000_000) / (scale as u64);
        let height: u64 = (mode.height as u64 * 1_000_000) / (scale as u64);
        let left: i64 = pos.x as i64 * 1000;
        let bottom: i64 = pos.y as i64 * 1000;
        Some(Extent { left, bottom, right: left + width as i64, top: bottom + height as i64 })
    }

    /// The coordinate space for drawing these displays in a viewport of
    /// `area_width` by `area_height` cells: the box of the enabled displays
    /// that can be placed, grown by the margin, then widened or heightened so
    /// that its shape matches the viewport's.
    pub fn get_monitors_canvas(monitors: &Vec<Monitor>, area_width: u16, area_height: u16) -> (r:
        MonitorCanvas)
        requires
            area_width > 0,
            area_height > 0,
        ensures
            r == canvas_spec(views(monitors@), area_width as int, area_height as int),
    {
        let ghost ms = views(monitors@);
        let mut acc: Option<Extent> = None;
        let mut i: usize = 0;
        while i < monitors.len()
            invariant
                ms == views(monitors@),
                i <= monitors@.len(),
                match span_upto(ms, i as int) {
                    Some(e) => acc matches Some(a) && a@ == e,
                    None => acc is None,
                },
            decreases monitors@.len() - i,
        {
            let m = &monitors[i];
            proof {
                assert(ms[i as int] == m@);
            }
            if m.enabled {
                match m.placed_extent() {
                    Some(b) => {
                        acc = match acc {
                            None => Some(b),
                            Some(a) => Some(
                                Extent {
                                    left: if a.left <= b.left { a.left } else { b.left },
                                    bottom: if a.bottom <= b.bottom { a.bottom } else { b.bottom },
                                    right: if a.right >= b.right { a.right } else { b.right },
                                    top: if a.top >= b.top { a.top } else { b.top },
                                },
                            ),
                        };
                    },
                    None => {},
                }
            }
            i = i + 1;
        }
        let c = match acc {
            Some(a) => a,
            None => Extent { left: 0, bottom: 0, right: 0, top: 0 },
        };
        proof {
            lemma_span_upto_ok(ms, ms.len() as int);
            assert(c@ == content_span(ms));
        }
        let left: i64 = c.left - MARGIN;
        let bottom: i64 = c.bottom - MARGIN;
        let right: i64 = c.right + MARGIN;
        let top: i64 = c.top + MARGIN;
        let w: u128 = (right - left) as u128;
        let h: u128 = (top - bottom) as u128;
        let vw: u128 = area_width as u128;
        let vh: u128 = area_height as u128;
        proof {
            assert(w * vh <= 20_000_000_000_000_000 * 65535 && h * vw <= 20_000_000_000_000_000
                * 65535) by (nonlinear_arith)
                requires
                    w <= 20_000_000_000_000_000,
                    h <= 20_000_000_000_000_000,
                    vw <= 65535,
                    vh <= 65535,
            ;
        }
        let num: u128 = w * vh;
        let den: u128 = h * vw;
        proof {
            assert(num >= 1 && den >= 1) by (nonlinear_arith)
                requires
                    num == w * vh,
                    den == h * vw,
                    w >= 1,
                    h >= 1,
                    vw >= 1,
                    vh >= 1,
            ;
            assert(h * num <= 20_000_000_000_000_000 * (20_000_000_000_000_000 * 65535) && w * den
                <= 20_000_000_000_000_000 * (20_000_000_000_000_000 * 65535)) by (nonlinear_arith)
                requires
                    w <= 20_000_000_000_000_000,
                    h <= 20_000_000_000_000_000,
                    num <= 20_000_000_000_000_000 * 65535,
                    den <= 20_000_000_000_000_000 * 65535,
            ;
            assert(h * num / (2 * den) <= h * num && w * den / (2 * num) <= w * den) by (
            nonlinear_arith)
                requires
                    num >= 1,
                    den >= 1,
                    h >= 1,
                    w >= 1,
            ;
        }
        let add_h: u128 = h * num / (2 * den);
        let add_w: u128 = w * den / (2 * num);
        let offset_y: i64 = if c.bottom < 0 {
            -c.bottom
        } else {
            0
        };
        MonitorCanvas {
            top: c.top,
            x_bounds: (left as i128 - add_w as i128, right as i128 + add_w as i128),
            y_bounds: (bottom as i128 - add_h as i128, top as i128 + add_h as i128),
            offset_y,
        }
    }

    /// Where the display is drawn on the canvas, or `UnresolvedDisplay` when
    /// it has no position, no mode to use, or no scale above zero.
    pub fn project(&self, canvas: &MonitorCanvas) -> (r: Result<Projection, DisplayError>)
        ensures
            match placed_span(self@) {
                Some(e) => r == Ok::<Projection, DisplayError>(projection_spec(e, *canvas)),
                None => r matches Err(DisplayError::UnresolvedDisplay(n)) && n@ == self.name@,
            },
    {
        let e = match self.placed_extent() {
            Some(e) => e,
            None => return Err(DisplayError::UnresolvedDisplay(self.name.clone())),
        };
        proof {
            lemma_placed_span_ok(self@);
        }
        let width: i128 = e.right as i128 - e.left as i128;
        let height: i128 = e.top as i128 - e.bottom as i128;
        let y: i128 = canvas.top as i128 - canvas.offset_y as i128 - e.bottom as i128 - height;
        Ok(
            Projection {
                x: e.left as i128,
                y,
                width,
                height,
                label_x: e.left as i128 + width * 7 / 100,
                label_y: y + height - height * 7 / 100,
            },
        )
    }
}

} // verus!
