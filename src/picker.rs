//! The colour picker popup: when it opens and closes, where a press on the
//! hue/lightness map picks, and the layout of the map's bitmap.

use vstd::prelude::*;
use crate::curve::UNIT;

verus! {

/// Side of the square hue/lightness map, in whole pixels.
pub const MAP_SIZE: i32 = 200;

/// Width of the popup's body, in pointer steps (210 px).
pub const POPUP_W: i64 = 210_000;

/// Height of the popup's body, in pointer steps (400 px).
pub const POPUP_H: i64 = 400_000;

/// Margin around the popup inside which a press does not close it (10 px).
pub const CLOSE_MARGIN: i64 = 10_000;

/// A hue and a lightness, each in units of `1 / UNIT`; saturation is full.
#[derive(Clone, Copy, Debug, PartialEq, Eq, Structural)]
pub struct HueLight {
    pub hue: u32,
    pub lightness: u32,
}

/// What the popup sees in one frame. `dx` and `dy` are the pointer's offset
/// from the popup's top-left corner, in thousandths of a pixel.
#[derive(Clone, Copy, Debug, PartialEq, Eq, Structural)]
pub struct PopupInput {
    pub swatch_clicked: bool,
    pub confirm: bool,
    pub escape_down: bool,
    pub enter_down: bool,
    pub pressed: bool,
    pub dx: i64,
    pub dy: i64,
}

/// The colour at column `x`, row `y` of the map: lightness falls from left
/// to right, hue grows from top to bottom.
pub open spec fn map_colour(x: int, y: int) -> HueLight {
    HueLight {
        hue: (y * (UNIT as int) / (MAP_SIZE as int)) as u32,
        lightness: (UNIT as int - x * (UNIT as int) / (MAP_SIZE as int)) as u32,
    }
}

pub open spec fn on_map(x: int, y: int) -> bool {
    0 < x < MAP_SIZE && 0 < y < MAP_SIZE
}

/// The pointer is past the popup's body and its margin.
pub open spec fn outside_popup(dx: int, dy: int) -> bool {
    !(-CLOSE_MARGIN <= dx <= POPUP_W + CLOSE_MARGIN && -CLOSE_MARGIN <= dy <= POPUP_H + CLOSE_MARGIN)
}

pub open spec fn close_requested(e: PopupInput) -> bool {
    e.confirm || e.escape_down || e.enter_down || (e.pressed && outside_popup(e.dx as int, e.dy as int))
}

/// The open flag after one frame: a swatch click toggles it, and a closing
/// condition clears it.
pub open spec fn popup_next(open: bool, e: PopupInput) -> bool {
    (open != e.swatch_clicked) && !close_requested(e)
}

/// Pixel `k` of a `w` by `h` map stored row by row.
pub open spec fn gradient_at(w: int, h: int, k: int) -> HueLight {
    HueLight {
        hue: ((k / w) * (UNIT as int) / h) as u32,
        lightness: (UNIT as int - (k % w) * (UNIT as int) / w) as u32,
    }
}

/// The colour that a press at `(x, y)` on the map picks, in whole pixels
/// from the map's top-left corner: only strictly inside the map, while the
/// button is held and no other widget has captured the pointer.
pub fn pick_on_map(x: i32, y: i32, down: bool, captured: bool) -> (r: Option<HueLight>)
    ensures
        r == (if on_map(x as int, y as int) && down && !captured {
            Some(map_colour(x as int, y as int))
        } else {
            None
        }),
{
    if 0 < x && x < MAP_SIZE && 0 < y && y < MAP_SIZE && down && !captured {
        let hue = (y as u32) * UNIT / 200;
        let step = (x as u32) * UNIT / 200;
        assert(hue <= UNIT && step <= UNIT) by (nonlinear_arith)
            requires
                0 < x < 200,
                0 < y < 200,
                hue == y * 1_000_000 / 200,
                step == x * 1_000_000 / 200,
        ;
        Some(HueLight { hue, lightness: UNIT - step })
    } else {
        None
    }
}

/// The hue and lightness of every pixel of a `w` by `h` map, row by row:
/// pixel `(i, j)` has hue `j / h` and lightness `1 - i / w`.
pub fn gradient_samples(w: usize, h: usize) -> (r: Vec<HueLight>)
    requires
        w > 0,
        h > 0,
        w * h <= usize::MAX,
    ensures
        r@.len() == w * h,
        forall|k: int| 0 <= k < w * h ==> #[trigger] r@[k] == gradient_at(w as int, h as int, k),
{
    let mut out: Vec<HueLight> = Vec::new();
    let mut j: usize = 0;
    while j < h
        invariant
            w > 0,
            h > 0,
            w * h <= usize::MAX,
            j <= h,
            out@.len() == j * w,
            forall|k: int| 0 <= k < j * w ==> #[trigger] out@[k] == gradient_at(w as int, h as int, k),
        decreases h - j,
    {
        let mut i: usize = 0;
        while i < w
            invariant
                w > 0,
                h > 0,
                w * h <= usize::MAX,
                j < h,
                i <= w,
                out@.len() == j * w + i,
                forall|k: int| 0 <= k < j * w + i ==> #[trigger] out@[k] == gradient_at(w as int, h as int, k),
            decreases w - i,
        {
            let hue = (j as u128) * 1_000_000 / (h as u128);
            let step = (i as u128) * 1_000_000 / (w as u128);
            proof {
                assert(hue <= 1_000_000 && step <= 1_000_000) by (nonlinear_arith)
                    requires
                        j < h,
                        i < w,
                        hue == (j as int) * 1_000_000 / (h as int),
                        step == (i as int) * 1_000_000 / (w as int),
                ;
                assert(j * w + i < w * h) by (nonlinear_arith)
                    requires
                        j < h,
                        i < w,
                ;
                let k = j * w + i;
                vstd::arithmetic::div_mod::lemma_fundamental_div_mod_converse(
                    k as int,
                    w as int,
                    j as int,
                    i as int,
                );
            }
            out.push(HueLight { hue: hue as u32, lightness: UNIT - step as u32 });
            i += 1;
        }
        assert((j + 1) * w == j * w + w) by (nonlinear_arith);
        j += 1;
    }
    assert(j * w == w * h) by (nonlinear_arith)
        requires
            j == h,
    ;
    out
}

/// Whether a frame's input closes the popup: the confirm button, Escape or
/// Enter held, or a press outside the popup and its margin.
pub fn should_close(e: &PopupInput) -> (r: bool)
    ensures
        r == close_requested(*e),
{
    let inside = -CLOSE_MARGIN <= e.dx && e.dx <= POPUP_W + CLOSE_MARGIN && -CLOSE_MARGIN <= e.dy
        && e.dy <= POPUP_H + CLOSE_MARGIN;
    e.confirm || e.escape_down || e.enter_down || (e.pressed && !inside)
}

/// One frame of the popup's open flag: a swatch click toggles it, then, while
/// it is open, a closing condition clears it.
pub fn update_popup(open: &mut bool, e: &PopupInput)
    ensures
        *final(open) == popup_next(*old(open), *e),
{
    if e.swatch_clicked {
        *open = !*open;
    }
    if *open && should_close(e) {
        *open = false;
    }
}

} // verus!
