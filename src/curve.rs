//! The curve editor: knots sorted by `x`, a drag lock on one knot index, and
//! the per-frame step that turns the pointer snapshot into an edit.

use vstd::prelude::*;

verus! {

/// One whole unit of a normalised quantity: `x` runs over `0..=UNIT`.
pub const UNIT: u32 = 1_000_000;

/// Pointer offsets are given in steps of a thousandth of a pixel.
pub const SUBPIXELS: i64 = 1000;

/// Width of the plot (200 px), in pointer steps.
pub const PLOT_W: i64 = 200_000;

/// Height of the plot (50 px), in pointer steps.
pub const PLOT_H: i64 = 50_000;

/// Lowest knot value (0.0), in units of `1 / UNIT`.
pub const VALUE_MIN: u32 = 0;

/// Highest knot value (2.0), in units of `1 / UNIT`.
pub const VALUE_MAX: u32 = 2_000_000;

/// Hit tolerance (0.1) between the pointer's `t` and a knot's `x`.
pub const HIT_EPSILON: u32 = 100_000;

/// A breakpoint of the curve: `x` in `0..=UNIT`, `value` in
/// `VALUE_MIN..=VALUE_MAX`, both in units of `1 / UNIT`.
#[derive(Clone, Copy, Debug, PartialEq, Eq, Structural)]
pub struct Knot {
    pub x: u32,
    pub value: u32,
}

/// The pointer as the curve editor sees it in one frame: its offset from the
/// plot's top-left corner, in pointer steps, and whether the primary button
/// is held.
#[derive(Clone, Copy, Debug, PartialEq, Eq, Structural)]
pub struct Pointer {
    pub dx: i64,
    pub dy: i64,
    pub down: bool,
}

pub open spec fn clamp(v: int, lo: int, hi: int) -> int {
    if v < lo {
        lo
    } else if v > hi {
        hi
    } else {
        v
    }
}

/// The pointer's position along the curve's domain.
pub open spec fn t_of(dx: int) -> int {
    clamp(dx * (UNIT as int) / (PLOT_W as int), 0, UNIT as int)
}

/// The value under the pointer: the plot is inverted, `VALUE_MAX` at the top.
pub open spec fn value_of(dy: int) -> int {
    clamp(
        (PLOT_H as int - dy) * (VALUE_MAX - VALUE_MIN) as int / (PLOT_H as int) + VALUE_MIN as int,
        VALUE_MIN as int,
        VALUE_MAX as int,
    )
}

/// The knot that the pointer stands for.
pub open spec fn knot_of(p: Pointer) -> Knot {
    Knot { x: t_of(p.dx as int) as u32, value: value_of(p.dy as int) as u32 }
}

/// Whether the pointer lies in the plot, edges included.
pub open spec fn in_plot(p: Pointer) -> bool {
    0 <= p.dx <= PLOT_W && 0 <= p.dy <= PLOT_H
}

pub open spec fn near(x: int, t: int) -> bool {
    -(HIT_EPSILON as int) < x - t < HIT_EPSILON as int
}

pub open spec fn sorted_by_x(s: Seq<Knot>) -> bool {
    forall|i: int, j: int| 0 <= i < j < s.len() ==> #[trigger] s[i].x <= #[trigger] s[j].x
}

/// `i` is the first knot, in sequence order, within the hit tolerance of `t`.
pub open spec fn first_hit(s: Seq<Knot>, t: int, i: int) -> bool {
    &&& 0 <= i < s.len()
    &&& near(s[i].x as int, t)
    &&& forall|j: int| 0 <= j < i ==> !near(#[trigger] s[j].x as int, t)
}

/// No knot is within the hit tolerance of `t`.
pub open spec fn no_hit(s: Seq<Knot>, t: int) -> bool {
    forall|j: int| 0 <= j < s.len() ==> !near(#[trigger] s[j].x as int, t)
}

/// Inserting a knot with this `x` at position `p` keeps the order stable:
/// knots at or left of `x` stay before it, the others after it.
pub open spec fn insert_point(s: Seq<Knot>, x: int, p: int) -> bool {
    &&& 0 <= p <= s.len()
    &&& forall|j: int| 0 <= j < p ==> #[trigger] s[j].x <= x
    &&& forall|j: int| p <= j < s.len() ==> #[trigger] s[j].x > x
}

/// `new` is `old` with `k` added and the whole re-sorted by `x`; where `old`
/// was sorted already, `k` lands after the knots with an equal `x`.
pub open spec fn inserted(old: Seq<Knot>, k: Knot, new: Seq<Knot>) -> bool {
    &&& sorted_by_x(new)
    &&& new.to_multiset() == old.push(k).to_multiset()
    &&& sorted_by_x(old) ==> exists|p: int| insert_point(old, k.x as int, p) && new == old.insert(p, k)
}

/// The drag lock names a knot that exists.
pub open spec fn held(lock: Option<usize>, len: int) -> bool {
    lock matches Some(i) && i < len
}

/// One frame of the curve editor, from the knots and the drag lock before it
/// to those after it.
pub open spec fn curve_step(
    s: Seq<Knot>,
    lock: Option<usize>,
    p: Pointer,
    s2: Seq<Knot>,
    lock2: Option<usize>,
) -> bool {
    let k = knot_of(p);
    if !p.down {
        s2 == s && lock2 is None
    } else if held(lock, s.len() as int) {
        s2 == s.update(lock->Some_0 as int, k) && lock2 == lock
    } else if !in_plot(p) {
        s2 == s && lock2 is None
    } else if no_hit(s, k.x as int) {
        inserted(s, k, s2) && lock2 is None
    } else {
        exists|i: int|
            first_hit(s, k.x as int, i) && s2 == s.update(i, Knot { x: s[i].x, value: k.value })
                && lock2 == Some(i as usize)
    }
}


/// The pointer's position along the domain, clamped to `0..=UNIT`.
pub fn pointer_t(dx: i64) -> (t: u32)
    ensures
        t == t_of(dx as int),
{
    if dx <= 0 {
        assert(dx * 1_000_000 / 200_000 <= 0) by (nonlinear_arith)
            requires
                dx <= 0,
        ;
        0
    } else if dx >= PLOT_W {
        assert(dx * 1_000_000 / 200_000 >= 1_000_000) by (nonlinear_arith)
            requires
                dx >= 200_000,
        ;
        UNIT
    } else {
        let r = (dx as u64) * 1_000_000 / 200_000;
        assert(r <= 1_000_000) by (nonlinear_arith)
            requires
                r == dx * 1_000_000 / 200_000,
                dx < 200_000,
        ;
        r as u32
    }
}

/// The value under the pointer, clamped to `VALUE_MIN..=VALUE_MAX`.
pub fn pointer_value(dy: i64) -> (v: u32)
    ensures
        v == value_of(dy as int),
{
    if dy >= PLOT_H {
        assert((50_000 - dy) * 2_000_000 / 50_000 <= 0) by (nonlinear_arith)
            requires
                dy >= 50_000,
        ;
        VALUE_MIN
    } else if dy <= 0 {
        assert((50_000 - dy) * 2_000_000 / 50_000 >= 2_000_000) by (nonlinear_arith)
            requires
                dy <= 0,
        ;
        VALUE_MAX
    } else {
        let r = ((PLOT_H - dy) as u64) * 2_000_000 / 50_000;
        assert(r <= 2_000_000) by (nonlinear_arith)
            requires
                r == (50_000 - dy) * 2_000_000 / 50_000,
                0 < dy,
        ;
        r as u32
    }
}

/// Whether the pointer lies in the plot, edges included.
pub fn pointer_in_plot(p: Pointer) -> (r: bool)
    ensures
        r == in_plot(p),
{
    0 <= p.dx && p.dx <= PLOT_W && 0 <= p.dy && p.dy <= PLOT_H
}

/// Whether a knot at `x` is within the hit tolerance of `t`; the editor
/// highlights such knots whether or not a drag is under way.
pub fn knot_hovered(x: u32, t: u32) -> (r: bool)
    ensures
        r == near(x as int, t as int),
{
    if x >= t {
        x - t < HIT_EPSILON
    } else {
        t - x < HIT_EPSILON
    }
}

/// The first knot, in sequence order, within the hit tolerance of `t`.
pub fn find_hit(knots: &Vec<Knot>, t: u32) -> (r: Option<usize>)
    ensures
        match r {
            Some(i) => first_hit(knots@, t as int, i as int),
            None => no_hit(knots@, t as int),
        },
{
    let mut i: usize = 0;
    while i < knots.len()
        invariant
            i <= knots.len(),
            forall|j: int| 0 <= j < i ==> !near(#[trigger] knots@[j].x as int, t as int),
        decreases knots.len() - i,
    {
        if knot_hovered(knots[i].x, t) {
            return Some(i);
        }
        i += 1;
    }
    None
}

/// The position after the last leading knot whose `x` is at most `x`.
fn upper_bound(knots: &Vec<Knot>, x: u32) -> (p: usize)
    ensures
        p <= knots.len(),
        forall|j: int| 0 <= j < p ==> #[trigger] knots@[j].x <= x,
        p < knots.len() ==> knots@[p as int].x > x,
        sorted_by_x(knots@) ==> insert_point(knots@, x as int, p as int),
{
    let mut i: usize = 0;
    while i < knots.len() && knots[i].x <= x
        invariant
            i <= knots.len(),
            forall|j: int| 0 <= j < i ==> #[trigger] knots@[j].x <= x,
        decreases knots.len() - i,
    {
        i += 1;
    }
    i
}

/// Inserts `k` into sorted knots, after those with an equal `x`.
fn insert_sorted(knots: &mut Vec<Knot>, k: Knot)
    requires
        sorted_by_x(old(knots)@),
        old(knots)@.len() < usize::MAX,
    ensures
        sorted_by_x(final(knots)@),
        exists|p: int| insert_point(old(knots)@, k.x as int, p) && final(knots)@ == old(knots)@.insert(p, k),
{
    let ghost s = knots@;
    let p = upper_bound(knots, k.x);
    knots.insert(p, k);
    let ghost n = knots@;
    assert forall|i: int, j: int| 0 <= i < j < n.len() implies #[trigger] n[i].x <= #[trigger] n[j].x by {
        if j < p {
        } else if j == p {
        } else if i < p {
            assert(n[j] == s[j - 1]);
        } else if i == p {
            assert(n[j] == s[j - 1]);
        } else {
            assert(n[i] == s[i - 1]);
            assert(n[j] == s[j - 1]);
        }
    }
    assert(insert_point(s, k.x as int, p as int));
}

/// The knots re-sorted by `x`, keeping the order of knots with an equal `x`.
pub fn sort_by_x(knots: &Vec<Knot>) -> (r: Vec<Knot>)
    ensures
        r@.len() == knots@.len(),
        sorted_by_x(r@),
        r@.to_multiset() == knots@.to_multiset(),
        sorted_by_x(knots@) ==> r@ == knots@,
{
    broadcast use vstd::seq_lib::group_to_multiset_ensures;

    let mut out: Vec<Knot> = Vec::new();
    let mut i: usize = 0;
    while i < knots.len()
        invariant
            i <= knots.len(),
            out@.len() == i,
            sorted_by_x(out@),
            out@.to_multiset() == knots@.take(i as int).to_multiset(),
            sorted_by_x(knots@) ==> out@ == knots@.take(i as int),
        decreases knots.len() - i,
    {
        let k = knots[i];
        let ghost before = out@;
        assert(knots@.take(i + 1) == knots@.take(i as int).push(k));
        insert_sorted(&mut out, k);
        proof {
            let p = choose|p: int| insert_point(before, k.x as int, p) && out@ == before.insert(p, k);
            vstd::seq_lib::to_multiset_insert(before, p, k);
            vstd::seq_lib::to_multiset_build(knots@.take(i as int), k);
            if sorted_by_x(knots@) {
                if p < before.len() {
                    assert(before[p] == knots@[p]);
                    assert(knots@[p].x <= knots@[i as int].x);
                }
                assert(before.insert(p, k) =~= before.push(k));
            }
        }
        i += 1;
    }
    assert(knots@.take(knots@.len() as int) == knots@);
    out
}

/// Adds the knot `k` and re-sorts the curve by `x`.
pub fn add_knot(knots: &mut Vec<Knot>, k: Knot)
    requires
        old(knots)@.len() < usize::MAX,
    ensures
        inserted(old(knots)@, k, final(knots)@),
{
    broadcast use vstd::seq_lib::group_to_multiset_ensures;

    let mut sorted = sort_by_x(knots);
    let ghost s = sorted@;
    insert_sorted(&mut sorted, k);
    proof {
        let p = choose|p: int| insert_point(s, k.x as int, p) && sorted@ == s.insert(p, k);
        vstd::seq_lib::to_multiset_insert(s, p, k);
        vstd::seq_lib::to_multiset_build(old(knots)@, k);
    }
    *knots = sorted;
}

/// One frame of the curve editor. While the button is held the locked knot
/// follows the pointer; without a lock, a press in the plot locks onto the
/// first knot within the hit tolerance and sets its value, or else adds a
/// knot under the pointer and re-sorts. Releasing the button clears the lock.
pub fn update_curve(knots: &mut Vec<Knot>, lock: &mut Option<usize>, p: Pointer)
    requires
        old(knots)@.len() < usize::MAX,
    ensures
        curve_step(old(knots)@, *old(lock), p, final(knots)@, *final(lock)),
{
    if !p.down {
        *lock = None;
        return;
    }
    let t = pointer_t(p.dx);
    let v = pointer_value(p.dy);
    let k = Knot { x: t, value: v };
    match *lock {
        Some(ix) => {
            if ix < knots.len() {
                knots.set(ix, k);
                return;
            }
        },
        None => {},
    }
    *lock = None;
    if !pointer_in_plot(p) {
        return;
    }
    match find_hit(knots, t) {
        Some(ix) => {
            let old_x = knots[ix].x;
            knots.set(ix, Knot { x: old_x, value: v });
            *lock = Some(ix);
        },
        None => {
            add_knot(knots, k);
        },
    }
}

/// Releasing the button clears the drag lock, so the next press is hit-tested
/// afresh: it does exactly what a press with no lock does, rather than moving
/// the knot that was dragged before.
pub proof fn release_clears_lock(
    s: Seq<Knot>,
    lock: Option<usize>,
    up: Pointer,
    s2: Seq<Knot>,
    lock2: Option<usize>,
    press: Pointer,
    s3: Seq<Knot>,
    lock3: Option<usize>,
)
    requires
        !up.down,
        curve_step(s, lock, up, s2, lock2),
        curve_step(s2, lock2, press, s3, lock3),
    ensures
        lock2 is None,
        s2 == s,
        curve_step(s2, None, press, s3, lock3),
{
}

/// After any frame the drag lock is either clear or names an existing knot,
/// so it never outlives the sequence it was taken on.
pub proof fn lock_names_a_knot(
    s: Seq<Knot>,
    lock: Option<usize>,
    p: Pointer,
    s2: Seq<Knot>,
    lock2: Option<usize>,
)
    requires
        curve_step(s, lock, p, s2, lock2),
    ensures
        lock2 is None || held(lock2, s2.len() as int),
{
}

} // verus!
