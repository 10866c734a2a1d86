//! The four shades of the source screen and the ordered dither that turns
//! each of them into on/off pixels.

use vstd::prelude::*;

verus! {

/// One of the four grey levels of the source screen, darkest first.
#[derive(Clone, Copy, Debug, PartialEq, Eq, Structural)]
pub enum Shade {
    Black,
    DarkGrey,
    LightGrey,
    White,
}

/// Whether the destination pixel at `(x, y)` is on for a source pixel of
/// shade `s`.
pub open spec fn dither_spec(s: Shade, x: int, y: int) -> bool {
    match s {
        Shade::Black => false,
        Shade::DarkGrey => (x + y % 2) % 3 == 0,
        Shade::LightGrey => (x + y % 2) % 2 == 0,
        Shade::White => true,
    }
}

/// Decides whether the destination pixel at `(x, y)` (before the margin
/// shift) is on for shade `s`. The answer depends on these three values only.
pub fn dither(s: Shade, x: usize, y: usize) -> (on: bool)
    requires
        x < usize::MAX,
    ensures
        on == dither_spec(s, x as int, y as int),
{
    match s {
        Shade::Black => false,
        Shade::DarkGrey => (x + y % 2) % 3 == 0,
        Shade::LightGrey => (x + y % 2) % 2 == 0,
        Shade::White => true,
    }
}

/// The dither has no hidden state: equal shades and coordinates give equal
/// decisions, whatever was decided before.
pub proof fn lemma_dither_stable(s1: Shade, x1: usize, y1: usize, s2: Shade, x2: usize, y2: usize)
    requires
        s1 == s2,
        x1 == x2,
        y1 == y2,
    ensures
        dither_spec(s1, x1 as int, y1 as int) == dither_spec(s2, x2 as int, y2 as int),
{
}

/// Black is off and white is on at every destination pixel.
pub proof fn lemma_dither_extremes(x: usize, y: usize)
    ensures
        !dither_spec(Shade::Black, x as int, y as int),
        dither_spec(Shade::White, x as int, y as int),
{
}

/// Number of on pixels among columns `x0` to `x0 + n - 1` of row `y` when
/// every one of them shows shade `s`.
pub open spec fn row_on_count(s: Shade, y: int, x0: int, n: nat) -> nat
    decreases n,
{
    if n == 0 {
        0
    } else {
        row_on_count(s, y, x0, (n - 1) as nat) + if dither_spec(s, x0 + n - 1, y) {
            1nat
        } else {
            0nat
        }
    }
}

/// Number of on pixels in the block of `h` rows from row `y0` and `n`
/// columns from column `x0`, all of shade `s`.
pub open spec fn block_on_count(s: Shade, x0: int, y0: int, n: nat, h: nat) -> nat
    decreases h,
{
    if h == 0 {
        0
    } else {
        block_on_count(s, x0, y0, n, (h - 1) as nat) + row_on_count(s, y0 + h - 1, x0, n)
    }
}

proof fn lemma_row_period(s: Shade, y: int, x0: int, n: nat)
    requires
        x0 >= 0,
        y >= 0,
    ensures
        s == Shade::DarkGrey ==> row_on_count(s, y, x0, n + 3) == row_on_count(s, y, x0, n) + 1,
        s == Shade::LightGrey ==> row_on_count(s, y, x0, n + 2) == row_on_count(s, y, x0, n) + 1,
{
    let a = x0 + n + y % 2;
    assert(a >= 0);
    assert(row_on_count(s, y, x0, n + 1) == row_on_count(s, y, x0, n) + if dither_spec(s, x0 + n, y) { 1nat } else { 0nat });
    assert(row_on_count(s, y, x0, n + 2) == row_on_count(s, y, x0, n + 1) + if dither_spec(s, x0 + n + 1, y) { 1nat } else { 0nat });
    assert(row_on_count(s, y, x0, n + 3) == row_on_count(s, y, x0, n + 2) + if dither_spec(s, x0 + n + 2, y) { 1nat } else { 0nat });
    assert((x0 + n + 1) + y % 2 == a + 1);
    assert((x0 + n + 2) + y % 2 == a + 2);
}

/// In any row, any stretch of DarkGrey pixels is on for one pixel in three
/// and any stretch of LightGrey pixels for one pixel in two, give or take
/// the rounding at the stretch's ends; whole periods are exact.
pub proof fn lemma_row_density(y: usize, x0: usize, n: nat)
    ensures
        row_on_count(Shade::DarkGrey, y as int, x0 as int, 3 * n) == n,
        row_on_count(Shade::LightGrey, y as int, x0 as int, 2 * n) == n,
        3 * row_on_count(Shade::DarkGrey, y as int, x0 as int, n) <= n + 2,
        n <= 3 * row_on_count(Shade::DarkGrey, y as int, x0 as int, n) + 2,
        2 * row_on_count(Shade::LightGrey, y as int, x0 as int, n) <= n + 1,
        n <= 2 * row_on_count(Shade::LightGrey, y as int, x0 as int, n) + 1,
    decreases n,
{
    let (yi, xi) = (y as int, x0 as int);
    if n > 0 {
        lemma_row_density(y, x0, (n - 1) as nat);
        lemma_row_period(Shade::DarkGrey, yi, xi, (3 * (n - 1)) as nat);
        lemma_row_period(Shade::LightGrey, yi, xi, (2 * (n - 1)) as nat);
    }
    if n >= 3 {
        lemma_row_density(y, x0, (n - 3) as nat);
        lemma_row_period(Shade::DarkGrey, yi, xi, (n - 3) as nat);
    } else {
        reveal_with_fuel(row_on_count, 3);
    }
    if n >= 2 {
        lemma_row_density(y, x0, (n - 2) as nat);
        lemma_row_period(Shade::LightGrey, yi, xi, (n - 2) as nat);
    } else {
        reveal_with_fuel(row_on_count, 2);
    }
}

/// A block of DarkGrey pixels whose width is a multiple of three is on for
/// exactly a third of its pixels, and a block of LightGrey pixels whose
/// width is even for exactly half of them.
pub proof fn lemma_block_density(x0: usize, y0: usize, k: nat, h: nat)
    requires
        y0 + h <= usize::MAX + 1,
    ensures
        block_on_count(Shade::DarkGrey, x0 as int, y0 as int, 3 * k, h) == k * h,
        block_on_count(Shade::LightGrey, x0 as int, y0 as int, 2 * k, h) == k * h,
    decreases h,
{
    if h > 0 {
        lemma_block_density(x0, y0, k, (h - 1) as nat);
        lemma_row_density((y0 + h - 1) as usize, x0, k);
        assert(k * h == k * (h - 1) + k) by (nonlinear_arith);
    }
}

} // verus!
