//! The tile collision grid: an immutable-after-build, row-major grid of
//! solid/empty cells, queried with world-space rectangles. A query answers
//! whether the rectangle overlaps any solid cell; coordinates outside the
//! grid are treated as empty, so the grid boundary is open rather than
//! implicitly solid.

use vstd::arithmetic::div_mod::lemma_fundamental_div_mod;
use vstd::prelude::*;

use crate::geometry::Recti;

verus! {

/// Queries stay within this much of the origin (a million pixels in
/// millipixel units); it bounds the corner arithmetic well inside `i64`.
pub const QUERY_LIMIT: i64 = 1_000_000_000_000;

/// A dense grid of solid flags, addressed row-major as `row * width + col`,
/// with square cells `tile_size` millipixels on a side.
pub struct TileCollisionGrid {
    pub cells: Vec<bool>,
    pub width: usize,
    pub height: usize,
    pub tile_size: i64,
}

impl TileCollisionGrid {
    /// The grid's internal invariant: the cell vector is exactly
    /// `width * height` long and the dimensions are small enough that all
    /// index and coordinate arithmetic stays in range.
    pub open spec fn wf(self) -> bool {
        &&& self.cells@.len() == self.width * self.height
        &&& self.width <= 4096
        &&& self.height <= 4096
        &&& 1 <= self.tile_size <= 1_000_000
    }

    pub open spec fn spec_width(self) -> usize {
        self.width
    }

    pub open spec fn spec_height(self) -> usize {
        self.height
    }

    pub open spec fn spec_tile_size(self) -> i64 {
        self.tile_size
    }

    /// Whether the cell at column `c`, row `r` is solid; cells outside the
    /// grid are never solid.
    pub open spec fn solid_at(self, c: int, r: int) -> bool {
        &&& 0 <= c < self.width
        &&& 0 <= r < self.height
        &&& self.cells@[r * self.width + c]
    }

    /// Whether the (half-open) rectangle overlaps the (half-open) square
    /// cell at column `c`, row `r` for cell size `ts`.
    pub open spec fn covers(rect: Recti, ts: int, c: int, r: int) -> bool {
        &&& rect.w > 0 && rect.h > 0
        &&& c * ts < rect.x + rect.w && rect.x < (c + 1) * ts
        &&& r * ts < rect.y + rect.h && rect.y < (r + 1) * ts
    }

    /// Whether the rectangle overlaps any solid cell of the grid.
    pub open spec fn blocked_spec(self, rect: Recti) -> bool {
        exists|c: int, r: int|
            Self::covers(rect, self.tile_size as int, c, r) && self.solid_at(c, r)
    }

    /// Build a grid from a layer description: a list of
    /// `(column, row, is_solid)` entries. A cell is solid exactly when some
    /// in-range entry marks it solid; entries outside the grid and entries
    /// marked empty are ignored.
    pub fn build(
        entries: &Vec<(usize, usize, bool)>,
        width: usize,
        height: usize,
        tile_size: i64,
    ) -> (g: Self)
        requires
            width <= 4096,
            height <= 4096,
            1 <= tile_size <= 1_000_000,
        ensures
            g.wf(),
            g.spec_width() == width,
            g.spec_height() == height,
            g.spec_tile_size() == tile_size,
            forall|c: int, r: int|
                g.solid_at(c, r) <==> (0 <= c < width && 0 <= r < height && exists|i: int|
                    0 <= i < entries@.len() && entries@[i].0 == c && entries@[i].1 == r
                        && entries@[i].2),
    {
        proof {
            assert(width * height <= 16_777_216) by (nonlinear_arith)
                requires
                    width <= 4096,
                    height <= 4096,
            ;
        }
        let n: usize = width * height;
        let mut cells: Vec<bool> = vec![false; n];
        proof {
            assert forall|c: int, r: int| 0 <= c < width && 0 <= r < height implies !cells@[#[trigger] (
            r * width + c)] by {
                lemma_row_major_bound(c, r, width as int, height as int);
            };
        }
        let mut k: usize = 0;
        while k < entries.len()
            invariant
                cells@.len() == width * height,
                width <= 4096,
                height <= 4096,
                k <= entries@.len(),
                forall|c: int, r: int|
                    0 <= c < width && 0 <= r < height ==> (cells@[#[trigger] (r * width + c)]
                        <==> exists|i: int|
                        0 <= i < k && entries@[i].0 == c && entries@[i].1 == r && entries@[i].2),
            decreases entries@.len() - k,
        {
            let e = entries[k];
            if e.2 && e.0 < width && e.1 < height {
                proof {
                    lemma_row_major_bound(e.0 as int, e.1 as int, width as int, height as int);
                }
                let idx: usize = e.1 * width + e.0;
                let ghost old_cells = cells@;
                cells[idx] = true;
                proof {
                    assert forall|c: int, r: int| 0 <= c < width && 0 <= r < height implies (
                    cells@[#[trigger] (r * width + c)] <==> exists|i: int|
                        0 <= i < k + 1 && entries@[i].0 == c && entries@[i].1 == r
                            && entries@[i].2) by {
                        lemma_row_major_bound(c, r, width as int, height as int);
                        if c == e.0 && r == e.1 {
                            assert(entries@[k as int].0 == c && entries@[k as int].1 == r
                                && entries@[k as int].2);
                        } else {
                            lemma_row_major_injective(
                                c,
                                r,
                                e.0 as int,
                                e.1 as int,
                                width as int,
                            );
                            assert(cells@[r * width + c] == old_cells[r * width + c]);
                        }
                    };
                }
            } else {
                proof {
                    assert forall|c: int, r: int| 0 <= c < width && 0 <= r < height implies (
                    cells@[#[trigger] (r * width + c)] <==> exists|i: int|
                        0 <= i < k + 1 && entries@[i].0 == c && entries@[i].1 == r
                            && entries@[i].2) by {
                        if exists|i: int|
                            0 <= i < k + 1 && entries@[i].0 == c && entries@[i].1 == r
                                && entries@[i].2 {
                            let i = choose|i: int|
                                0 <= i < k + 1 && entries@[i].0 == c && entries@[i].1 == r
                                    && entries@[i].2;
                            assert(i < k);
                        }
                    };
                }
            }
            k += 1;
        }
        TileCollisionGrid { cells, width, height, tile_size }
    }

    pub fn width(&self) -> (w: usize)
        ensures
            w == self.spec_width(),
    {
        self.width
    }

    pub fn height(&self) -> (h: usize)
        ensures
            h == self.spec_height(),
    {
        self.height
    }

    pub fn tile_size(&self) -> (ts: i64)
        ensures
            ts == self.spec_tile_size(),
    {
        self.tile_size
    }

    /// Whether the world-space rectangle overlaps any solid cell. Cells
    /// outside the grid never block, and an empty rectangle overlaps
    /// nothing.
    pub fn is_blocked(&self, rect: Recti) -> (b: bool)
        requires
            self.wf(),
            rect.wf(),
            -QUERY_LIMIT <= rect.x && rect.x + rect.w <= QUERY_LIMIT,
            -QUERY_LIMIT <= rect.y && rect.y + rect.h <= QUERY_LIMIT,
        ensures
            b == self.blocked_spec(rect),
    {
        let ghost ts = self.tile_size as int;
        if rect.w == 0 || rect.h == 0 || self.width == 0 || self.height == 0 {
            return false;
        }
        let hi_x: i64 = rect.x + rect.w - 1;
        let hi_y: i64 = rect.y + rect.h - 1;
        if hi_x < 0 || hi_y < 0 {
            proof {
                assert forall|c: int, r: int| #[trigger]
                    Self::covers(rect, ts, c, r) implies !self.solid_at(c, r) by {
                    if 0 <= c && 0 <= r {
                        lemma_mul_nonneg_general(c, ts);
                        lemma_mul_nonneg_general(r, ts);
                    }
                };
            }
            return false;
        }
        let c0: i64 = if rect.x <= 0 {
            0
        } else {
            div_nonneg(rect.x, self.tile_size)
        };
        let r0: i64 = if rect.y <= 0 {
            0
        } else {
            div_nonneg(rect.y, self.tile_size)
        };
        let c1: i64 = min_i64((self.width - 1) as i64, div_nonneg(hi_x, self.tile_size));
        let r1: i64 = min_i64((self.height - 1) as i64, div_nonneg(hi_y, self.tile_size));
        proof {
            assert forall|c: int|
                0 <= c < self.width implies (axis_covers(rect.x as int, rect.w as int, ts, c) <==> c0
                <= c <= c1) by {
                lemma_axis_range(rect.x as int, rect.w as int, ts, c);
            };
            assert forall|r: int|
                0 <= r < self.height implies (axis_covers(rect.y as int, rect.h as int, ts, r)
                <==> r0 <= r <= r1) by {
                lemma_axis_range(rect.y as int, rect.h as int, ts, r);
            };
        }
        if c0 > c1 || r0 > r1 {
            proof {
                assert forall|c: int, r: int| #[trigger]
                    Self::covers(rect, ts, c, r) implies !self.solid_at(c, r) by {
                    if 0 <= c < self.width && 0 <= r < self.height {
                        assert(axis_covers(rect.x as int, rect.w as int, ts, c));
                        assert(axis_covers(rect.y as int, rect.h as int, ts, r));
                    }
                };
            }
            return false;
        }
        let c0u: usize = c0 as usize;
        let c1u: usize = c1 as usize;
        let r0u: usize = r0 as usize;
        let r1u: usize = r1 as usize;
        let mut r: usize = r0u;
        while r <= r1u
            invariant
                self.wf(),
                ts == self.tile_size as int,
                rect.w > 0 && rect.h > 0,
                0 <= c0u <= c1u < self.width,
                0 <= r0u <= r1u < self.height,
                r0u <= r <= r1u + 1,
                forall|c: int|
                    0 <= c < self.width ==> (axis_covers(rect.x as int, rect.w as int, ts, c)
                        <==> c0u <= c <= c1u),
                forall|rr: int|
                    0 <= rr < self.height ==> (axis_covers(rect.y as int, rect.h as int, ts, rr)
                        <==> r0u <= rr <= r1u),
                forall|cc: int, rr: int|
                    r0u <= rr < r && c0u <= cc <= c1u ==> !self.solid_at(cc, rr),
            decreases r1u + 1 - r,
        {
            let mut c: usize = c0u;
            while c <= c1u
                invariant
                    self.wf(),
                    ts == self.tile_size as int,
                    rect.w > 0 && rect.h > 0,
                    0 <= c0u <= c1u < self.width,
                    0 <= r0u <= r <= r1u < self.height,
                    c0u <= c <= c1u + 1,
                    forall|cc: int|
                        0 <= cc < self.width ==> (axis_covers(rect.x as int, rect.w as int, ts, cc)
                            <==> c0u <= cc <= c1u),
                    forall|rr: int|
                        0 <= rr < self.height ==> (axis_covers(
                            rect.y as int,
                            rect.h as int,
                            ts,
                            rr,
                        ) <==> r0u <= rr <= r1u),
                    forall|cc: int| c0u <= cc < c ==> !self.solid_at(cc, r as int),
                decreases c1u + 1 - c,
            {
                proof {
                    lemma_row_major_bound(c as int, r as int, self.width as int, self.height as int);
                }
                if self.cells[r * self.width + c] {
                    proof {
                        assert(self.solid_at(c as int, r as int));
                        assert(axis_covers(rect.x as int, rect.w as int, ts, c as int));
                        assert(axis_covers(rect.y as int, rect.h as int, ts, r as int));
                        assert(Self::covers(rect, self.tile_size as int, c as int, r as int));
                        assert(self.blocked_spec(rect));
                    }
                    return true;
                }
                c += 1;
            }
            r += 1;
        }
        proof {
            assert forall|c: int, r: int|
                #[trigger] Self::covers(rect, ts, c, r) implies !self.solid_at(c, r) by {
                if 0 <= c < self.width && 0 <= r < self.height {
                    assert(axis_covers(rect.x as int, rect.w as int, ts, c));
                    assert(axis_covers(rect.y as int, rect.h as int, ts, r));
                }
            };
        }
        false
    }
}

/// Whether the half-open interval `[lo, lo + len)` overlaps the half-open
/// cell interval `[c * ts, (c + 1) * ts)`.
pub open spec fn axis_covers(lo: int, len: int, ts: int, c: int) -> bool {
    len > 0 && c * ts < lo + len && lo < (c + 1) * ts
}

/// The cells a non-empty interval overlaps form exactly the index range
/// from the cell of its first point to the cell of its last point.
proof fn lemma_axis_range(lo: int, len: int, ts: int, c: int)
    requires
        ts >= 1,
        len >= 1,
        c >= 0,
        lo + len - 1 >= 0,
    ensures
        axis_covers(lo, len, ts, c) <==> ((if lo <= 0 {
            0int
        } else {
            lo / ts
        }) <= c <= (lo + len - 1) / ts),
{
    let hi = lo + len - 1;
    lemma_fundamental_div_mod(hi, ts);
    // c * ts < lo + len  <==>  c * ts <= hi  <==>  c <= hi / ts
    assert(c <= hi / ts ==> c * ts <= hi) by (nonlinear_arith)
        requires
            ts >= 1,
            c >= 0,
            hi == ts * (hi / ts) + hi % ts,
            0 <= hi % ts < ts,
    ;
    assert(c * ts <= hi ==> c <= hi / ts) by (nonlinear_arith)
        requires
            ts >= 1,
            c >= 0,
            hi == ts * (hi / ts) + hi % ts,
            0 <= hi % ts < ts,
    ;
    if lo <= 0 {
        assert((c + 1) * ts >= 1) by (nonlinear_arith)
            requires
                ts >= 1,
                c >= 0,
        ;
    } else {
        lemma_fundamental_div_mod(lo, ts);
        assert(c >= lo / ts ==> lo < (c + 1) * ts) by (nonlinear_arith)
            requires
                ts >= 1,
                c >= 0,
                lo == ts * (lo / ts) + lo % ts,
                0 <= lo % ts < ts,
        ;
        assert(lo < (c + 1) * ts ==> c >= lo / ts) by (nonlinear_arith)
            requires
                ts >= 1,
                c >= 0,
                lo >= 1,
                lo == ts * (lo / ts) + lo % ts,
                0 <= lo % ts < ts,
        ;
    }
}

/// Row-major indices stay within `width * height`, which itself is small
/// for the grid dimensions this crate admits.
proof fn lemma_row_major_bound(c: int, r: int, width: int, height: int)
    requires
        0 <= c < width <= 4096,
        0 <= r < height <= 4096,
    ensures
        0 <= r * width + c < width * height,
        width * height <= 16_777_216,
{
    assert(r * width + c < width * height && width * height <= 16_777_216) by (nonlinear_arith)
        requires
            0 <= c < width <= 4096,
            0 <= r < height <= 4096,
    ;
    assert(r * width >= 0) by (nonlinear_arith)
        requires
            r >= 0,
            width >= 0,
    ;
}

/// Distinct in-range cells have distinct row-major indices.
proof fn lemma_row_major_injective(c1: int, r1: int, c2: int, r2: int, width: int)
    requires
        0 <= c1 < width,
        0 <= c2 < width,
        0 <= r1,
        0 <= r2,
        !(c1 == c2 && r1 == r2),
    ensures
        r1 * width + c1 != r2 * width + c2,
{
    assert(r1 * width + c1 != r2 * width + c2) by (nonlinear_arith)
        requires
            0 <= c1 < width,
            0 <= c2 < width,
            0 <= r1,
            0 <= r2,
            !(c1 == c2 && r1 == r2),
    ;
}

/// Multiplying non-negative factors gives a non-negative product.
proof fn lemma_mul_nonneg_general(a: int, b: int)
    requires
        a >= 0,
        b >= 0,
    ensures
        a * b >= 0,
{
    assert(a * b >= 0) by (nonlinear_arith)
        requires
            a >= 0,
            b >= 0,
    ;
}

/// Quotient of non-negative by positive, with the mathematical (floor)
/// meaning; on non-negative operands the machine division agrees with it.
fn div_nonneg(a: i64, b: i64) -> (q: i64)
    requires
        a >= 0,
        b >= 1,
    ensures
        q == a as int / b as int,
{
    a / b
}

/// The smaller of two values.
fn min_i64(a: i64, b: i64) -> (r: i64)
    ensures
        r == if a <= b { a as int } else { b as int },
{
    if a <= b {
        a
    } else {
        b
    }
}

} // verus!
