//! The frame buffer: a dense, row-major grid of pixel intensities.

use vstd::prelude::*;
use vstd::string::StringExecFns;
use crate::palette::{push_background, push_colour, background_text, colour_text, solid_text, SENTINEL};

verus! {

/// The display mode that paints with the colour palette; any other mode
/// paints the silhouette.
pub const COLOUR_MODE: i32 = 1;

/// A grid of `w * h` intensities, row after row, and the mode it is
/// displayed in.
pub struct Bitmap {
    bitmap: Vec<i32>,
    w: i32,
    h: i32,
    mode: i32,
}

/// `r` is the square root of `n`, rounded down.
pub open spec fn is_floor_sqrt(n: int, r: int) -> bool {
    0 <= r && r * r <= n < (r + 1) * (r + 1)
}

/// Offset of pixel `p` from the centre of an axis of `extent` pixels.
pub open spec fn centred(p: int, extent: int) -> int {
    p - extent / 2
}

/// Squared distance of pixel `(x, y)` from the centre of a `w` by `h` grid.
pub open spec fn dist2(x: int, y: int, w: int, h: int) -> int {
    centred(x, w) * centred(x, w) + centred(y, h) * centred(y, h)
}

/// What one cell looks like: the sentinel is background in both modes;
/// any other intensity is the solid glyph of the silhouette, or its
/// palette text in colour mode.
pub open spec fn cell_text(colour: bool, v: int) -> Seq<char> {
    if v == SENTINEL {
        background_text()
    } else if colour {
        colour_text(v)
    } else {
        solid_text()
    }
}

/// The text of the first `n` cells from index `start` on.
pub open spec fn run_text(cells: Seq<i32>, colour: bool, start: int, n: int) -> Seq<char>
    decreases n,
{
    if n <= 0 {
        Seq::empty()
    } else {
        run_text(cells, colour, start, n - 1) + cell_text(colour, cells[start + n - 1] as int)
    }
}

/// The text of the first `k` rows of width `w`: a line feed before every
/// row but the first, the row's cells, then a carriage return.
pub open spec fn rows_text(cells: Seq<i32>, colour: bool, w: int, k: int) -> Seq<char>
    decreases k,
{
    if k <= 0 {
        Seq::empty()
    } else {
        rows_text(cells, colour, w, k - 1) + (if k == 1 {
            Seq::empty()
        } else {
            "\n"@
        }) + run_text(cells, colour, (k - 1) * w, w) + "\r"@
    }
}

/// A cell of a grid of width `w` lies inside the grid of height `h`.
pub proof fn lemma_index_in_range(x: int, y: int, w: int, h: int)
    requires
        0 <= x < w,
        0 <= y < h,
    ensures
        0 <= y * w,
        0 <= y * w + x < w * h,
        y * w + x < (y + 1) * w,
        (y + 1) * w <= w * h,
{
    assert(0 <= y * w && y * w + w == (y + 1) * w && (y + 1) * w <= h * w && h * w == w * h)
        by (nonlinear_arith)
        requires
            0 <= y < h,
            0 < w,
    ;
}

/// Two cells of one grid with the same index are the same cell.
pub proof fn lemma_index_injective(x1: int, y1: int, x2: int, y2: int, w: int)
    requires
        0 <= x1 < w,
        0 <= x2 < w,
        y1 * w + x1 == y2 * w + x2,
    ensures
        x1 == x2,
        y1 == y2,
{
    if y1 < y2 {
        assert((y1 + 1) * w <= y2 * w && (y1 + 1) * w == y1 * w + w) by (nonlinear_arith)
            requires
                y1 + 1 <= y2,
                0 < w,
        ;
    } else if y2 < y1 {
        assert((y2 + 1) * w <= y1 * w && (y2 + 1) * w == y2 * w + w) by (nonlinear_arith)
            requires
                y2 + 1 <= y1,
                0 < w,
        ;
    }
}

/// Every index of a `w` by `h` grid is the index of one cell inside it:
/// column `i % w` of row `i / w`.
pub proof fn lemma_index_has_a_cell(i: int, w: int, h: int)
    requires
        0 <= i < w * h,
        0 <= w,
        0 <= h,
    ensures
        0 <= i % w < w,
        0 <= i / w < h,
        (i / w) * w + i % w == i,
{
    assert(0 < w) by (nonlinear_arith)
        requires
            0 <= i < w * h,
            0 <= w,
    ;
    assert(0 <= i % w < w && (i / w) * w + i % w == i && 0 <= i / w) by (nonlinear_arith)
        requires
            0 < w,
            0 <= i,
    ;
    assert(i / w < h) by (nonlinear_arith)
        requires
            0 < w,
            i < w * h,
            (i / w) * w + i % w == i,
            0 <= i % w,
    ;
}

/// The square root of `n`, rounded down.
pub fn floor_sqrt(n: u64) -> (r: u64)
    ensures
        is_floor_sqrt(n as int, r as int),
{
    let mut lo: u64 = 0;
    let mut hi: u64 = 0x1_0000_0000;
    assert(0x1_0000_0000int * 0x1_0000_0000int == 0x1_0000_0000_0000_0000int) by (nonlinear_arith);
    assert(n < hi * hi);
    while hi - lo > 1
        invariant
            lo < hi <= 0x1_0000_0000,
            lo * lo <= n < hi * hi,
        decreases hi - lo,
    {
        let mid: u64 = lo + (hi - lo) / 2;
        assert(mid * mid <= 0xffff_ffffint * 0xffff_ffffint) by (nonlinear_arith)
            requires
                0 <= mid <= 0xffff_ffffint,
        ;
        assert(0xffff_ffffint * 0xffff_ffffint < 0x1_0000_0000_0000_0000int) by (nonlinear_arith);
        if mid * mid <= n {
            lo = mid;
        } else {
            hi = mid;
        }
    }
    lo
}

/// Offset of pixel `p` from the centre of an axis of `extent` pixels. It
/// is at most half the extent either way.
pub fn centre_offset(p: i32, extent: i32) -> (d: i32)
    requires
        0 <= p < extent,
    ensures
        d == centred(p as int, extent as int),
        -extent <= 2 * d <= extent,
{
    p - extent / 2
}

/// How far pixel `(x, y)` of a `w` by `h` grid lies from the centre, in whole
/// pixels.
pub fn circle_shade(x: i32, y: i32, w: i32, h: i32) -> (g: i32)
    requires
        0 <= x < w,
        0 <= y < h,
    ensures
        is_floor_sqrt(dist2(x as int, y as int, w as int, h as int), g as int),
{
    let dx: i64 = centre_offset(x, w) as i64;
    let dy: i64 = centre_offset(y, h) as i64;
    assert(dx * dx <= 0x4000_0000int * 0x4000_0000int && dy * dy <= 0x4000_0000int * 0x4000_0000int
        && 0 <= dx * dx && 0 <= dy * dy) by (nonlinear_arith)
        requires
            -0x4000_0000int <= dx <= 0x4000_0000int,
            -0x4000_0000int <= dy <= 0x4000_0000int,
    ;
    assert(0x4000_0000int * 0x4000_0000int == 0x1000_0000_0000_0000int) by (nonlinear_arith);
    let n: u64 = (dx * dx + dy * dy) as u64;
    let r: u64 = floor_sqrt(n);
    assert(r < 0x8000_0000) by (nonlinear_arith)
        requires
            r * r <= n,
            n <= 0x2000_0000_0000_0000int,
            0 <= r,
    ;
    r as i32
}

impl Bitmap {
    /// The intensities, row after row.
    pub closed spec fn cells(&self) -> Seq<i32> {
        self.bitmap@
    }

    /// Number of columns.
    pub closed spec fn cols(&self) -> int {
        self.w as int
    }

    /// Number of rows.
    pub closed spec fn rows(&self) -> int {
        self.h as int
    }

    /// The display mode.
    pub closed spec fn mode_code(&self) -> int {
        self.mode as int
    }

    /// The grid is as large as its dimensions say.
    pub open spec fn wf(&self) -> bool {
        &&& 0 <= self.cols() <= i32::MAX
        &&& 0 <= self.rows() <= i32::MAX
        &&& self.cells().len() == self.cols() * self.rows()
    }

    /// The intensity at column `x` of row `y`.
    pub open spec fn cell_at(&self, x: int, y: int) -> i32 {
        self.cells()[y * self.cols() + x]
    }

    /// Whether the bitmap is displayed with the colour palette.
    pub open spec fn in_colour(&self) -> bool {
        self.mode_code() == COLOUR_MODE
    }

    /// The text of the whole frame in the given mode; nothing for a grid
    /// without columns.
    pub open spec fn frame_text(&self, colour: bool) -> Seq<char> {
        if self.cols() > 0 {
            rows_text(self.cells(), colour, self.cols(), self.rows())
        } else {
            Seq::empty()
        }
    }

    /// Two grids of one size that agree cell by cell hold the same
    /// intensities: what is known of every column and row is known of the
    /// whole buffer, so a fill leaves no cell as it was.
    pub proof fn lemma_cells_determine_grid(&self, other: &Bitmap)
        requires
            self.wf(),
            other.wf(),
            self.cols() == other.cols(),
            self.rows() == other.rows(),
            forall|x: int, y: int|
                0 <= x < self.cols() && 0 <= y < self.rows() ==> #[trigger] self.cell_at(x, y)
                    == other.cell_at(x, y),
        ensures
            self.cells() == other.cells(),
            forall|colour: bool| self.frame_text(colour) == other.frame_text(colour),
    {
        assert forall|i: int| 0 <= i < self.cells().len() implies self.cells()[i]
            == other.cells()[i] by {
            lemma_index_has_a_cell(i, self.cols(), self.rows());
            assert(self.cell_at(i % self.cols(), i / self.cols()) == other.cell_at(
                i % self.cols(),
                i / self.cols(),
            ));
        }
        assert(self.cells() =~= other.cells());
    }

    /// A grid of `width` by `height` zeros, in colour mode.
    pub fn new(width: i32, height: i32) -> (b: Bitmap)
        requires
            0 <= width,
            0 <= height,
            width * height <= i32::MAX,
        ensures
            b.wf(),
            b.cols() == width,
            b.rows() == height,
            b.mode_code() == COLOUR_MODE,
            b.cells() == Seq::new((width * height) as nat, |i: int| 0i32),
    {
        assert(0 <= width * height) by (nonlinear_arith)
            requires
                0 <= width,
                0 <= height,
        ;
        let n: usize = (width as usize) * (height as usize);
        let mut bitmap: Vec<i32> = Vec::new();
        while bitmap.len() < n
            invariant
                bitmap@.len() <= n,
                forall|i: int| 0 <= i < bitmap@.len() ==> bitmap@[i] == 0,
            decreases n - bitmap@.len(),
        {
            bitmap.push(0);
        }
        assert(bitmap@ =~= Seq::new((width * height) as nat, |i: int| 0i32));
        Bitmap { bitmap, w: width, h: height, mode: 1 }
    }

    /// Number of columns.
    pub fn width(&self) -> (r: i32)
        ensures
            r == self.cols(),
    {
        self.w
    }

    /// Number of rows.
    pub fn height(&self) -> (r: i32)
        ensures
            r == self.rows(),
    {
        self.h
    }

    /// The display mode.
    pub fn mode(&self) -> (r: i32)
        ensures
            r == self.mode_code(),
    {
        self.mode
    }

    /// Chooses the display mode. The grid keeps every intensity.
    pub fn set_mode(&mut self, mode: i32)
        ensures
            final(self).mode_code() == mode,
            final(self).cells() == old(self).cells(),
            final(self).cols() == old(self).cols(),
            final(self).rows() == old(self).rows(),
            final(self).wf() == old(self).wf(),
    {
        self.mode = mode;
    }

    /// The intensity at column `x` of row `y`.
    pub fn get(&self, x: i32, y: i32) -> (v: i32)
        requires
            self.wf(),
            0 <= x < self.cols(),
            0 <= y < self.rows(),
        ensures
            v == self.cell_at(x as int, y as int),
    {
        proof {
            lemma_index_in_range(x as int, y as int, self.w as int, self.h as int);
        }
        let n: usize = self.bitmap.len();
        assert(y * self.w + x < n);
        let i: usize = (y as usize) * (self.w as usize) + (x as usize);
        self.bitmap[i]
    }

    /// Stores `v` at column `x` of row `y`; every other cell stays.
    pub fn set(&mut self, x: i32, y: i32, v: i32)
        requires
            old(self).wf(),
            0 <= x < old(self).cols(),
            0 <= y < old(self).rows(),
        ensures
            final(self).wf(),
            final(self).cols() == old(self).cols(),
            final(self).rows() == old(self).rows(),
            final(self).mode_code() == old(self).mode_code(),
            final(self).cells() == old(self).cells().update(y * old(self).cols() + x, v),
            final(self).cell_at(x as int, y as int) == v,
    {
        proof {
            lemma_index_in_range(x as int, y as int, self.w as int, self.h as int);
        }
        let n: usize = self.bitmap.len();
        assert(y * self.w + x < n);
        let i: usize = (y as usize) * (self.w as usize) + (x as usize);
        self.bitmap.set(i, v);
    }

    /// Overwrites every cell with what `shade` gives for its column and
    /// row.
    pub fn fill_with<F: Fn(i32, i32) -> i32>(&mut self, shade: F)
        requires
            old(self).wf(),
            forall|x: i32, y: i32|
                0 <= x < old(self).cols() && 0 <= y < old(self).rows() ==> call_requires(
                    shade,
                    (x, y),
                ),
        ensures
            final(self).wf(),
            final(self).cols() == old(self).cols(),
            final(self).rows() == old(self).rows(),
            final(self).mode_code() == old(self).mode_code(),
            forall|x: i32, y: i32|
                0 <= x < old(self).cols() && 0 <= y < old(self).rows() ==> call_ensures(
                    shade,
                    (x, y),
                    #[trigger] final(self).cell_at(x as int, y as int),
                ),
    {
        let mut i: i32 = 0;
        while i < self.h
            invariant
                self.wf(),
                self.w == old(self).w,
                self.h == old(self).h,
                self.mode == old(self).mode,
                0 <= i <= self.h,
                forall|x: i32, y: i32|
                    0 <= x < self.w && 0 <= y < self.h ==> call_requires(shade, (x, y)),
                forall|x: i32, y: i32|
                    0 <= x < self.w && 0 <= y < i ==> call_ensures(
                        shade,
                        (x, y),
                        #[trigger] self.cell_at(x as int, y as int),
                    ),
            decreases self.h - i,
        {
            let mut j: i32 = 0;
            while j < self.w
                invariant
                    self.wf(),
                    self.w == old(self).w,
                    self.h == old(self).h,
                    self.mode == old(self).mode,
                    0 <= i < self.h,
                    0 <= j <= self.w,
                    forall|x: i32, y: i32|
                        0 <= x < self.w && 0 <= y < self.h ==> call_requires(shade, (x, y)),
                    forall|x: i32, y: i32|
                        0 <= x < self.w && 0 <= y < i ==> call_ensures(
                            shade,
                            (x, y),
                            #[trigger] self.cell_at(x as int, y as int),
                        ),
                    forall|x: i32|
                        0 <= x < j ==> call_ensures(
                            shade,
                            (x, i),
                            #[trigger] self.cell_at(x as int, i as int),
                        ),
                decreases self.w - j,
            {
                let v = shade(j, i);
                let ghost before = *self;
                self.set(j, i, v);
                proof {
                    let w = self.w as int;
                    lemma_index_in_range(j as int, i as int, w, self.h as int);
                    assert forall|x: i32, y: i32|
                        0 <= x < self.w && 0 <= y < self.h && (x != j || y != i) implies #[trigger] self.cell_at(
                        x as int,
                        y as int,
                    ) == before.cell_at(x as int, y as int) by {
                        lemma_index_in_range(x as int, y as int, w, self.h as int);
                        if y * w + x == i * w + j {
                            lemma_index_injective(x as int, y as int, j as int, i as int, w);
                        }
                    }
                }
                j += 1;
            }
            i += 1;
        }
    }

    /// Overwrites every cell with its distance from the centre of the
    /// grid, in whole pixels.
    pub fn fill_circle(&mut self)
        requires
            old(self).wf(),
        ensures
            final(self).wf(),
            final(self).cols() == old(self).cols(),
            final(self).rows() == old(self).rows(),
            final(self).mode_code() == old(self).mode_code(),
            forall|x: i32, y: i32|
                0 <= x < old(self).cols() && 0 <= y < old(self).rows() ==> is_floor_sqrt(
                    dist2(x as int, y as int, old(self).cols(), old(self).rows()),
                    #[trigger] final(self).cell_at(x as int, y as int) as int,
                ),
    {
        let w: i32 = self.w;
        let h: i32 = self.h;
        let shade = |x: i32, y: i32| -> (g: i32)
            requires
                0 <= x < w,
                0 <= y < h,
            ensures
                is_floor_sqrt(dist2(x as int, y as int, w as int, h as int), g as int),
            { circle_shade(x, y, w, h) };
        self.fill_with(shade);
    }

    /// The text of the frame in one mode.
    fn paint(&self, colour: bool) -> (s: String)
        requires
            self.wf(),
        ensures
            s@ == self.frame_text(colour),
    {
        let mut out = String::new();
        if self.w == 0 {
            return out;
        }
        let mut i: i32 = 0;
        while i < self.h
            invariant
                self.wf(),
                self.w > 0,
                0 <= i <= self.h,
                out@ == rows_text(self.cells(), colour, self.cols(), i as int),
            decreases self.h - i,
        {
            if i != 0 {
                out.append("\n");
            }
            let ghost head = out@;
            let mut j: i32 = 0;
            while j < self.w
                invariant
                    self.wf(),
                    0 <= i < self.h,
                    0 <= j <= self.w,
                    out@ == head + run_text(self.cells(), colour, i * self.cols(), j as int),
                decreases self.w - j,
            {
                let v: i32 = self.get(j, i);
                let ghost text = out@;
                if v == SENTINEL {
                    push_background(&mut out);
                } else if colour {
                    push_colour(&mut out, v);
                } else {
                    out.append("\u{2593}");
                }
                assert(out@ == text + cell_text(colour, v as int));
                assert(out@ =~= head + run_text(self.cells(), colour, i * self.cols(), j + 1));
                j += 1;
            }
            out.append("\r");
            assert(out@ =~= rows_text(self.cells(), colour, self.cols(), i + 1));
            i += 1;
        }
        out
    }

    /// The frame as a silhouette: the solid glyph for every cell but the
    /// sentinel, which is background.
    pub fn display_outline(&self) -> (s: String)
        requires
            self.wf(),
        ensures
            s@ == self.frame_text(false),
    {
        self.paint(false)
    }

    /// The frame in the colours of the palette.
    pub fn display_color(&self) -> (s: String)
        requires
            self.wf(),
        ensures
            s@ == self.frame_text(true),
    {
        self.paint(true)
    }

    /// The frame in the bitmap's own mode.
    pub fn display(&self) -> (s: String)
        requires
            self.wf(),
        ensures
            s@ == self.frame_text(self.in_colour()),
    {
        if self.mode == COLOUR_MODE {
            self.display_color()
        } else {
            self.display_outline()
        }
    }
}

} // verus!
