//! Stacking captured tiles into one RGBA image.
use vstd::prelude::*;

use crate::planner::{covered_rows, planned_tiles, tile_count, ViewportSpec};

verus! {

/// An RGBA image as the surface hands it back: four bytes per pixel, row by row.
pub struct RawImage {
    pub width: u32,
    pub height: u32,
    pub pixels: Vec<u8>,
}

/// A tile of the plan after capture: `index` is its position in the plan.
pub struct CapturedTile {
    pub index: usize,
    pub width: u32,
    pub height: u32,
    pub pixels: Vec<u8>,
}

/// The whole page as one RGBA buffer of `width * height` pixels.
pub struct CompositeImage {
    pub width: u32,
    pub height: u32,
    pub pixels: Vec<u8>,
}

/// Why a set of tiles could not be stacked.
#[derive(Clone, Copy, Debug, PartialEq, Eq, Structural)]
pub enum CompositorError {
    /// The tile at `index` is `actual` pixels wide where the image is `expected`.
    WidthMismatch { index: usize, expected: u32, actual: u32 },
}

/// Bytes in an RGBA buffer of the given size.
pub open spec fn rgba_len(width: nat, height: nat) -> nat {
    width * height * 4
}

impl RawImage {
    /// The buffer holds exactly `width * height` pixels.
    pub open spec fn wf(&self) -> bool {
        self.pixels@.len() == rgba_len(self.width as nat, self.height as nat)
    }
}

impl CapturedTile {
    /// The buffer holds exactly `width * height` pixels.
    pub open spec fn wf(&self) -> bool {
        self.pixels@.len() == rgba_len(self.width as nat, self.height as nat)
    }
}

impl CompositeImage {
    /// The buffer holds exactly `width * height` pixels.
    pub open spec fn wf(&self) -> bool {
        self.pixels@.len() == rgba_len(self.width as nat, self.height as nat)
    }
}

/// The tiles' buffers one after the other: with a common width, the rows of
/// each tile follow the rows of the tile before it.
pub open spec fn stacked(tiles: Seq<CapturedTile>) -> Seq<u8>
    decreases tiles.len(),
{
    if tiles.len() == 0 {
        Seq::empty()
    } else {
        stacked(tiles.drop_last()) + tiles.last().pixels@
    }
}

/// The sum of the tiles' heights.
pub open spec fn stacked_height(tiles: Seq<CapturedTile>) -> nat
    decreases tiles.len(),
{
    if tiles.len() == 0 {
        0
    } else {
        stacked_height(tiles.drop_last()) + tiles.last().height as nat
    }
}

/// All tiles are well formed.
pub open spec fn all_wf(tiles: Seq<CapturedTile>) -> bool {
    forall|i: int| 0 <= i < tiles.len() ==> (#[trigger] tiles[i]).wf()
}

/// All tiles are `width` pixels wide.
pub open spec fn all_width(tiles: Seq<CapturedTile>, width: nat) -> bool {
    forall|i: int| 0 <= i < tiles.len() ==> (#[trigger] tiles[i]).width == width
}

/// Stacked tiles of one width form a buffer of that width and of their summed height.
pub proof fn lemma_stacked_len(tiles: Seq<CapturedTile>, width: nat)
    requires
        all_wf(tiles),
        all_width(tiles, width),
    ensures
        stacked(tiles).len() == rgba_len(width, stacked_height(tiles)),
    decreases tiles.len(),
{
    if tiles.len() > 0 {
        let init = tiles.drop_last();
        assert(all_wf(init) && all_width(init, width)) by {
            assert forall|i: int| 0 <= i < init.len() implies (#[trigger] init[i]).wf()
                && init[i].width == width by {
                assert(init[i] == tiles[i]);
            }
        }
        lemma_stacked_len(init, width);
        let last = tiles.last();
        assert(last.wf() && last.width == width) by {
            assert(tiles[tiles.len() - 1] == last);
        }
        let h0 = stacked_height(init);
        let h1 = last.height as nat;
        assert(last.pixels@.len() == width * h1 * 4);
        assert(stacked(init).len() == width * h0 * 4);
        assert(width * h0 * 4 + width * h1 * 4 == width * (h0 + h1) * 4) by (nonlinear_arith);
        assert(stacked_height(tiles) == h0 + h1);
    } else {
        assert(width * 0 * 4 == 0) by (nonlinear_arith);
    }
}

/// The buffer of the first `k` tiles is the start of the buffer of all of them.
pub proof fn lemma_stacked_prefix(tiles: Seq<CapturedTile>, k: nat)
    requires
        k <= tiles.len(),
    ensures
        stacked(tiles.take(k as int)).len() <= stacked(tiles).len(),
        stacked(tiles).subrange(0, stacked(tiles.take(k as int)).len() as int) == stacked(
            tiles.take(k as int),
        ),
    decreases tiles.len(),
{
    if k == tiles.len() {
        assert(tiles.take(k as int) =~= tiles);
        assert(stacked(tiles).subrange(0, stacked(tiles).len() as int) =~= stacked(tiles));
    } else {
        let init = tiles.drop_last();
        lemma_stacked_prefix(init, k);
        assert(init.take(k as int) =~= tiles.take(k as int));
        assert(stacked(tiles).subrange(0, stacked(tiles.take(k as int)).len() as int) =~= stacked(
            init,
        ).subrange(0, stacked(tiles.take(k as int)).len() as int));
    }
}

/// Byte `b` of tile `j` lands in the stacked buffer right after the bytes of
/// the tiles before it.
pub proof fn lemma_stacked_index(tiles: Seq<CapturedTile>, j: int, b: int)
    requires
        0 <= j < tiles.len(),
        0 <= b < tiles[j].pixels@.len(),
    ensures
        stacked(tiles.take(j)).len() + b < stacked(tiles).len(),
        stacked(tiles)[stacked(tiles.take(j)).len() + b] == tiles[j].pixels@[b],
{
    let next = tiles.take(j + 1);
    assert(next.drop_last() =~= tiles.take(j));
    assert(next.last() == tiles[j]);
    lemma_stacked_prefix(tiles, (j + 1) as nat);
    let n = stacked(next).len() as int;
    assert(stacked(tiles).subrange(0, n)[stacked(tiles.take(j)).len() + b] == stacked(tiles)[
        stacked(tiles.take(j)).len() + b]);
}

/// Byte `x` of row `row` of an RGBA buffer `width` pixels wide.
pub open spec fn row_byte(pixels: Seq<u8>, width: nat, row: int, x: int) -> u8 {
    pixels[row * width * 4 + x]
}

/// Tiles whose heights follow a plan cover as many rows as the plan does.
pub(crate) proof fn lemma_heights_follow_plan(tiles: Seq<CapturedTile>, plan: Seq<crate::planner::TileSpec>, j: nat)
    requires
        j <= tiles.len(),
        tiles.len() == plan.len(),
        forall|i: int| 0 <= i < tiles.len() ==> (#[trigger] tiles[i]).height == plan[i].capture_height,
    ensures
        stacked_height(tiles.take(j as int)) == covered_rows(plan, j),
    decreases j,
{
    if j > 0 {
        let part = tiles.take(j as int);
        assert(part.drop_last() =~= tiles.take(j - 1));
        assert(part.last() == tiles[j - 1]);
        lemma_heights_follow_plan(tiles, plan, (j - 1) as nat);
    }
}

/// Stacking the tiles captured for a plan gives an image exactly
/// `content_height` rows high, whose row `r` is row `r % height` of tile
/// `r / height` (with `height` the viewport's): each row comes from the tile
/// that covers it, none twice, none left out.
pub proof fn lemma_composite_rows_follow_plan(
    content_height: nat,
    viewport: ViewportSpec,
    tiles: Seq<CapturedTile>,
)
    requires
        viewport.wf(),
        content_height <= u32::MAX,
        all_wf(tiles),
        all_width(tiles, viewport.width as nat),
        tiles.len() == tile_count(content_height, viewport.height as nat),
        forall|i: int|
            0 <= i < tiles.len() ==> (#[trigger] tiles[i]).height == planned_tiles(
                content_height,
                viewport.height as nat,
            )[i].capture_height,
    ensures
        stacked_height(tiles) == content_height,
        stacked(tiles).len() == rgba_len(viewport.width as nat, content_height),
        forall|r: int, x: int|
            0 <= r < content_height && 0 <= x < viewport.width * 4 ==> #[trigger] row_byte(
                stacked(tiles),
                viewport.width as nat,
                r,
                x,
            ) == tiles[r / viewport.height as int].pixels@[(r % viewport.height as int)
                * viewport.width * 4 + x],
{
    let c = content_height;
    let v = viewport.height as nat;
    let w = viewport.width as nat;
    let plan = planned_tiles(c, v);
    crate::planner::lemma_plan_covers_content(c, v);
    lemma_heights_follow_plan(tiles, plan, tiles.len());
    assert(tiles.take(tiles.len() as int) =~= tiles);
    lemma_stacked_len(tiles, w);
    assert forall|r: int, x: int| 0 <= r < c && 0 <= x < w * 4 implies #[trigger] row_byte(
        stacked(tiles),
        w,
        r,
        x,
    ) == tiles[r / v as int].pixels@[(r % v as int) * w * 4 + x] by {
        let j = r / v as int;
        let rr = r % v as int;
        assert(r == j * v + rr && 0 <= rr < v && j >= 0) by (nonlinear_arith)
            requires
                v > 0,
                r >= 0,
                j == r / v as int,
                rr == r % v as int,
        ;
        assert(j * v <= r) by (nonlinear_arith)
            requires
                r == j * v + rr,
                rr >= 0,
        ;
        crate::planner::lemma_tile_count_bounds(c, v);
        assert(j < tile_count(c, v)) by (nonlinear_arith)
            requires
                j * v <= r,
                r < c,
                tile_count(c, v) * v >= c,
                v > 0,
                j >= 0,
        {
            if j >= tile_count(c, v) {
                assert(j * v >= tile_count(c, v) * v);
            }
        }
        crate::planner::lemma_tiles_start_where_previous_end(c, v, j as nat);
        lemma_heights_follow_plan(tiles, plan, j as nat);
        let before = tiles.take(j);
        assert(all_wf(before) && all_width(before, w)) by {
            assert forall|i: int| 0 <= i < before.len() implies (#[trigger] before[i]).wf()
                && before[i].width == w by {
                assert(before[i] == tiles[i]);
            }
        }
        lemma_stacked_len(before, w);
        let h = tiles[j].height as nat;
        assert(h == crate::planner::planned_height(c, v, j as nat));
        assert(rr < h);
        assert(tiles[j].wf());
        let b = rr * w * 4 + x;
        assert(0 <= b < w * h * 4) by (nonlinear_arith)
            requires
                0 <= rr < h,
                0 <= x < w * 4,
                b == rr * w * 4 + x,
        {
            assert(rr * w * 4 + w * 4 == (rr + 1) * w * 4);
            assert((rr + 1) * w * 4 <= h * w * 4);
        }
        assert(w * (j * v) * 4 + b == r * w * 4 + x) by (nonlinear_arith)
            requires
                r == j * v + rr,
                b == rr * w * 4 + x,
        ;
        lemma_stacked_index(tiles, j, b);
    }
}

/// Stacks `tiles` in order into one image `width` pixels wide and
/// `total_height` rows high. Fails on the first tile of another width.
///
/// Each tile goes to the row where the tiles before it end (their summed
/// height), not to its scroll offset; for the tiles of a plan the two agree
/// (`lemma_composite_rows_follow_plan`).
pub fn compose(tiles: Vec<CapturedTile>, width: u32, total_height: u32) -> (r: Result<
    CompositeImage,
    CompositorError,
>)
    requires
        all_wf(tiles@),
        stacked_height(tiles@) == total_height,
        rgba_len(width as nat, total_height as nat) <= usize::MAX,
    ensures
        match r {
            Ok(image) => {
                &&& all_width(tiles@, width as nat)
                &&& image.width == width
                &&& image.height == total_height
                &&& image.pixels@ == stacked(tiles@)
            },
            Err(CompositorError::WidthMismatch { index, expected, actual }) => {
                &&& index < tiles@.len()
                &&& all_width(tiles@.take(index as int), width as nat)
                &&& expected == width
                &&& actual == tiles@[index as int].width
                &&& actual != width
            },
        },
{
    let mut i: usize = 0;
    while i < tiles.len()
        invariant
            i <= tiles@.len(),
            all_width(tiles@.take(i as int), width as nat),
        decreases tiles@.len() - i,
    {
        if tiles[i].width != width {
            return Err(CompositorError::WidthMismatch { index: i, expected: width, actual: tiles[i].width });
        }
        assert(all_width(tiles@.take(i + 1), width as nat)) by {
            assert forall|k: int| 0 <= k < i + 1 implies (#[trigger] tiles@.take(i + 1)[k]).width
                == width by {
                if k < i {
                    assert(tiles@.take(i as int)[k] == tiles@[k]);
                }
            }
        }
        i = i + 1;
    }
    assert(tiles@.take(tiles@.len() as int) =~= tiles@);
    proof {
        lemma_stacked_len(tiles@, width as nat);
        assert((width as nat) * (total_height as nat) <= rgba_len(width as nat, total_height as nat))
            by (nonlinear_arith);
    }
    let len: usize = (width as usize) * (total_height as usize) * 4;
    let mut pixels: Vec<u8> = vec![0u8; len];
    let mut pos: usize = 0;
    let mut t: usize = 0;
    while t < tiles.len()
        invariant
            t <= tiles@.len(),
            all_wf(tiles@),
            all_width(tiles@, width as nat),
            len == stacked(tiles@).len(),
            pixels@.len() == len,
            pos == stacked(tiles@.take(t as int)).len(),
            pos <= len,
            forall|k: int| 0 <= k < pos ==> pixels@[k] == #[trigger] stacked(tiles@)[k],
        decreases tiles@.len() - t,
    {
        let tile = &tiles[t];
        proof {
            lemma_stacked_prefix(tiles@, (t + 1) as nat);
            let next = tiles@.take(t + 1);
            assert(next.drop_last() =~= tiles@.take(t as int));
            assert(next.last() == tiles@[t as int]);
            assert(tiles@[t as int].wf());
        }
        let mut b: usize = 0;
        while b < tile.pixels.len()
            invariant
                t < tiles@.len(),
                *tile == tiles@[t as int],
                pos == stacked(tiles@.take(t as int)).len(),
                pos + tile.pixels@.len() <= len,
                pixels@.len() == len,
                len == stacked(tiles@).len(),
                forall|k: int| 0 <= k < pos + b ==> pixels@[k] == #[trigger] stacked(tiles@)[k],
            decreases tile.pixels@.len() - b,
        {
            proof {
                lemma_stacked_index(tiles@, t as int, b as int);
            }
            pixels.set(pos + b, tile.pixels[b]);
            b = b + 1;
        }
        pos = pos + tile.pixels.len();
        t = t + 1;
    }
    assert(pixels@ =~= stacked(tiles@));
    Ok(CompositeImage { width, height: total_height, pixels })
}

} // verus!
