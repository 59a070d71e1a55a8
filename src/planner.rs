//! Tile geometry: which vertical slices of the page are captured, and where.
use vstd::prelude::*;

verus! {

/// The size of the surface's visible area, in pixels.
#[derive(Clone, Copy, Debug, PartialEq, Eq, Structural)]
pub struct ViewportSpec {
    pub width: u32,
    pub height: u32,
}

impl ViewportSpec {
    /// Both dimensions are positive.
    pub open spec fn wf(self) -> bool {
        self.width > 0 && self.height > 0
    }
}

/// One planned capture: scroll the surface to `scroll_offset`, then take
/// `capture_height` rows from there.
#[derive(Clone, Copy, Debug, PartialEq, Eq, Structural)]
pub struct TileSpec {
    pub scroll_offset: u32,
    pub capture_height: u32,
}

/// Number of viewport-high slices needed to cover `content_height` rows.
pub open spec fn tile_count(content_height: nat, viewport_height: nat) -> nat
    recommends viewport_height > 0,
{
    ((content_height + viewport_height - 1) as nat) / viewport_height
}

/// The rows that tile `i` takes: a full viewport, or what is left of the page.
pub open spec fn planned_height(content_height: nat, viewport_height: nat, i: nat) -> nat {
    let rest = content_height - i * viewport_height;
    if rest < viewport_height { rest as nat } else { viewport_height }
}

/// The tile plan as a sequence: tile `i` starts at `i * viewport_height`.
pub open spec fn planned_tiles(content_height: nat, viewport_height: nat) -> Seq<TileSpec> {
    Seq::new(
        tile_count(content_height, viewport_height),
        |i: int|
            TileSpec {
                scroll_offset: (i * viewport_height) as u32,
                capture_height: planned_height(content_height, viewport_height, i as nat) as u32,
            },
    )
}

/// Total rows covered by the first `n` tiles of `tiles`.
pub open spec fn covered_rows(tiles: Seq<TileSpec>, n: nat) -> nat
    decreases n,
{
    if n == 0 || n > tiles.len() {
        0
    } else {
        covered_rows(tiles, (n - 1) as nat) + tiles[n - 1].capture_height as nat
    }
}

/// Splits a page of `content_height` rows into viewport-high tiles, the last
/// one possibly shorter. A page of zero rows gets no tile.
pub fn plan(content_height: u32, viewport: ViewportSpec) -> (tiles: Vec<TileSpec>)
    requires
        viewport.wf(),
    ensures
        tiles@ == planned_tiles(content_height as nat, viewport.height as nat),
{
    let vh = viewport.height;
    let mut tiles: Vec<TileSpec> = Vec::new();
    let mut offset: u32 = 0;
    let ghost count = tile_count(content_height as nat, vh as nat);
    proof {
        lemma_tile_count_bounds(content_height as nat, vh as nat);
        assert(0 * vh == 0) by (nonlinear_arith);
    }
    while offset < content_height
        invariant
            vh == viewport.height,
            vh > 0,
            count == tile_count(content_height as nat, vh as nat),
            offset <= content_height,
            offset < content_height ==> offset as nat == tiles.len() * vh,
            tiles.len() <= count,
            tiles.len() < count <==> offset < content_height,
            forall|i: int|
                0 <= i < tiles.len() ==> #[trigger] tiles@[i] == planned_tiles(
                    content_height as nat,
                    vh as nat,
                )[i],
        decreases content_height - offset,
    {
        let rest = content_height - offset;
        let h = if rest < vh { rest } else { vh };
        let ghost n = tiles.len();
        tiles.push(TileSpec { scroll_offset: offset, capture_height: h });
        proof {
            lemma_tile_count_bounds(content_height as nat, vh as nat);
            lemma_offset_step(content_height as nat, vh as nat, n as nat);
        }
        if rest <= vh {
            offset = content_height;
        } else {
            offset = offset + vh;
            proof {
                assert((n + 1) * vh == n * vh + vh) by (nonlinear_arith);
            }
        }
        proof {
            if rest <= vh {
                lemma_last_tile(content_height as nat, vh as nat, n as nat);
            }
        }
    }
    proof {
        assert(tiles@ =~= planned_tiles(content_height as nat, vh as nat));
    }
    tiles
}

/// Every tile but the last is a full viewport high, so the tiles before tile
/// `n` cover exactly the rows above its scroll offset.
pub proof fn lemma_tiles_start_where_previous_end(content_height: nat, viewport_height: nat, n: nat)
    requires
        0 < viewport_height <= u32::MAX,
        content_height <= u32::MAX,
        n < tile_count(content_height, viewport_height),
    ensures
        covered_rows(planned_tiles(content_height, viewport_height), n) == n * viewport_height,
        n * viewport_height < content_height,
        planned_tiles(content_height, viewport_height)[n as int].scroll_offset == n * viewport_height,
    decreases n,
{
    let c = content_height;
    let v = viewport_height;
    let tiles = planned_tiles(c, v);
    lemma_tile_count_bounds(c, v);
    assert(n * v < c) by (nonlinear_arith)
        requires
            n < tile_count(c, v),
            (tile_count(c, v) - 1) * v < c,
            c > 0,
    {
        assert(n * v <= (tile_count(c, v) - 1) * v);
    }
    if n > 0 {
        let m = (n - 1) as nat;
        lemma_tiles_start_where_previous_end(c, v, m);
        assert(n * v == m * v + v) by (nonlinear_arith)
            requires
                n == m + 1,
        ;
        assert(planned_height(c, v, m) == v);
        assert(covered_rows(tiles, n) == covered_rows(tiles, m) + tiles[m as int].capture_height);
    } else {
        assert(0 * v == 0) by (nonlinear_arith);
    }
}

/// The heights of the planned tiles add up to the page height: no row is
/// left out and none is taken twice.
pub proof fn lemma_plan_covers_content(content_height: nat, viewport_height: nat)
    requires
        0 < viewport_height <= u32::MAX,
        content_height <= u32::MAX,
    ensures
        covered_rows(
            planned_tiles(content_height, viewport_height),
            tile_count(content_height, viewport_height),
        ) == content_height,
{
    let c = content_height;
    let v = viewport_height;
    let t = tile_count(c, v);
    lemma_tile_count_bounds(c, v);
    if t > 0 {
        let m = (t - 1) as nat;
        lemma_tiles_start_where_previous_end(c, v, m);
        assert(c - m * v <= v) by (nonlinear_arith)
            requires
                t * v >= c,
                m == t - 1,
        {
            assert(t * v == m * v + v);
        }
        let tiles = planned_tiles(c, v);
        assert(planned_height(c, v, m) == c - m * v);
        assert(covered_rows(tiles, t) == covered_rows(tiles, m) + tiles[m as int].capture_height);
    } else {
        assert(t * v == 0) by (nonlinear_arith)
            requires
                t == 0,
        ;
    }
}

/// Consecutive tiles are one viewport apart, and the plan stops at the
/// first tile that reaches the bottom of the page.
pub proof fn lemma_plan_steps_by_viewport(content_height: nat, viewport_height: nat)
    requires
        0 < viewport_height <= u32::MAX,
        content_height <= u32::MAX,
    ensures
        forall|i: int|
            0 < i < tile_count(content_height, viewport_height) ==> (#[trigger] planned_tiles(
                content_height,
                viewport_height,
            )[i]).scroll_offset == planned_tiles(content_height, viewport_height)[i
                - 1].scroll_offset + viewport_height,
        forall|i: int|
            0 <= i < tile_count(content_height, viewport_height) ==> ((#[trigger] planned_tiles(
                content_height,
                viewport_height,
            )[i]).scroll_offset + planned_tiles(content_height, viewport_height)[i].capture_height
                == content_height <==> i == tile_count(content_height, viewport_height) - 1),
{
    let c = content_height;
    let v = viewport_height;
    let t = tile_count(c, v);
    let tiles = planned_tiles(c, v);
    lemma_tile_count_bounds(c, v);
    assert forall|i: int| 0 < i < t implies (#[trigger] tiles[i]).scroll_offset == tiles[i
        - 1].scroll_offset + v by {
        lemma_tiles_start_where_previous_end(c, v, i as nat);
        lemma_tiles_start_where_previous_end(c, v, (i - 1) as nat);
        assert(i * v == (i - 1) * v + v) by (nonlinear_arith);
    }
    assert forall|i: int| 0 <= i < t implies ((#[trigger] tiles[i]).scroll_offset
        + tiles[i].capture_height == c <==> i == t - 1) by {
        lemma_tiles_start_where_previous_end(c, v, i as nat);
        if i == t - 1 {
            assert(c - i * v <= v) by (nonlinear_arith)
                requires
                    t * v >= c,
                    i == t - 1,
            {
                assert(t * v == i * v + v);
            }
        } else {
            lemma_tiles_start_where_previous_end(c, v, (i + 1) as nat);
            assert((i + 1) * v == i * v + v) by (nonlinear_arith);
        }
    }
}

pub(crate) proof fn lemma_tile_count_bounds(c: nat, v: nat)
    requires
        v > 0,
    ensures
        tile_count(c, v) * v >= c,
        c > 0 ==> (tile_count(c, v) - 1) * v < c,
        c == 0 ==> tile_count(c, v) == 0,
{
    let t = tile_count(c, v);
    assert(t * v >= c && (c > 0 ==> (t - 1) * v < c) && (c == 0 ==> t == 0)) by (nonlinear_arith)
        requires
            v > 0,
            t == ((c + v - 1) as nat) / v,
    {
        if c == 0 {
            assert(((v - 1) as nat) / v == 0);
        }
    }
}

proof fn lemma_offset_step(c: nat, v: nat, n: nat)
    requires
        v > 0,
        n * v < c,
    ensures
        n < tile_count(c, v),
        c - n * v > v ==> (n + 1) * v < c && n + 1 < tile_count(c, v),
{
    let t = tile_count(c, v);
    lemma_tile_count_bounds(c, v);
    assert(n < t) by (nonlinear_arith)
        requires
            n * v < c,
            c > 0,
            (t - 1) * v < c,
            t * v >= c,
            v > 0,
    {
        if n >= t {
            assert(n * v >= t * v);
        }
    }
    if c - n * v > v {
        assert((n + 1) * v == n * v + v) by (nonlinear_arith);
        assert(n + 1 < t) by (nonlinear_arith)
            requires
                (n + 1) * v < c,
                t * v >= c,
                v > 0,
        {
            if n + 1 >= t {
                assert((n + 1) * v >= t * v);
            }
        }
    }
}

proof fn lemma_last_tile(c: nat, v: nat, n: nat)
    requires
        v > 0,
        n * v < c,
        c - n * v <= v,
    ensures
        n + 1 == tile_count(c, v),
{
    let t = tile_count(c, v);
    lemma_tile_count_bounds(c, v);
    lemma_offset_step(c, v, n);
    assert(n + 1 >= t) by (nonlinear_arith)
        requires
            n * v < c,
            c <= n * v + v,
            (t - 1) * v < c,
            v > 0,
            n < t,
    {
        if n + 1 < t {
            assert((n + 1) * v <= (t - 1) * v);
        }
    }
}

} // verus!
