//! Pixel extents and the workgroup grid that covers them.

use vstd::prelude::*;

verus! {

/// Edge length, in pixels, of the square tile that one compute workgroup fills.
pub const WORKGROUP_TILE: u32 = 16;

/// A width and a height in physical pixels.
#[derive(Clone, Copy, Debug, PartialEq, Eq, Structural)]
pub struct Extent {
    pub width: u32,
    pub height: u32,
}

/// Number of workgroups to dispatch along each axis.
#[derive(Clone, Copy, Debug, PartialEq, Eq, Structural)]
pub struct WorkgroupGrid {
    pub x: u32,
    pub y: u32,
    pub z: u32,
}

impl Extent {
    /// A surface or a texture can only be made with both dimensions nonzero.
    pub open spec fn is_drawable(self) -> bool {
        self.width > 0 && self.height > 0
    }

    /// Whether both dimensions are nonzero.
    pub fn drawable(&self) -> (yes: bool)
        ensures
            yes == self.is_drawable(),
    {
        self.width > 0 && self.height > 0
    }
}

/// The least number of tiles of edge `tile` whose union covers `length` pixels.
pub open spec fn tiles_needed(length: int, tile: int) -> int
    recommends
        length >= 0,
        tile > 0,
{
    (length + tile - 1) / tile
}

/// The grid that covers `extent` with square tiles of edge `tile`, one layer deep.
pub open spec fn grid_for(extent: Extent, tile: u32) -> WorkgroupGrid
    recommends
        tile > 0,
{
    WorkgroupGrid {
        x: tiles_needed(extent.width as int, tile as int) as u32,
        y: tiles_needed(extent.height as int, tile as int) as u32,
        z: 1,
    }
}

/// `tiles_needed` is the ceiling of `length / tile`: it is the one count `n`
/// with `(n - 1) * tile < length <= n * tile`.
pub proof fn lemma_tiles_needed_is_ceiling(length: int, tile: int)
    requires
        length >= 0,
        tile > 0,
    ensures
        0 <= tiles_needed(length, tile) <= length,
        length <= tiles_needed(length, tile) * tile,
        (tiles_needed(length, tile) - 1) * tile < length || length == 0,
        length == 0 <==> tiles_needed(length, tile) == 0,
{
    let n = tiles_needed(length, tile);
    assert(n * tile <= length + tile - 1 < n * tile + tile) by (nonlinear_arith)
        requires
            n == (length + tile - 1) / tile,
            tile > 0,
    ;
    assert(n * tile + tile == (n + 1) * tile) by (nonlinear_arith);
    assert((n - 1) * tile == n * tile - tile) by (nonlinear_arith);
    if length == 0 {
        assert(n == 0) by (nonlinear_arith)
            requires
                n * tile <= tile - 1,
                tile - 1 < n * tile + tile,
                tile > 0,
        ;
    } else {
        assert(n >= 1) by (nonlinear_arith)
            requires
                length + tile - 1 < n * tile + tile,
                length >= 1,
                tile > 0,
        ;
        assert(n <= length) by (nonlinear_arith)
            requires
                n * tile <= length + tile - 1,
                length >= 1,
                tile > 0,
                n >= 1,
        ;
    }
}

/// Number of workgroups of edge `tile` to dispatch along an axis of `length` pixels.
pub fn workgroup_count(length: u32, tile: u32) -> (groups: u32)
    requires
        tile > 0,
    ensures
        groups == tiles_needed(length as int, tile as int),
{
    let whole: u32 = length / tile;
    let rest: u32 = length % tile;
    proof {
        lemma_tiles_needed_is_ceiling(length as int, tile as int);
        let n = tiles_needed(length as int, tile as int);
        let q = whole as int;
        let r = rest as int;
        assert(length == q * tile + r && 0 <= r < tile) by (nonlinear_arith)
            requires
                q == length as int / tile as int,
                r == length as int % tile as int,
                tile > 0,
        ;
        if r == 0 {
            assert(n == q) by (nonlinear_arith)
                requires
                    length == q * tile,
                    length <= n * tile,
                    (n - 1) * tile < length || length == 0,
                    (length == 0) == (n == 0),
                    tile > 0,
            ;
        } else {
            assert(n == q + 1) by (nonlinear_arith)
                requires
                    length == q * tile + r,
                    0 < r < tile,
                    length <= n * tile,
                    (n - 1) * tile < length,
                    tile > 0,
            ;
        }
    }
    if rest == 0 {
        whole
    } else {
        whole + 1
    }
}

/// Index of the tile that holds the pixel column or row `pixel`.
pub open spec fn tile_of(pixel: int, tile: int) -> int
    recommends
        pixel >= 0,
        tile > 0,
{
    pixel / tile
}

/// First pixel column or row of the tile with the given index.
pub open spec fn tile_origin(index: int, tile: int) -> int {
    index * tile
}

/// The dispatch grid covers the image exactly: every pixel of the extent lies
/// in a dispatched tile, and every dispatched tile starts on a pixel of the
/// extent, so that no tile is asked for beyond the last column or row and
/// none before the first. The counts fit the 32-bit grid without truncation.
pub proof fn lemma_grid_covers_every_pixel(extent: Extent, tile: u32)
    requires
        tile > 0,
    ensures
        grid_for(extent, tile).x == tiles_needed(extent.width as int, tile as int),
        grid_for(extent, tile).y == tiles_needed(extent.height as int, tile as int),
        grid_for(extent, tile).z == 1,
        forall|x: int|
            0 <= x < extent.width ==> 0 <= #[trigger] tile_of(x, tile as int) < grid_for(
                extent,
                tile,
            ).x,
        forall|y: int|
            0 <= y < extent.height ==> 0 <= #[trigger] tile_of(y, tile as int) < grid_for(
                extent,
                tile,
            ).y,
        forall|gx: int|
            0 <= gx < grid_for(extent, tile).x ==> 0 <= #[trigger] tile_origin(gx, tile as int)
                <= extent.width - 1,
        forall|gy: int|
            0 <= gy < grid_for(extent, tile).y ==> 0 <= #[trigger] tile_origin(gy, tile as int)
                <= extent.height - 1,
{
    lemma_tiles_cover_axis(extent.width as int, tile as int);
    lemma_tiles_cover_axis(extent.height as int, tile as int);
}

/// Along one axis: each pixel falls into one of the `tiles_needed` tiles, and
/// each of those tiles starts inside `0..length`.
pub proof fn lemma_tiles_cover_axis(length: int, tile: int)
    requires
        length >= 0,
        tile > 0,
    ensures
        0 <= tiles_needed(length, tile) <= length,
        forall|p: int|
            0 <= p < length ==> 0 <= #[trigger] tile_of(p, tile) < tiles_needed(length, tile),
        forall|g: int|
            0 <= g < tiles_needed(length, tile) ==> 0 <= #[trigger] tile_origin(g, tile) <= length
                - 1,
{
    lemma_tiles_needed_is_ceiling(length, tile);
    let n = tiles_needed(length, tile);
    assert forall|p: int| 0 <= p < length implies 0 <= #[trigger] tile_of(p, tile) < n by {
        let q = p / tile;
        assert(q * tile <= p && q >= 0) by (nonlinear_arith)
            requires
                q == p / tile,
                p >= 0,
                tile > 0,
        ;
        assert(q < n) by (nonlinear_arith)
            requires
                q * tile <= p,
                p < length,
                length <= n * tile,
                tile > 0,
        ;
    }
    assert forall|g: int| 0 <= g < n implies 0 <= #[trigger] tile_origin(g, tile) <= length
        - 1 by {
        assert(0 <= g * tile <= (n - 1) * tile) by (nonlinear_arith)
            requires
                0 <= g <= n - 1,
                tile > 0,
        ;
    }
}

/// The workgroup grid for one compute pass over `extent`.
pub fn dispatch_grid(extent: Extent, tile: u32) -> (grid: WorkgroupGrid)
    requires
        tile > 0,
    ensures
        grid == grid_for(extent, tile),
{
    proof {
        lemma_tiles_needed_is_ceiling(extent.width as int, tile as int);
        lemma_tiles_needed_is_ceiling(extent.height as int, tile as int);
    }
    WorkgroupGrid {
        x: workgroup_count(extent.width, tile),
        y: workgroup_count(extent.height, tile),
        z: 1,
    }
}

} // verus!
